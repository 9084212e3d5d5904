//! Event dispatch: matching dispatch keys against glob patterns and picking
//! the first rule that applies.
use vstd::prelude::*;
use vstd::string::*;
use crate::text::{lemma_split_injective, chars_of, chars_equal, split_chars, split_on, views_of, lemma_split_on_nonempty};

verus! {

/// What to do with a matched event.
#[derive(Debug, Clone)]
pub enum DispatchAction {
    /// Build a prompt and call the model.
    AgentTurn,
    /// Run a built-in handler, no model call.
    Handler { name: String },
    /// Ignore the event.
    Drop,
}

/// A dispatch rule: pattern and the action it selects.
#[derive(Debug, Clone)]
pub struct DispatchRule {
    pub pattern: String,
    pub action: DispatchAction,
    pub prompt_config: Option<String>,
}

/// The segment `*`.
pub open spec fn star() -> Seq<char> {
    seq!['*']
}

/// The segment `**`.
pub open spec fn double_star() -> Seq<char> {
    seq!['*', '*']
}

/// Matching of colon-separated pattern segments against key segments:
/// `**` matches everything that remains, `*` matches exactly one segment
/// (as the last pattern segment it must meet the last key segment), and
/// every other segment must equal the key segment.
pub open spec fn segments_match(p: Seq<Seq<char>>, k: Seq<Seq<char>>) -> bool
    decreases p.len(),
{
    if p.len() == 0 || k.len() == 0 {
        p.len() == 0 && k.len() == 0
    } else if p[0] == double_star() {
        true
    } else if p[0] == star() {
        if p.len() == 1 {
            k.len() == 1
        } else {
            segments_match(p.drop_first(), k.drop_first())
        }
    } else {
        p[0] == k[0] && segments_match(p.drop_first(), k.drop_first())
    }
}

/// Whether `pattern` matches the dispatch key `key`: the bare pattern `*`
/// matches every key, other patterns are matched segment by segment.
pub open spec fn glob_matches(pattern: Seq<char>, key: Seq<char>) -> bool {
    pattern == star() || segments_match(split_on(pattern, ':'), split_on(key, ':'))
}

/// Simple glob matching of colon-separated dispatch keys.
///
/// - `*` matches exactly one segment
/// - `**` matches everything that remains
/// - the bare pattern `*` matches every key
/// - literal segments must match exactly
pub fn glob_match(pattern: &str, key: &str) -> (r: bool)
    ensures
        r == glob_matches(pattern@, key@),
{
    let pat = chars_of(pattern);
    let k = chars_of(key);
    if pat.len() == 1 && pat[0] == '*' {
        assert(pat@ =~= star());
        return true;
    }
    assert(pat@ != star());
    let pat_parts = split_chars(&pat, ':');
    let key_parts = split_chars(&k, ':');
    let ghost ps = split_on(pattern@, ':');
    let ghost ks = split_on(key@, ':');
    proof {
        lemma_split_on_nonempty(pattern@, ':');
        lemma_split_on_nonempty(key@, ':');
    }
    let mut i: usize = 0;
    assert(ps.skip(0) =~= ps);
    assert(ks.skip(0) =~= ks);
    while i < pat_parts.len() && i < key_parts.len()
        invariant
            pattern@ != star(),
            ps == split_on(pattern@, ':'),
            ks == split_on(key@, ':'),
            views_of(pat_parts@) == ps,
            views_of(key_parts@) == ks,
            ps.len() >= 1,
            ks.len() >= 1,
            i <= ps.len(),
            i <= ks.len(),
            segments_match(ps, ks) == segments_match(ps.skip(i as int), ks.skip(i as int)),
        decreases ps.len() - i,
    {
        let seg = &pat_parts[i];
        let ghost p_rest = ps.skip(i as int);
        let ghost k_rest = ks.skip(i as int);
        assert(p_rest.len() == ps.len() - i);
        assert(k_rest.len() == ks.len() - i);
        assert(p_rest[0] == seg@);
        assert(k_rest[0] == key_parts@[i as int]@);
        assert(p_rest.drop_first() =~= ps.skip(i + 1));
        assert(k_rest.drop_first() =~= ks.skip(i + 1));
        if seg.len() == 2 && seg[0] == '*' && seg[1] == '*' {
            assert(seg@ =~= double_star());
            return true;
        }
        assert(seg@ != double_star());
        if seg.len() == 1 && seg[0] == '*' {
            assert(seg@ =~= star());
            if i == pat_parts.len() - 1 {
                return i == key_parts.len() - 1;
            }
        } else {
            assert(seg@ != star());
            if !chars_equal(seg, &key_parts[i]) {
                return false;
            }
        }
        i = i + 1;
    }
    i == pat_parts.len() && i == key_parts.len()
}

/// Whether `s` is exactly the catch-all pattern `*`.
pub fn is_catch_all_pattern(s: &str) -> (r: bool)
    ensures
        r == (s@ == star()),
{
    let cs = chars_of(s);
    if cs.len() == 1 && cs[0] == '*' {
        assert(cs@ =~= star());
        true
    } else {
        false
    }
}

/// The rule at index `i` is the first of `rules` whose pattern matches `key`.
pub open spec fn is_first_match(rules: Seq<DispatchRule>, key: Seq<char>, i: int) -> bool {
    &&& 0 <= i < rules.len()
    &&& glob_matches(rules[i].pattern@, key)
    &&& forall|j: int| 0 <= j < i ==> !glob_matches(#[trigger] rules[j].pattern@, key)
}

/// Some rule of `rules` has the catch-all pattern `*`.
pub open spec fn has_catch_all(rules: Seq<DispatchRule>) -> bool {
    exists|i: int| 0 <= i < rules.len() && (#[trigger] rules[i]).pattern@ == star()
}

/// The rule that `Dispatcher::new` appends when no catch-all is given.
pub open spec fn is_default_catch_all(rule: DispatchRule) -> bool {
    &&& rule.pattern@ == star()
    &&& rule.action is AgentTurn
    &&& rule.prompt_config is None
}

/// Routes events to actions based on dispatch key matching.
pub struct Dispatcher {
    rules: Vec<DispatchRule>,
}

impl View for Dispatcher {
    type V = Seq<DispatchRule>;

    closed spec fn view(&self) -> Seq<DispatchRule> {
        self.rules@
    }
}

impl Dispatcher {
    /// Every dispatcher holds a catch-all rule, so some rule matches every key.
    #[verifier::type_invariant]
    spec fn always_catches(self) -> bool {
        has_catch_all(self.rules@)
    }

    /// Creates a dispatcher with the given rules, appending a catch-all
    /// `AgentTurn` rule when none of them has the pattern `*`.
    pub fn new(rules: Vec<DispatchRule>) -> (d: Self)
        ensures
            has_catch_all(rules@) ==> d@ == rules@,
            !has_catch_all(rules@) ==> {
                &&& d@.len() == rules@.len() + 1
                &&& d@.take(rules@.len() as int) == rules@
                &&& is_default_catch_all(d@.last())
            },
            has_catch_all(d@),
    {
        let mut rules = rules;
        let mut has_catchall = false;
        let mut i: usize = 0;
        while i < rules.len()
            invariant
                i <= rules.len(),
                has_catchall <==> exists|j: int| 0 <= j < i && (#[trigger] rules@[j]).pattern@ == star(),
            decreases rules.len() - i,
        {
            if is_catch_all_pattern(rules[i].pattern.as_str()) {
                has_catchall = true;
            }
            i = i + 1;
        }
        if !has_catchall {
            let pattern = String::from_str("*");
            proof {
                reveal_strlit("*");
            }
            assert(pattern@ =~= star());
            let ghost old_rules = rules@;
            rules.push(DispatchRule { pattern, action: DispatchAction::AgentTurn, prompt_config: None });
            assert(rules@.take(old_rules.len() as int) =~= old_rules);
            assert(rules@[old_rules.len() as int].pattern@ == star());
        }
        Dispatcher { rules }
    }

    /// A dispatcher that sends every event to an agent turn.
    pub fn default_agent_turn() -> (d: Self)
        ensures
            d@.len() == 1,
            is_default_catch_all(d@[0]),
    {
        let d = Self::new(Vec::new());
        proof {
            if has_catch_all(Seq::<DispatchRule>::empty()) {
                let i = choose|i: int| 0 <= i < Seq::<DispatchRule>::empty().len()
                    && (#[trigger] Seq::<DispatchRule>::empty()[i]).pattern@ == star();
            }
        }
        d
    }

    /// The first rule whose pattern matches `key`; the catch-all guarantees one.
    pub fn match_rule(&self, key: &str) -> (r: &DispatchRule)
        ensures
            exists|i: int| is_first_match(self@, key@, i) && *r == self@[i],
    {
        proof {
            use_type_invariant(self);
        }
        let mut i: usize = 0;
        while i < self.rules.len()
            invariant
                i <= self.rules.len(),
                has_catch_all(self.rules@),
                forall|j: int| 0 <= j < i ==> !glob_matches(#[trigger] self.rules@[j].pattern@, key@),
            decreases self.rules.len() - i,
        {
            if glob_match(self.rules[i].pattern.as_str(), key) {
                assert(is_first_match(self@, key@, i as int));
                return &self.rules[i];
            }
            i = i + 1;
        }
        proof {
            let c = choose|c: int| 0 <= c < self.rules@.len() && (#[trigger] self.rules@[c]).pattern@ == star();
            assert(glob_matches(self.rules@[c].pattern@, key@));
        }
        &self.rules[0]
    }
}

/// No segment of the pattern is a wildcard.
pub open spec fn is_literal_pattern(pattern: Seq<char>) -> bool {
    forall|i: int|
        0 <= i < split_on(pattern, ':').len() ==> #[trigger] split_on(pattern, ':')[i] != star()
            && split_on(pattern, ':')[i] != double_star()
}

proof fn lemma_literal_segments_match(p: Seq<Seq<char>>, k: Seq<Seq<char>>)
    requires
        forall|i: int| 0 <= i < p.len() ==> #[trigger] p[i] != star() && p[i] != double_star(),
    ensures
        segments_match(p, k) <==> p == k,
    decreases p.len(),
{
    if p.len() == 0 || k.len() == 0 {
        if p.len() == 0 && k.len() == 0 {
            assert(p =~= k);
        }
    } else {
        assert(p[0] != star() && p[0] != double_star());
        assert forall|i: int| 0 <= i < p.drop_first().len() implies #[trigger] p.drop_first()[i] != star()
            && p.drop_first()[i] != double_star() by {
            assert(p.drop_first()[i] == p[i + 1]);
        }
        lemma_literal_segments_match(p.drop_first(), k.drop_first());
        assert(segments_match(p, k) == (p[0] == k[0] && segments_match(p.drop_first(), k.drop_first())));
        if p == k {
            assert(p.drop_first() == k.drop_first());
        } else if p[0] == k[0] && p.drop_first() == k.drop_first() {
            assert(p.len() == k.len());
            assert forall|i: int| 0 <= i < p.len() implies p[i] == k[i] by {
                if i > 0 {
                    assert(p[i] == p.drop_first()[i - 1]);
                    assert(k[i] == k.drop_first()[i - 1]);
                }
            }
            assert(p =~= k);
        }
    }
}

proof fn lemma_segments_match_self(p: Seq<Seq<char>>)
    ensures
        segments_match(p, p),
    decreases p.len(),
{
    if p.len() > 0 {
        lemma_segments_match_self(p.drop_first());
    }
}

/// The catch-all pattern `*` matches every dispatch key.
pub proof fn law_catch_all_matches_every_key(key: Seq<char>)
    ensures
        glob_matches(star(), key),
{
}

/// A pattern without wildcard segments matches exactly the key equal to it.
pub proof fn law_literal_pattern_matches_only_itself(pattern: Seq<char>, key: Seq<char>)
    requires
        is_literal_pattern(pattern),
    ensures
        glob_matches(pattern, key) <==> pattern == key,
{
    let ps = split_on(pattern, ':');
    let ks = split_on(key, ':');
    assert(forall|i: int| 0 <= i < ps.len() ==> #[trigger] ps[i] != star() && ps[i] != double_star());
    lemma_literal_segments_match(ps, ks);
    if pattern == star() {
        reveal_with_fuel(split_on, 2);
        assert(ps[0] == star());
    }
    if ps == ks {
        lemma_split_injective(pattern, key, ':');
    }
}

/// Every pattern matches the key spelled exactly like it.
pub proof fn law_pattern_matches_itself(pattern: Seq<char>)
    ensures
        glob_matches(pattern, pattern),
{
    lemma_segments_match_self(split_on(pattern, ':'));
}

proof fn lemma_no_double_star_same_length(p: Seq<Seq<char>>, k: Seq<Seq<char>>)
    requires
        forall|i: int| 0 <= i < p.len() ==> #[trigger] p[i] != double_star(),
        segments_match(p, k),
    ensures
        p.len() == k.len(),
    decreases p.len(),
{
    if p.len() > 0 && k.len() > 0 && !(p[0] == star() && p.len() == 1) {
        assert forall|i: int| 0 <= i < p.drop_first().len() implies #[trigger] p.drop_first()[i] != double_star() by {
            assert(p.drop_first()[i] == p[i + 1]);
        }
        lemma_no_double_star_same_length(p.drop_first(), k.drop_first());
    }
}

/// `*` stands for exactly one segment: a pattern without `**` (other than
/// the bare catch-all) matches only keys with as many segments as it has.
pub proof fn law_star_matches_one_segment(pattern: Seq<char>, key: Seq<char>)
    requires
        pattern != star(),
        forall|i: int| 0 <= i < split_on(pattern, ':').len() ==> #[trigger] split_on(pattern, ':')[i] != double_star(),
        glob_matches(pattern, key),
    ensures
        split_on(pattern, ':').len() == split_on(key, ':').len(),
{
    lemma_no_double_star_same_length(split_on(pattern, ':'), split_on(key, ':'));
}

/// `**` stands for everything that remains, one segment or more: after
/// segments (none of them `**`) that the key repeats, it matches any
/// non-empty rest, and no rest at all is no match.
pub proof fn law_double_star_matches_rest(prefix: Seq<Seq<char>>, rest: Seq<Seq<char>>)
    requires
        rest.len() >= 1,
        forall|i: int| 0 <= i < prefix.len() ==> #[trigger] prefix[i] != double_star(),
    ensures
        segments_match(prefix.push(double_star()), prefix + rest),
        !segments_match(prefix.push(double_star()), prefix),
    decreases prefix.len(),
{
    let p = prefix.push(double_star());
    if prefix.len() == 0 {
        assert(p[0] == double_star());
        assert((prefix + rest).len() >= 1);
        assert(prefix.len() == 0);
    } else {
        assert forall|i: int| 0 <= i < prefix.drop_first().len() implies #[trigger] prefix.drop_first()[i]
            != double_star() by {
            assert(prefix.drop_first()[i] == prefix[i + 1]);
        }
        law_double_star_matches_rest(prefix.drop_first(), rest);
        assert(p.drop_first() =~= prefix.drop_first().push(double_star()));
        assert((prefix + rest).drop_first() =~= prefix.drop_first() + rest);
        assert(p[0] == prefix[0]);
        assert((prefix + rest)[0] == prefix[0]);
        assert(p.len() > 1);
    }
}

/// Literal segments must agree: when a pattern matches, each of its
/// literal segments that comes before any `**` equals the key segment at
/// the same place (so a key differing there is never matched, whatever
/// wildcards follow).
pub proof fn law_literal_segments_agree(p: Seq<Seq<char>>, k: Seq<Seq<char>>, i: int)
    requires
        segments_match(p, k),
        0 <= i < p.len(),
        forall|j: int| 0 <= j <= i ==> #[trigger] p[j] != double_star(),
        p[i] != star(),
    ensures
        i < k.len(),
        p[i] == k[i],
    decreases i,
{
    assert(p[0] != double_star());
    if i == 0 {
        assert(p[0] != star());
    } else {
        if p[0] == star() {
            assert(p.len() > 1);
        }
        assert(k.len() > 0);
        assert forall|j: int| 0 <= j <= i - 1 implies #[trigger] p.drop_first()[j] != double_star() by {
            assert(p.drop_first()[j] == p[j + 1]);
        }
        assert(p.drop_first()[i - 1] == p[i]);
        law_literal_segments_agree(p.drop_first(), k.drop_first(), i - 1);
        assert(k.drop_first()[i - 1] == k[i]);
    }
}

/// A pattern whose first segment is a literal that differs from the key's
/// first segment does not match the key (for example `telegram:**` does
/// not match `cron:heartbeat`).
pub proof fn law_literal_mismatch_fails(pattern: Seq<char>, key: Seq<char>)
    requires
        pattern != star(),
        split_on(pattern, ':')[0] != star(),
        split_on(pattern, ':')[0] != double_star(),
        split_on(pattern, ':')[0] != split_on(key, ':')[0],
    ensures
        !glob_matches(pattern, key),
{
    lemma_split_on_nonempty(pattern, ':');
    lemma_split_on_nonempty(key, ':');
    let ps = split_on(pattern, ':');
    let ks = split_on(key, ':');
    if segments_match(ps, ks) {
        law_literal_segments_agree(ps, ks, 0);
    }
}

/// With only the default catch-all rule, the first match for every key is
/// that rule, so every event goes to an agent turn.
pub proof fn law_default_dispatcher_routes_to_agent_turn(rules: Seq<DispatchRule>, key: Seq<char>)
    requires
        rules.len() == 1,
        is_default_catch_all(rules[0]),
    ensures
        is_first_match(rules, key, 0),
        rules[0].action is AgentTurn,
{
}

/// A dispatcher always finds a rule: whenever the rules hold a catch-all,
/// some rule is the first match for any key.
pub proof fn law_catch_all_guarantees_a_match(rules: Seq<DispatchRule>, key: Seq<char>)
    requires
        has_catch_all(rules),
    ensures
        exists|i: int| is_first_match(rules, key, i),
    decreases rules.len(),
{
    let c = choose|c: int| 0 <= c < rules.len() && (#[trigger] rules[c]).pattern@ == star();
    let m = choose_first(rules, key, c);
    assert(is_first_match(rules, key, m));
}

proof fn choose_first(rules: Seq<DispatchRule>, key: Seq<char>, bound: int) -> (m: int)
    requires
        0 <= bound < rules.len(),
        glob_matches(rules[bound].pattern@, key),
    ensures
        is_first_match(rules, key, m),
    decreases bound,
{
    if exists|j: int| 0 <= j < bound && glob_matches(#[trigger] rules[j].pattern@, key) {
        let j = choose|j: int| 0 <= j < bound && glob_matches(#[trigger] rules[j].pattern@, key);
        choose_first(rules, key, j)
    } else {
        bound
    }
}

} // verus!

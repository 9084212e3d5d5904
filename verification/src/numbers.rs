//! Decimal numbers in text, read as the standard library's integer parsers
//! read them.
use vstd::prelude::*;
use vstd::string::*;
use crate::text::chars_of;

verus! {

/// Whether `c` is an ASCII decimal digit.
pub open spec fn is_digit(c: char) -> bool {
    '0' <= c && c <= '9'
}

/// The value of a string of decimal digits.
pub open spec fn digits_value(s: Seq<char>) -> nat
    decreases s.len(),
{
    if s.len() == 0 {
        0
    } else {
        digits_value(s.drop_last()) * 10 + ((s.last() as u32) - 48) as nat
    }
}

/// `s` without a leading `+`.
pub open spec fn strip_plus(s: Seq<char>) -> Seq<char> {
    if s.len() > 0 && s[0] == '+' {
        s.drop_first()
    } else {
        s
    }
}

/// The value of one or more ASCII digits, when it fits in 64 bits.
pub open spec fn parse_digits(body: Seq<char>) -> Option<u64> {
    if body.len() > 0 && (forall|i: int| 0 <= i < body.len() ==> is_digit(#[trigger] body[i]))
        && digits_value(body) <= u64::MAX {
        Some(digits_value(body) as u64)
    } else {
        None
    }
}

/// What `str::parse::<u64>` gives: an optional `+`, then one or more ASCII
/// digits whose value fits in 64 bits.
pub open spec fn parse_u64_spec(s: Seq<char>) -> Option<u64> {
    parse_digits(strip_plus(s))
}

/// Parses a count as `str::parse::<u64>` does.
pub fn parse_count(s: &Vec<char>, from: usize, to: usize) -> (r: Option<u64>)
    requires
        from <= to <= s@.len(),
    ensures
        r == parse_u64_spec(s@.subrange(from as int, to as int)),
{
    let ghost whole = s@.subrange(from as int, to as int);
    let mut start = from;
    if start < to && s[start] == '+' {
        start = start + 1;
    }
    let ghost body = s@.subrange(start as int, to as int);
    assert(strip_plus(whole) =~= body);
    if start == to {
        return None;
    }
    let mut value: u64 = 0;
    let mut k: usize = start;
    assert(s@.subrange(start as int, start as int) =~= Seq::<char>::empty());
    while k < to
        invariant
            start <= k <= to <= s@.len(),
            start < to,
            body == s@.subrange(start as int, to as int),
            strip_plus(s@.subrange(from as int, to as int)) == body,
            forall|i: int| 0 <= i < k - start ==> is_digit(#[trigger] body[i]),
            value as nat == digits_value(body.take(k - start)),
        decreases to - k,
    {
        let c = s[k];
        assert(body[k - start] == c);
        if !('0' <= c && c <= '9') {
            assert(!is_digit(body[k - start]));
            assert(parse_digits(body) is None);
            return None;
        }
        let d: u64 = ((c as u32) - 48) as u64;
        let ghost pre = body.take(k + 1 - start);
        assert(pre.drop_last() =~= body.take(k - start));
        assert(pre.last() == c);
        assert(digits_value(pre) == value * 10 + d);
        if value > (u64::MAX - d) / 10 {
            proof {
                assert(value * 10 + d > u64::MAX) by (nonlinear_arith)
                    requires
                        value > (u64::MAX - d) / 10,
                        d <= 9;
                lemma_prefix_value_le(body, k + 1 - start);
            }
            assert(parse_digits(body) is None);
            return None;
        }
        assert(value * 10 + d <= u64::MAX) by (nonlinear_arith)
            requires
                value <= (u64::MAX - d) / 10,
                d <= 9;
        value = value * 10 + d;
        k = k + 1;
    }
    assert(body.take(to - start) =~= body);
    Some(value)
}

/// The value of a digit string is at least that of any of its prefixes,
/// when every character is a digit.
proof fn lemma_prefix_value_le(s: Seq<char>, n: int)
    requires
        0 <= n <= s.len(),
    ensures
        (forall|i: int| 0 <= i < s.len() ==> is_digit(#[trigger] s[i])) ==> digits_value(s.take(n)) <= digits_value(s),
    decreases s.len() - n,
{
    if n < s.len() {
        lemma_prefix_value_le(s.drop_last(), if n < s.len() { n } else { n - 1 });
        assert(s.drop_last().take(n) =~= s.take(n));
        if forall|i: int| 0 <= i < s.len() ==> is_digit(#[trigger] s[i]) {
            assert forall|i: int| 0 <= i < s.drop_last().len() implies is_digit(#[trigger] s.drop_last()[i]) by {
                assert(s.drop_last()[i] == s[i]);
            }
        }
    } else {
        assert(s.take(n) =~= s);
    }
}

/// What `str::parse::<i64>` gives: an optional sign, then one or more
/// ASCII digits whose signed value fits in 64 bits.
pub open spec fn parse_i64_spec(s: Seq<char>) -> Option<i64> {
    if s.len() > 0 && s[0] == '-' {
        match parse_digits(s.drop_first()) {
            Some(m) => if m <= 0x8000_0000_0000_0000 { Some((-(m as int)) as i64) } else { None },
            None => None,
        }
    } else {
        match parse_u64_spec(s) {
            Some(v) => if v <= i64::MAX { Some(v as i64) } else { None },
            None => None,
        }
    }
}

/// What `str::parse::<i32>` gives.
pub open spec fn parse_i32_spec(s: Seq<char>) -> Option<i32> {
    match parse_i64_spec(s) {
        Some(v) => if i32::MIN <= v <= i32::MAX { Some(v as i32) } else { None },
        None => None,
    }
}

/// Parses a signed 64-bit integer as `str::parse::<i64>` does.
pub fn parse_i64(s: &str) -> (r: Option<i64>)
    ensures
        r == parse_i64_spec(s@),
{
    let cs = chars_of(s);
    if cs.len() > 0 && cs[0] == '-' {
        assert(cs@.subrange(1, cs.len() as int) =~= cs@.drop_first());
        let has_sign: bool = cs.len() > 1 && cs[1] == '+';
        let magnitude = if has_sign {
            None
        } else {
            parse_count(&cs, 1, cs.len())
        };
        proof {
            if has_sign {
                assert(!is_digit(cs@.drop_first()[0]));
                assert(parse_digits(cs@.drop_first()) is None);
            } else {
                assert(strip_plus(cs@.drop_first()) =~= cs@.drop_first());
            }
        }
        match magnitude {
            Some(m) => if m <= 0x8000_0000_0000_0000u64 {
                if m == 0x8000_0000_0000_0000u64 {
                    Some(i64::MIN)
                } else {
                    Some(-(m as i64))
                }
            } else {
                None
            },
            None => None,
        }
    } else {
        assert(cs@.subrange(0, cs.len() as int) =~= cs@);
        match parse_count(&cs, 0, cs.len()) {
            Some(v) => if v <= i64::MAX as u64 {
                Some(v as i64)
            } else {
                None
            },
            None => None,
        }
    }
}

/// Parses a signed 32-bit integer as `str::parse::<i32>` does.
pub fn parse_i32(s: &str) -> (r: Option<i32>)
    ensures
        r == parse_i32_spec(s@),
{
    match parse_i64(s) {
        Some(v) => if i32::MIN as i64 <= v && v <= i32::MAX as i64 {
            Some(v as i32)
        } else {
            None
        },
        None => None,
    }
}

} // verus!

//! Scheduled tasks: parsing schedules, choosing which task fires next, and
//! what happens to a task after it fires.
use vstd::prelude::*;
use vstd::string::*;
use crate::numbers::{parse_count, parse_u64_spec};
use crate::event::unix_time_now;
use crate::text::{trim, trimmed_chars, chars_of, chars_equal, concat2, owned, signed_decimal, signed_decimal_string};

verus! {

/// How often, in seconds, tasks are reloaded from memory.
pub const RELOAD_INTERVAL_SECS: u64 = 300;

/// How long, in seconds, the source idles when it has no tasks.
pub const IDLE_SECS: u64 = 60;

/// `cron::Schedule`, a parsed cron expression, carried unread.
#[verifier::external_type_specification]
#[verifier::external_body]
pub struct ExCronSchedule(cron::Schedule);

/// A point in time: whole seconds since the Unix epoch, and nanoseconds
/// past them.
#[derive(Debug, Clone, Copy, PartialEq, Eq, Structural)]
pub struct Moment {
    pub secs: i64,
    pub nanos: u32,
}

/// `a` is not later than `b`.
pub open spec fn moment_le(a: Moment, b: Moment) -> bool {
    a.secs < b.secs || (a.secs == b.secs && a.nanos <= b.nanos)
}

/// Whether `a` is not later than `b`.
pub fn moment_not_after(a: Moment, b: Moment) -> (r: bool)
    ensures
        r == moment_le(a, b),
{
    a.secs < b.secs || (a.secs == b.secs && a.nanos <= b.nanos)
}

/// When a task runs.
pub enum TaskSchedule {
    /// A cron expression, kept as its text.
    Cron(String),
    /// Once, at the given moment.
    OneShot(Moment),
    /// Repeatedly, every given number of seconds.
    Interval(u64),
}

/// A task as stored in memory under `cron/{id}`.
#[derive(Debug, Clone)]
pub struct CronTaskConfig {
    pub schedule: String,
    pub payload: String,
    pub enabled: bool,
}

/// A loaded task.
pub struct CronTask {
    pub id: String,
    pub schedule: TaskSchedule,
    pub payload: String,
    pub next_run: Moment,
}

/// The event source that fires scheduled tasks.
pub struct CronSource;

/// Why a schedule was not understood.
#[derive(Debug, Clone)]
pub enum ScheduleError {
    InvalidCron { expression: String, reason: String },
}

// ---------------------------------------------------------------------------
// Results of the parsers of the date-time and cron crates.

/// What `str::parse::<chrono::DateTime<chrono::Utc>>` gives for a text, as
/// seconds and nanoseconds since the epoch.
pub uninterp spec fn utc_datetime_of(s: Seq<char>) -> Option<(i64, u32)>;

/// What `chrono::DateTime::parse_from_rfc3339` gives for a text, as seconds
/// and nanoseconds since the epoch.
pub uninterp spec fn rfc3339_datetime_of(s: Seq<char>) -> Option<(i64, u32)>;

/// What `cron::Schedule::from_str` gives for a text: `None` when it
/// accepts the text, else the display text of its error.
pub uninterp spec fn cron_parse_error(s: Seq<char>) -> Option<Seq<char>>;

/// Calls `str::parse::<chrono::DateTime<chrono::Utc>>` and reads the result
/// as seconds and nanoseconds since the epoch; claims only that the result
/// is the name `utc_datetime_of` of the text.
#[verifier::external_body]
fn parse_utc_datetime(s: &str) -> (r: Option<(i64, u32)>)
    ensures
        r == utc_datetime_of(s@),
{
    match s.parse::<chrono::DateTime<chrono::Utc>>() {
        Ok(dt) => Some((dt.timestamp(), dt.timestamp_subsec_nanos())),
        Err(_) => None,
    }
}

/// Calls `chrono::DateTime::parse_from_rfc3339` and reads the instant as
/// seconds and nanoseconds since the epoch; claims only that the result is
/// the name `rfc3339_datetime_of` of the text.
#[verifier::external_body]
fn parse_rfc3339_datetime(s: &str) -> (r: Option<(i64, u32)>)
    ensures
        r == rfc3339_datetime_of(s@),
{
    match chrono::DateTime::parse_from_rfc3339(s) {
        Ok(dt) => Some((dt.timestamp(), dt.timestamp_subsec_nanos())),
        Err(_) => None,
    }
}

/// Calls `cron::Schedule::from_str`; claims that it succeeds exactly when
/// `cron_parse_error` of the text is `None`, and that the error's display
/// text is the one `cron_parse_error` names. Nothing is claimed of the
/// parsed schedule, which the library only carries.
#[verifier::external_body]
fn parse_cron_expression(s: &str) -> (r: Result<cron::Schedule, String>)
    ensures
        match cron_parse_error(s@) {
            None => r is Ok,
            Some(text) => r matches Err(e) && e@ == text,
        },
{
    match s.parse::<cron::Schedule>() {
        Ok(schedule) => Ok(schedule),
        Err(e) => Err(e.to_string()),
    }
}

// ---------------------------------------------------------------------------
// Interval schedules.

/// Seconds per unit of an interval suffix: `s`, `m`, `h`, `d`.
pub open spec fn unit_seconds(c: char) -> Option<nat> {
    if c == 's' {
        Some(1)
    } else if c == 'm' {
        Some(60)
    } else if c == 'h' {
        Some(3600)
    } else if c == 'd' {
        Some(86400)
    } else {
        None
    }
}

/// An interval like `30m`, read as its count and the seconds per unit:
/// surrounding whitespace is ignored, the count is what `u64` parsing
/// accepts, and the unit is one of `s`, `m`, `h`, `d`.
pub open spec fn interval_parts(s: Seq<char>) -> Option<(u64, nat)> {
    let t = trim(s);
    if t.len() == 0 {
        None
    } else {
        match (unit_seconds(t.last()), parse_u64_spec(t.drop_last())) {
            (Some(unit), Some(n)) => Some((n, unit)),
            _ => None,
        }
    }
}

/// The interval would not fit in 64 bits of seconds.
pub open spec fn interval_overflows_spec(s: Seq<char>) -> bool {
    match interval_parts(s) {
        Some((n, unit)) => n * unit > u64::MAX,
        None => false,
    }
}

/// The length of an interval in seconds, if `s` is one.
pub open spec fn interval_seconds(s: Seq<char>) -> Option<u64> {
    match interval_parts(s) {
        Some((n, unit)) => Some((n * unit) as u64),
        None => None,
    }
}

/// An interval like `30m` read as its count and seconds per unit.
pub fn parse_interval_parts(s: &str) -> (r: Option<(u64, u64)>)
    ensures
        match interval_parts(s@) {
            Some((n, unit)) => r == Some((n, unit as u64)),
            None => r is None,
        },
{
    let t = trimmed_chars(s);
    if t.len() == 0 {
        return None;
    }
    let last = t[t.len() - 1];
    let unit: u64 = if last == 's' {
        1
    } else if last == 'm' {
        60
    } else if last == 'h' {
        3600
    } else if last == 'd' {
        86400
    } else {
        return None;
    };
    assert(t@.subrange(0, t.len() - 1) =~= t@.drop_last());
    match parse_count(&t, 0, t.len() - 1) {
        Some(n) => Some((n, unit)),
        None => None,
    }
}

/// Whether the interval `s` is too long for 64 bits of seconds.
pub fn interval_overflows(s: &str) -> (r: bool)
    ensures
        r == interval_overflows_spec(s@),
{
    match parse_interval_parts(s) {
        Some((n, unit)) => {
            assert(unit > 0);
            assert((n > u64::MAX / unit) == (n * unit > u64::MAX)) by (nonlinear_arith)
                requires
                    unit > 0;
            n > u64::MAX / unit
        },
        None => false,
    }
}

/// Parses an interval like `30m`, `6h`, `1d` or `45s` into seconds.
pub fn parse_interval(s: &str) -> (r: Option<u64>)
    requires
        !interval_overflows_spec(s@),
    ensures
        r == interval_seconds(s@),
{
    match parse_interval_parts(s) {
        Some((n, unit)) => {
            assert(n * unit <= u64::MAX);
            Some(n * unit)
        },
        None => None,
    }
}

// ---------------------------------------------------------------------------
// Schedules.

/// The schedule `s` stands for, tried in order: a date-time (one shot),
/// an RFC 3339 date-time (one shot), an interval, a cron expression.
pub open spec fn schedule_parsed_as(s: Seq<char>, r: Result<TaskSchedule, ScheduleError>) -> bool {
    match utc_datetime_of(s) {
        Some((secs, nanos)) => r == Ok::<TaskSchedule, ScheduleError>(TaskSchedule::OneShot(Moment { secs, nanos })),
        None => match rfc3339_datetime_of(s) {
            Some((secs, nanos)) => r == Ok::<TaskSchedule, ScheduleError>(TaskSchedule::OneShot(Moment { secs, nanos })),
            None => match interval_seconds(s) {
                Some(n) => r == Ok::<TaskSchedule, ScheduleError>(TaskSchedule::Interval(n)),
                None => match cron_parse_error(s) {
                    None => r matches Ok(TaskSchedule::Cron(expression)) && expression@ == s,
                    Some(text) => r matches Err(ScheduleError::InvalidCron { expression, reason })
                        && expression@ == s && reason@ == text,
                },
            },
        },
    }
}

/// The schedule a text stands for when it is a date-time or an interval,
/// given what the two date-time parsers made of it: the first date-time
/// (one shot), else the second (one shot), else the interval; `None` when
/// it is none of these and is to be read as a cron expression.
pub fn timed_schedule(
    s: &str,
    utc: Option<(i64, u32)>,
    rfc3339: Option<(i64, u32)>,
) -> (r: Option<TaskSchedule>)
    requires
        !interval_overflows_spec(s@),
    ensures
        match (utc, rfc3339, interval_seconds(s@)) {
            (Some((secs, nanos)), _, _) => r == Some(TaskSchedule::OneShot(Moment { secs, nanos })),
            (None, Some((secs, nanos)), _) => r == Some(TaskSchedule::OneShot(Moment { secs, nanos })),
            (None, None, Some(n)) => r == Some(TaskSchedule::Interval(n)),
            (None, None, None) => r is None,
        },
{
    if let Some((secs, nanos)) = utc {
        return Some(TaskSchedule::OneShot(Moment { secs, nanos }));
    }
    if let Some((secs, nanos)) = rfc3339 {
        return Some(TaskSchedule::OneShot(Moment { secs, nanos }));
    }
    match parse_interval(s) {
        Some(secs) => Some(TaskSchedule::Interval(secs)),
        None => None,
    }
}

/// The schedule a text stands for as a cron expression, given what the
/// cron parser made of it: the parsed schedule, or the error naming the
/// text and the parser's reason.
pub fn cron_schedule(s: &str, parsed: Result<cron::Schedule, String>) -> (r: Result<TaskSchedule, ScheduleError>)
    ensures
        match parsed {
            Ok(_) => r matches Ok(TaskSchedule::Cron(expression)) && expression@ == s@,
            Err(reason) => r matches Err(ScheduleError::InvalidCron { expression, reason: why })
                && expression@ == s@ && why@ == reason@,
        },
{
    match parsed {
        Ok(_) => Ok(TaskSchedule::Cron(owned(s))),
        Err(reason) => Err(ScheduleError::InvalidCron { expression: owned(s), reason }),
    }
}

/// Parses a task's schedule. Each parser is tried only when the ones
/// before it did not accept the text.
pub fn parse_schedule(s: &str) -> (r: Result<TaskSchedule, ScheduleError>)
    requires
        !interval_overflows_spec(s@),
    ensures
        schedule_parsed_as(s@, r),
{
    let utc = parse_utc_datetime(s);
    let rfc3339 = match utc {
        Some(_) => None,
        None => parse_rfc3339_datetime(s),
    };
    match timed_schedule(s, utc, rfc3339) {
        Some(schedule) => Ok(schedule),
        None => cron_schedule(s, parse_cron_expression(s)),
    }
}

impl ScheduleError {
    /// The text this error is reported with.
    pub fn message(&self) -> (r: String)
        ensures
            match *self {
                ScheduleError::InvalidCron { expression, reason } => r@ == "Invalid cron expression '"@
                    + expression@ + "': "@ + reason@,
            },
    {
        match self {
            ScheduleError::InvalidCron { expression, reason } => {
                let mut r = owned("Invalid cron expression '");
                r.append(expression.as_str());
                r.append("': ");
                r.append(reason.as_str());
                r
            },
        }
    }
}

// ---------------------------------------------------------------------------
// Tasks.

/// The id of the task stored under `topic`: what follows `cron/`.
pub open spec fn task_id_of(topic: Seq<char>) -> Option<Seq<char>> {
    if topic.len() >= 5 && topic.take(5) == "cron/"@ {
        Some(topic.skip(5))
    } else {
        None
    }
}

/// The id of the task stored under `topic`, if it is a task topic.
pub fn task_id_from_topic(topic: &str) -> (r: Option<String>)
    ensures
        match task_id_of(topic@) {
            Some(id) => r matches Some(s) && s@ == id,
            None => r is None,
        },
{
    proof {
        reveal_strlit("cron/");
    }
    let cs = chars_of(topic);
    if cs.len() >= 5 && cs[0] == 'c' && cs[1] == 'r' && cs[2] == 'o' && cs[3] == 'n' && cs[4] == '/' {
        assert(cs@.take(5) =~= "cron/"@);
        let mut id = String::new();
        let mut i: usize = 5;
        while i < cs.len()
            invariant
                5 <= i <= cs@.len(),
                id@ == cs@.subrange(5, i as int),
            decreases cs.len() - i,
        {
            id.push(cs[i]);
            assert(cs@.subrange(5, i + 1) =~= cs@.subrange(5, i as int).push(cs@[i as int]));
            i = i + 1;
        }
        assert(cs@.subrange(5, cs.len() as int) =~= cs@.skip(5));
        Some(id)
    } else {
        assert(cs@.len() >= 5 ==> cs@.take(5) != "cron/"@ || (cs@[0] == 'c' && cs@[1] == 'r' && cs@[2] == 'o'
            && cs@[3] == 'n' && cs@[4] == '/')) by {
            if cs@.len() >= 5 && cs@.take(5) == "cron/"@ {
                assert(cs@[0] == cs@.take(5)[0]);
                assert(cs@[1] == cs@.take(5)[1]);
                assert(cs@[2] == cs@.take(5)[2]);
                assert(cs@[3] == cs@.take(5)[3]);
                assert(cs@[4] == cs@.take(5)[4]);
            }
        }
        None
    }
}

/// The memory topic a task is stored under: `cron/{id}`.
pub fn cron_topic(id: &str) -> (r: String)
    ensures
        r@ == "cron/"@ + id@,
{
    concat2("cron/", id)
}

/// The id of the message a firing task produces: `cron-{id}-{timestamp}`.
pub fn cron_message_id(id: &str, timestamp: i64) -> (r: String)
    ensures
        r@ == "cron-"@ + id@ + "-"@ + signed_decimal(timestamp as int),
{
    let mut r = owned("cron-");
    r.append(id);
    r.append("-");
    let digits = signed_decimal_string(timestamp);
    r.append(digits.as_str());
    r
}

/// Whether tasks are to be reloaded: when the last load is at least the
/// reload interval old, or when there are no tasks.
pub fn reload_due(secs_since_reload: u64, task_count: usize) -> (r: bool)
    ensures
        r == (secs_since_reload >= RELOAD_INTERVAL_SECS || task_count == 0),
{
    secs_since_reload >= RELOAD_INTERVAL_SECS || task_count == 0
}

/// The task that runs soonest: one whose next run is not later than that
/// of any other task; `None` when there are no tasks.
pub fn earliest_task(tasks: &Vec<CronTask>) -> (r: Option<usize>)
    ensures
        match r {
            Some(i) => i < tasks@.len() && forall|j: int| 0 <= j < tasks@.len() ==> moment_le(
                tasks@[i as int].next_run,
                #[trigger] tasks@[j].next_run,
            ),
            None => tasks@.len() == 0,
        },
{
    if tasks.len() == 0 {
        return None;
    }
    let mut best: usize = 0;
    let mut i: usize = 1;
    while i < tasks.len()
        invariant
            1 <= i <= tasks@.len(),
            best < i,
            forall|j: int| 0 <= j < i ==> moment_le(tasks@[best as int].next_run, #[trigger] tasks@[j].next_run),
        decreases tasks.len() - i,
    {
        if !moment_not_after(tasks[best].next_run, tasks[i].next_run) {
            best = i;
        }
        i = i + 1;
    }
    Some(best)
}

/// The tasks due at `now`, in order: exactly those whose next run is not
/// later than `now`.
pub fn due_tasks(tasks: &Vec<CronTask>, now: Moment) -> (r: Vec<usize>)
    ensures
        forall|k: int| 0 <= k < r@.len() ==> (#[trigger] r@[k]) < tasks@.len() && moment_le(tasks@[r@[k] as int].next_run, now),
        forall|j: int| 0 <= j < tasks@.len() && moment_le(tasks@[j].next_run, now) ==> r@.contains(j as usize),
        forall|a: int, b: int| 0 <= a < b < r@.len() ==> r@[a] < r@[b],
{
    let mut r: Vec<usize> = Vec::new();
    let mut i: usize = 0;
    while i < tasks.len()
        invariant
            i <= tasks@.len(),
            forall|k: int| 0 <= k < r@.len() ==> (#[trigger] r@[k]) < i && moment_le(tasks@[r@[k] as int].next_run, now),
            forall|j: int| 0 <= j < i && moment_le(tasks@[j].next_run, now) ==> r@.contains(j as usize),
            forall|a: int, b: int| 0 <= a < b < r@.len() ==> r@[a] < r@[b],
        decreases tasks.len() - i,
    {
        if moment_not_after(tasks[i].next_run, now) {
            let ghost before = r@;
            r.push(i);
            assert forall|j: int| 0 <= j < i + 1 && moment_le(tasks@[j].next_run, now) implies r@.contains(j as usize) by {
                if j < i {
                    let k = choose|k: int| 0 <= k < before.len() && before[k] == j as usize;
                    assert(r@[k] == j as usize);
                } else {
                    assert(r@[r@.len() - 1] == j as usize);
                }
            }
        }
        i = i + 1;
    }
    r
}

// ---------------------------------------------------------------------------
// Loading tasks.

/// What a stored task becomes when tasks are loaded.
pub enum TaskLoad {
    /// The task is switched off.
    Disabled,
    /// The schedule is not understood.
    Invalid(ScheduleError),
    /// The task runs on this schedule with this payload.
    Ready { schedule: TaskSchedule, payload: String },
}

/// Reads a stored task's configuration: disabled tasks are left out, the
/// schedule of the others is parsed.
pub fn load_task(config: CronTaskConfig) -> (r: TaskLoad)
    requires
        config.enabled ==> !interval_overflows_spec(config.schedule@),
    ensures
        !config.enabled ==> r is Disabled,
        config.enabled ==> match r {
            TaskLoad::Invalid(e) => schedule_parsed_as(config.schedule@, Err(e)),
            TaskLoad::Ready { schedule, payload } => payload == config.payload && schedule_parsed_as(
                config.schedule@,
                Ok(schedule),
            ),
            TaskLoad::Disabled => false,
        },
{
    if !config.enabled {
        return TaskLoad::Disabled;
    }
    match parse_schedule(config.schedule.as_str()) {
        Ok(schedule) => TaskLoad::Ready { schedule, payload: config.payload },
        Err(e) => TaskLoad::Invalid(e),
    }
}

/// No two tasks share an id.
pub open spec fn task_ids_unique(tasks: Seq<CronTask>) -> bool {
    forall|i: int, j: int| 0 <= i < j < tasks.len() ==> tasks[i].id@ != tasks[j].id@
}

/// Some task has the id `id`.
pub open spec fn has_task(tasks: Seq<CronTask>, id: Seq<char>) -> bool {
    exists|p: int| 0 <= p < tasks.len() && #[trigger] tasks[p].id@ == id
}

fn same_text(a: &String, b: &String) -> (r: bool)
    ensures
        r == (a@ == b@),
{
    let x = chars_of(a.as_str());
    let y = chars_of(b.as_str());
    chars_equal(&x, &y)
}

/// The position of the task with id `id`, if there is one.
pub fn find_task(tasks: &Vec<CronTask>, id: &String) -> (r: Option<usize>)
    ensures
        match r {
            Some(p) => p < tasks@.len() && tasks@[p as int].id@ == id@ && forall|j: int|
                0 <= j < p ==> (#[trigger] tasks@[j]).id@ != id@,
            None => !has_task(tasks@, id@),
        },
{
    let mut i: usize = 0;
    while i < tasks.len()
        invariant
            i <= tasks@.len(),
            forall|j: int| 0 <= j < i ==> (#[trigger] tasks@[j]).id@ != id@,
        decreases tasks.len() - i,
    {
        if same_text(&tasks[i].id, id) {
            return Some(i);
        }
        i = i + 1;
    }
    None
}

/// Adds a loaded task, replacing the task with the same id if there is
/// one: the tasks are keyed by id.
pub fn upsert_task(tasks: &mut Vec<CronTask>, task: CronTask)
    requires
        task_ids_unique(old(tasks)@),
    ensures
        task_ids_unique(final(tasks)@),
        has_task(old(tasks)@, task.id@) ==> exists|p: int|
            0 <= p < old(tasks)@.len() && #[trigger] old(tasks)@[p].id@ == task.id@ && final(tasks)@
                == old(tasks)@.update(p, task),
        !has_task(old(tasks)@, task.id@) ==> final(tasks)@ == old(tasks)@.push(task),
{
    match find_task(tasks, &task.id) {
        Some(i) => {
            let ghost p = i as int;
            let ghost before = tasks@;
            tasks.set(i, task);
            assert(before[p].id@ == task.id@);
            assert forall|a: int, b: int| 0 <= a < b < tasks@.len() implies tasks@[a].id@ != tasks@[b].id@ by {
                if a != p && b != p {
                    assert(tasks@[a] == before[a]);
                    assert(tasks@[b] == before[b]);
                } else if a == p {
                    assert(tasks@[b] == before[b]);
                    assert(before[p].id@ != before[b].id@);
                } else {
                    assert(tasks@[a] == before[a]);
                    assert(before[a].id@ != before[p].id@);
                }
            }
        },
        None => {
            tasks.push(task);
        },
    }
}

/// The tasks `after` are `before` with the fired task at `pos` settled:
/// a one-shot task removed, any other kept with its id, schedule and
/// payload and `next_run` as its next run.
pub open spec fn settled_as(before: Seq<CronTask>, after: Seq<CronTask>, pos: int, next_run: Moment) -> bool {
    if before[pos].schedule is OneShot {
        after == before.remove(pos)
    } else {
        &&& after.len() == before.len()
        &&& forall|j: int| 0 <= j < before.len() && j != pos ==> after[j] == before[j]
        &&& after[pos].id == before[pos].id
        &&& after[pos].schedule == before[pos].schedule
        &&& after[pos].payload == before[pos].payload
        &&& after[pos].next_run == next_run
    }
}

/// Settles the task at `pos` once it has fired: a one-shot task is removed,
/// any other task runs next at `next_run`. Returns whether the task was
/// removed.
pub fn settle_fired(tasks: &mut Vec<CronTask>, pos: usize, next_run: Moment) -> (removed: bool)
    requires
        pos < old(tasks)@.len(),
    ensures
        removed == old(tasks)@[pos as int].schedule is OneShot,
        settled_as(old(tasks)@, final(tasks)@, pos as int, next_run),
{
    let mut task = tasks.remove(pos);
    if let TaskSchedule::OneShot(_) = task.schedule {
        return true;
    }
    task.next_run = next_run;
    tasks.insert(pos, task);
    false
}

/// What firing does to the tasks: after a one-shot task fires and is
/// settled its id is gone, so it does not fire again until a reload finds
/// it; a task of another kind stays under its id with its new run time.
/// Ids stay unique either way.
pub proof fn law_fired_tasks(before: Seq<CronTask>, after: Seq<CronTask>, pos: int, next_run: Moment)
    requires
        task_ids_unique(before),
        0 <= pos < before.len(),
        settled_as(before, after, pos, next_run),
    ensures
        task_ids_unique(after),
        before[pos].schedule is OneShot ==> !has_task(after, before[pos].id@),
        !(before[pos].schedule is OneShot) ==> has_task(after, before[pos].id@) && after[pos].next_run
            == next_run,
{
    if before[pos].schedule is OneShot {
        assert forall|a: int, b: int| 0 <= a < b < after.len() implies after[a].id@ != after[b].id@ by {
            let a0 = if a < pos { a } else { a + 1 };
            let b0 = if b < pos { b } else { b + 1 };
            assert(after[a] == before[a0]);
            assert(after[b] == before[b0]);
        }
        if has_task(after, before[pos].id@) {
            let p = choose|p: int| 0 <= p < after.len() && #[trigger] after[p].id@ == before[pos].id@;
            let p0 = if p < pos { p } else { p + 1 };
            assert(after[p] == before[p0]);
        }
    } else {
        assert forall|a: int, b: int| 0 <= a < b < after.len() implies after[a].id@ != after[b].id@ by {
            if a != pos && b != pos {
                assert(after[a] == before[a]);
                assert(after[b] == before[b]);
            } else if a == pos {
                assert(after[b] == before[b]);
            } else {
                assert(after[a] == before[a]);
            }
        }
        assert(after[pos].id@ == before[pos].id@);
    }
}

// ---------------------------------------------------------------------------
// When a task next runs.

/// When a task next runs: at a known moment, or a number of seconds from
/// the moment the answer is used.
#[derive(Debug, Clone, Copy, PartialEq, Eq, Structural)]
pub enum NextRun {
    At(Moment),
    FromNow(u64),
}

/// How long, in seconds, a cron task without an upcoming time waits.
pub const CRON_FALLBACK_SECS: u64 = 3600;

/// The latest clock reading, in seconds since the epoch, that the next run
/// of a cron schedule is computed from; far beyond any real clock, and
/// below the last second a date-time can hold.
pub const MAX_CLOCK_SECS: i64 = 8000000000000;

/// Calls `cron::Schedule::after` from `now_secs` (whole seconds since the
/// epoch, as a UTC date-time) and takes its first item, as seconds and
/// nanoseconds since the epoch. Claims that a time it gives is at least a
/// second later than `now_secs`: the cron source starts its search one
/// second after the given time. Which time it is, is not claimed.
#[verifier::external_body]
fn upcoming_run(schedule: &cron::Schedule, now_secs: i64) -> (r: Option<Moment>)
    requires
        0 <= now_secs <= MAX_CLOCK_SECS,
    ensures
        r matches Some(m) ==> m.secs > now_secs,
{
    match chrono::DateTime::from_timestamp(now_secs, 0) {
        Some(now) => match schedule.after(&now).next() {
            Some(dt) => Some(Moment { secs: dt.timestamp(), nanos: dt.timestamp_subsec_nanos() }),
            None => None,
        },
        None => None,
    }
}

/// The next run of a cron task given the schedule's first upcoming time:
/// that time, or an hour from now when the schedule has none.
pub fn cron_next_run(upcoming: Option<Moment>) -> (r: NextRun)
    ensures
        r == match upcoming {
            Some(m) => NextRun::At(m),
            None => NextRun::FromNow(CRON_FALLBACK_SECS),
        },
{
    match upcoming {
        Some(m) => NextRun::At(m),
        None => NextRun::FromNow(CRON_FALLBACK_SECS),
    }
}

/// When a freshly loaded task first runs, reckoned at the clock reading
/// `now_secs`: a one-shot task at its moment, an interval task one interval
/// from now, a cron task at the schedule's next time after `now_secs`
/// (never at or before it), or an hour from now when it has none.
pub fn next_run_at(schedule: &TaskSchedule, now_secs: i64) -> (r: NextRun)
    requires
        0 <= now_secs <= MAX_CLOCK_SECS,
    ensures
        match *schedule {
            TaskSchedule::OneShot(m) => r == NextRun::At(m),
            TaskSchedule::Interval(secs) => r == NextRun::FromNow(
                if secs > MAX_DELTA_SECS { 60 } else { secs },
            ),
            TaskSchedule::Cron(expression) => (r == NextRun::FromNow(CRON_FALLBACK_SECS) || (r matches NextRun::At(
                m,
            ) && m.secs > now_secs)) && (cron_parse_error(expression@) is Some ==> r == NextRun::FromNow(
                CRON_FALLBACK_SECS,
            )),
        },
{
    match schedule {
        TaskSchedule::OneShot(m) => NextRun::At(*m),
        TaskSchedule::Interval(secs) => NextRun::FromNow(interval_delay_secs(*secs)),
        TaskSchedule::Cron(expression) => match parse_cron_expression(expression.as_str()) {
            Ok(sched) => cron_next_run(upcoming_run(&sched, now_secs)),
            Err(_) => NextRun::FromNow(CRON_FALLBACK_SECS),
        },
    }
}

/// When a freshly loaded task first runs, reckoned at the current time:
/// as `next_run_at` says, from the system clock's reading. A cron task's
/// next time is thus after the epoch and after the clock's reading.
pub fn next_run_of(schedule: &TaskSchedule) -> (r: NextRun)
    ensures
        match *schedule {
            TaskSchedule::OneShot(m) => r == NextRun::At(m),
            TaskSchedule::Interval(secs) => r == NextRun::FromNow(
                if secs > MAX_DELTA_SECS { 60 } else { secs },
            ),
            TaskSchedule::Cron(expression) => (r == NextRun::FromNow(CRON_FALLBACK_SECS) || (r matches NextRun::At(
                m,
            ) && m.secs >= 1)) && (cron_parse_error(expression@) is Some ==> r == NextRun::FromNow(
                CRON_FALLBACK_SECS,
            )),
        },
{
    let clock = unix_time_now();
    let now_secs: i64 = if clock > MAX_CLOCK_SECS as u64 {
        MAX_CLOCK_SECS
    } else {
        clock as i64
    };
    next_run_at(schedule, now_secs)
}

/// A cron task rescheduled at a clock reading is not due at that reading:
/// a next time later than `now` is not at or before it, so the task does
/// not fire again at once.
pub proof fn law_rescheduled_cron_task_not_due(next: Moment, now: Moment)
    requires
        next.secs > now.secs,
    ensures
        !moment_le(next, now),
{
}

// ---------------------------------------------------------------------------
// One round of the source's loop.

/// What the source does next with its loaded tasks.
#[derive(Debug, Clone, Copy, PartialEq, Eq, Structural)]
pub enum CronStep {
    /// No tasks: wait `IDLE_SECS` and look again.
    Idle,
    /// The task at this index runs soonest and is not due yet: wait for it,
    /// at most `RELOAD_INTERVAL_SECS`.
    WaitFor(usize),
    /// Some task is due: fire every due task.
    Fire,
}

/// The step the source takes at `now`.
pub fn cron_step(tasks: &Vec<CronTask>, now: Moment) -> (r: CronStep)
    ensures
        tasks@.len() == 0 <==> r == CronStep::Idle,
        r matches CronStep::WaitFor(i) ==> i < tasks@.len() && !moment_le(tasks@[i as int].next_run, now)
            && forall|j: int| 0 <= j < tasks@.len() ==> moment_le(
                tasks@[i as int].next_run,
                #[trigger] tasks@[j].next_run,
            ),
        r == CronStep::Fire <==> exists|j: int| 0 <= j < tasks@.len() && moment_le(#[trigger] tasks@[j].next_run, now),
{
    match earliest_task(tasks) {
        None => CronStep::Idle,
        Some(i) => {
            if moment_not_after(tasks[i].next_run, now) {
                CronStep::Fire
            } else {
                assert forall|j: int| 0 <= j < tasks@.len() implies !moment_le(#[trigger] tasks@[j].next_run, now) by {
                    assert(moment_le(tasks@[i as int].next_run, tasks@[j].next_run));
                }
                CronStep::WaitFor(i)
            }
        },
    }
}

/// What becomes of a task after it fires.
#[derive(Debug, Clone, Copy, PartialEq, Eq, Structural)]
pub enum FireOutcome {
    /// A one-shot task is removed, here and from memory.
    Remove,
    /// A cron task runs next at its schedule's next upcoming time.
    NextCronRun,
    /// An interval task runs again after this many seconds.
    After(u64),
}

/// The longest whole-second span a date-time delta holds: `i64::MAX`
/// milliseconds, rounded down to seconds.
pub const MAX_DELTA_SECS: u64 = 9223372036854775;

/// Calls `chrono::TimeDelta::from_std` on a whole number of seconds;
/// claims that it succeeds exactly when the seconds are at most
/// `MAX_DELTA_SECS`, the whole seconds of `TimeDelta::MAX`, which is the
/// bound its source checks.
#[verifier::external_body]
fn time_delta_holds(secs: u64) -> (r: bool)
    ensures
        r == (secs <= MAX_DELTA_SECS),
{
    chrono::TimeDelta::from_std(std::time::Duration::from_secs(secs)).is_ok()
}

/// The delay an interval task waits: its interval when a date-time delta
/// can hold it, else one minute.
pub fn interval_delay_secs(interval_secs: u64) -> (r: u64)
    ensures
        r == if interval_secs > MAX_DELTA_SECS { 60 } else { interval_secs },
{
    if time_delta_holds(interval_secs) {
        interval_secs
    } else {
        60
    }
}

/// What happens to a task once it has fired.
pub fn after_fire(schedule: &TaskSchedule) -> (r: FireOutcome)
    ensures
        match *schedule {
            TaskSchedule::OneShot(_) => r == FireOutcome::Remove,
            TaskSchedule::Cron(_) => r == FireOutcome::NextCronRun,
            TaskSchedule::Interval(secs) => r == FireOutcome::After(
                if secs > MAX_DELTA_SECS { 60 } else { secs },
            ),
        },
{
    match schedule {
        TaskSchedule::OneShot(_) => FireOutcome::Remove,
        TaskSchedule::Cron(_) => FireOutcome::NextCronRun,
        TaskSchedule::Interval(secs) => FireOutcome::After(interval_delay_secs(*secs)),
    }
}

} // verus!

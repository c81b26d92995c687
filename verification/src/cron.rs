//! Cron scheduler: schedules, jobs, and what each job operation does to the
//! list of jobs.
//!
//! Schedules are written as durations (`30m`, `2h`, `1d`, a one-shot run
//! that far from now), intervals (`every 30m`), five-field cron expressions
//! (`0 9 * * *`) or timestamps (`2026-02-03T14:00:00`). Reading and writing
//! the job file happens outside this crate; the operations here take the
//! loaded jobs and change them.

use vstd::prelude::*;
use crate::text::{
    all_ascii, byte_prefix, can_truncate_bytes, chars_of, clone_opt, clone_strings, decimal,
    first_index, i64_to_decimal, is_whitespace, is_ws, join, lemma_first_index, longer_than_bytes,
    lowercase_of, opt_view, owned, push_str, signed_decimal, str_eq, string_of, take_bytes,
    to_lowercase, trim, trim_str, trim_start, u64_to_decimal, utf8_len, views,
};
use crate::tools::executor::join_strings;

verus! {

/// Schedule kind.
pub enum Schedule {
    /// One-shot scheduled run.
    Once { run_at: String },
    /// Recurring interval in minutes.
    Interval { minutes: i64 },
    /// Cron expression.
    Cron { expr: String },
}

impl Clone for Schedule {
    fn clone(&self) -> (r: Self)
        ensures
            r == *self,
    {
        match self {
            Schedule::Once { run_at } => Schedule::Once { run_at: run_at.clone() },
            Schedule::Interval { minutes } => Schedule::Interval { minutes: *minutes },
            Schedule::Cron { expr } => Schedule::Cron { expr: expr.clone() },
        }
    }
}

/// How a schedule is shown: `once at <time>`, `every <n>d|h|m`, or the
/// cron expression.
pub open spec fn display_spec(s: Schedule) -> Seq<char> {
    match s {
        Schedule::Once { run_at } => "once at "@ + run_at@,
        Schedule::Interval { minutes } => if minutes >= 1440 {
            "every "@ + signed_decimal(minutes as int / 1440int) + "d"@
        } else if minutes >= 60 {
            "every "@ + signed_decimal(minutes as int / 60int) + "h"@
        } else {
            "every "@ + signed_decimal(minutes as int) + "m"@
        },
        Schedule::Cron { expr } => expr@,
    }
}

impl Schedule {
    /// Human-readable form of the schedule.
    pub fn display(&self) -> (r: String)
        ensures
            r@ == display_spec(*self),
    {
        match self {
            Schedule::Once { run_at } => {
                let mut m = owned("once at ");
                push_str(&mut m, run_at.as_str());
                m
            },
            Schedule::Interval { minutes } => {
                let m = *minutes;
                let mut out = owned("every ");
                if m >= 60 * 24 {
                    let d = i64_to_decimal(m / (60 * 24));
                    push_str(&mut out, d.as_str());
                    push_str(&mut out, "d");
                } else if m >= 60 {
                    let d = i64_to_decimal(m / 60);
                    push_str(&mut out, d.as_str());
                    push_str(&mut out, "h");
                } else {
                    let d = i64_to_decimal(m);
                    push_str(&mut out, d.as_str());
                    push_str(&mut out, "m");
                }
                out
            },
            Schedule::Cron { expr } => expr.clone(),
        }
    }
}

/// State of a cron job.
#[derive(Clone, Copy, Debug, PartialEq, Eq, Structural)]
pub enum JobState {
    Scheduled,
    Paused,
    Running,
    Completed,
}

/// Name of a job state as `{:?}` shows it.
pub open spec fn state_name(s: JobState) -> Seq<char> {
    match s {
        JobState::Scheduled => "Scheduled"@,
        JobState::Paused => "Paused"@,
        JobState::Running => "Running"@,
        JobState::Completed => "Completed"@,
    }
}

impl JobState {
    /// Name of the state as `{:?}` shows it.
    pub fn name(&self) -> (r: &'static str)
        ensures
            r@ == state_name(*self),
    {
        match self {
            JobState::Scheduled => "Scheduled",
            JobState::Paused => "Paused",
            JobState::Running => "Running",
            JobState::Completed => "Completed",
        }
    }
}

// ---------------------------------------------------------------------------
// Durations
// ---------------------------------------------------------------------------

/// ASCII decimal digit.
pub open spec fn is_digit(c: char) -> bool {
    '0' <= c && c <= '9'
}

/// Number of leading ASCII digits of `s`.
pub open spec fn leading_digits(s: Seq<char>) -> nat
    decreases s.len(),
{
    if s.len() > 0 && is_digit(s[0]) {
        1 + leading_digits(s.drop_first())
    } else {
        0
    }
}

/// Value of a string of ASCII digits.
pub open spec fn digits_value(s: Seq<char>) -> nat
    decreases s.len(),
{
    if s.len() == 0 {
        0
    } else {
        digits_value(s.drop_last()) * 10 + (((s.last() as u32) - 48) as nat)
    }
}

/// Units that the duration syntax names.
pub open spec fn is_duration_unit(u: Seq<char>) -> bool {
    u == "m"@ || u == "min"@ || u == "mins"@ || u == "h"@ || u == "hr"@ || u == "hrs"@ || u == "d"@
        || u == "day"@ || u == "days"@
}

/// Minutes in one unit.
pub open spec fn unit_minutes(u: char) -> int {
    if u == 'h' {
        60
    } else if u == 'd' {
        1440
    } else {
        1
    }
}

/// What `parse_duration` decides for `s`: its value and minutes per unit,
/// or the message. The text is trimmed and lowercased first; it must be
/// digits, optional whitespace and a unit. Only the one-letter units `m`,
/// `h`, `d` are taken; a value past `i64` is refused.
pub open spec fn duration_parts(s: Seq<char>) -> Result<(int, int), Seq<char>> {
    let t = lowercase_of(trim(s));
    let k = leading_digits(t);
    let unit = trim_start(t.subrange(k as int, t.len() as int));
    if k == 0 || !is_duration_unit(unit) {
        Err("Invalid duration: '"@ + t + "'. Use format like '30m', '2h', or '1d'"@)
    } else if digits_value(t.subrange(0, k as int)) > i64::MAX {
        Err("Invalid duration value in '"@ + t + "'"@)
    } else if unit.len() != 1 {
        Err("Invalid duration unit in '"@ + t + "'"@)
    } else {
        Ok((digits_value(t.subrange(0, k as int)) as int, unit_minutes(unit[0])))
    }
}

/// The duration in minutes fits in an `i64`.
pub open spec fn duration_fits(s: Seq<char>) -> bool {
    duration_parts(s) matches Ok((v, m)) ==> v * m <= i64::MAX
}

/// Minutes of a duration, or the message it is refused with.
pub open spec fn duration_minutes(s: Seq<char>) -> Result<int, Seq<char>> {
    match duration_parts(s) {
        Ok((v, m)) => Ok(v * m),
        Err(e) => Err(e),
    }
}

proof fn lemma_leading_digits(s: Seq<char>, i: int)
    requires
        0 <= i <= s.len(),
        forall|j: int| 0 <= j < i ==> is_digit(s[j]),
        i == s.len() || !is_digit(s[i]),
    ensures
        leading_digits(s) == i,
    decreases i,
{
    if i > 0 {
        assert forall|j: int| 0 <= j < i - 1 implies is_digit(s.drop_first()[j]) by {
            assert(s.drop_first()[j] == s[j + 1]);
        }
        if i < s.len() {
            assert(s.drop_first()[i - 1] == s[i]);
        }
        lemma_leading_digits(s.drop_first(), i - 1);
    }
}

fn is_unit(u: &str) -> (b: bool)
    ensures
        b == is_duration_unit(u@),
{
    str_eq(u, "m") || str_eq(u, "min") || str_eq(u, "mins") || str_eq(u, "h") || str_eq(u, "hr")
        || str_eq(u, "hrs") || str_eq(u, "d") || str_eq(u, "day") || str_eq(u, "days")
}

/// The value of a duration and the minutes of its unit, or the message.
fn duration_parts_of(s: &str) -> (r: Result<(i64, i64), String>)
    ensures
        match r {
            Ok((v, m)) => duration_parts(s@) == Ok::<(int, int), Seq<char>>((v as int, m as int)) && v >= 0
                && 1 <= m <= 1440,
            Err(e) => duration_parts(s@) == Err::<(int, int), Seq<char>>(e@),
        },
{
    let tr = trim_str(s);
    let t = to_lowercase(tr.as_str());
    let tv = chars_of(t.as_str());
    let mut k: usize = 0;
    while k < tv.len() && '0' <= tv[k] && tv[k] <= '9'
        invariant
            k <= tv.len(),
            forall|j: int| 0 <= j < k ==> is_digit(tv@[j]),
        decreases tv.len() - k,
    {
        k = k + 1;
    }
    proof {
        lemma_leading_digits(tv@, k as int);
    }
    let mut rest: Vec<char> = Vec::new();
    let mut i = k;
    while i < tv.len()
        invariant
            k <= i <= tv.len(),
            rest@ == tv@.subrange(k as int, i as int),
        decreases tv.len() - i,
    {
        rest.push(tv[i]);
        i = i + 1;
    }
    let mut j: usize = 0;
    assert(rest@.subrange(0, rest@.len() as int) =~= rest@);
    while j < rest.len() && is_whitespace(rest[j])
        invariant
            j <= rest.len(),
            trim_start(rest@) == trim_start(rest@.subrange(j as int, rest@.len() as int)),
        decreases rest.len() - j,
    {
        proof {
            let a = rest@.subrange(j as int, rest@.len() as int);
            assert(a.drop_first() =~= rest@.subrange(j + 1, rest@.len() as int));
        }
        j = j + 1;
    }
    let mut unit: Vec<char> = Vec::new();
    let mut u = j;
    while u < rest.len()
        invariant
            j <= u <= rest.len(),
            unit@ == rest@.subrange(j as int, u as int),
        decreases rest.len() - u,
    {
        unit.push(rest[u]);
        u = u + 1;
    }
    proof {
        let a = rest@.subrange(j as int, rest@.len() as int);
        assert(unit@ =~= a);
        if a.len() > 0 {
            assert(!is_ws(a[0]));
        }
        assert(trim_start(a) == a);
        assert(rest@ =~= tv@.subrange(k as int, tv@.len() as int));
    }
    let unit_s = string_of(unit.as_slice());
    if k == 0 || !is_unit(unit_s.as_str()) {
        let mut m = owned("Invalid duration: '");
        push_str(&mut m, t.as_str());
        push_str(&mut m, "'. Use format like '30m', '2h', or '1d'");
        return Err(m);
    }
    let mut value: i64 = 0;
    let mut d: usize = 0;
    let mut overflow = false;
    while d < k
        invariant
            d <= k <= tv.len(),
            forall|x: int| 0 <= x < k ==> is_digit(tv@[x]),
            !overflow ==> value == digits_value(tv@.subrange(0, d as int)),
            !overflow ==> value >= 0,
            overflow ==> digits_value(tv@.subrange(0, k as int)) > i64::MAX,
        decreases k - d,
    {
        if !overflow {
            let dig = (tv[d] as u32 - 48) as i64;
            proof {
                assert(tv@.subrange(0, d + 1).drop_last() =~= tv@.subrange(0, d as int));
                assert(tv@.subrange(0, d + 1).last() == tv@[d as int]);
            }
            if value > (i64::MAX - dig) / 10 {
                overflow = true;
                proof {
                    lemma_digits_value_mono(tv@.subrange(0, k as int), d + 1);
                    assert(tv@.subrange(0, k as int).subrange(0, d + 1) =~= tv@.subrange(0, d + 1));
                }
            } else {
                value = value * 10 + dig;
            }
        }
        d = d + 1;
    }
    if overflow {
        let mut m = owned("Invalid duration value in '");
        push_str(&mut m, t.as_str());
        push_str(&mut m, "'");
        return Err(m);
    }
    if unit.len() != 1 {
        let mut m = owned("Invalid duration unit in '");
        push_str(&mut m, t.as_str());
        push_str(&mut m, "'");
        return Err(m);
    }
    let mult: i64 = if unit[0] == 'h' {
        60
    } else if unit[0] == 'd' {
        60 * 24
    } else {
        1
    };
    Ok((value, mult))
}

/// Parses a duration such as `30m`, `2h` or `1d` into minutes.
pub fn parse_duration(s: &str) -> (r: Result<i64, String>)
    requires
        duration_fits(s@),
    ensures
        match r {
            Ok(m) => duration_minutes(s@) == Ok::<int, Seq<char>>(m as int),
            Err(e) => duration_minutes(s@) == Err::<int, Seq<char>>(e@),
        },
{
    match duration_parts_of(s) {
        Ok((value, mult)) => {
            proof {
                assert(value * mult <= i64::MAX);
                assert(value * mult >= 0) by (nonlinear_arith)
                    requires
                        value >= 0,
                        mult >= 1,
                ;
            }
            Ok(value * mult)
        },
        Err(e) => Err(e),
    }
}

/// Whether the minutes of duration `s` fit in an `i64` and, when
/// `bounded`, stay within the clock's range.
fn duration_within(s: &str, bounded: bool) -> (b: bool)
    ensures
        b == (duration_fits(s@) && (bounded ==> (duration_minutes(s@) matches Ok(m) ==> m
            <= max_delay_minutes()))),
{
    match duration_parts_of(s) {
        Ok((value, mult)) => {
            if value > i64::MAX / mult {
                proof {
                    assert(value * mult > i64::MAX) by (nonlinear_arith)
                        requires
                            value > i64::MAX / mult,
                            mult >= 1,
                    ;
                }
                false
            } else {
                proof {
                    assert(value * mult <= i64::MAX) by (nonlinear_arith)
                        requires
                            value <= i64::MAX / mult,
                            mult >= 1,
                    ;
                }
                !bounded || value * mult <= 100_000_000_000
            }
        },
        Err(_) => true,
    }
}

/// Whether `input` is a schedule that `parse_schedule` can take: its
/// durations fit in an `i64` and a delay stays within the clock's range.
pub fn schedule_fits(input: &str) -> (b: bool)
    ensures
        b == schedule_in_range(input@),
{
    let tr = trim_str(input);
    let t = to_lowercase(tr.as_str());
    if crate::text::str_starts_with(t.as_str(), "every ") {
        let rest = strip_every(t.as_str());
        let d = trim_str(rest.as_str());
        duration_within(d.as_str(), true)
    } else {
        let d = strip_plus(t.as_str());
        duration_within(t.as_str(), true) && duration_within(d.as_str(), true)
    }
}

/// A duration is never negative.
proof fn lemma_duration_nonneg(s: Seq<char>)
    ensures
        duration_minutes(s) matches Ok(m) ==> m >= 0,
{
    if let Ok((v, u)) = duration_parts(s) {
        assert(v >= 0 && u >= 1);
        assert(v * u >= 0) by (nonlinear_arith)
            requires
                v >= 0,
                u >= 1,
        ;
    }
}

/// A longer digit prefix has at least the value of a shorter one.
pub proof fn lemma_digits_value_mono(s: Seq<char>, i: int)
    requires
        0 <= i <= s.len(),
        forall|x: int| 0 <= x < s.len() ==> is_digit(s[x]),
    ensures
        digits_value(s.subrange(0, i)) <= digits_value(s),
    decreases s.len() - i,
{
    if i < s.len() {
        lemma_digits_value_mono(s, i + 1);
        assert(s.subrange(0, i + 1).drop_last() =~= s.subrange(0, i));
    } else {
        assert(s.subrange(0, i) =~= s);
    }
}


// ---------------------------------------------------------------------------
// Schedules
// ---------------------------------------------------------------------------

/// Words of `s` split at whitespace runs (`str::split_whitespace`), state
/// after the first `n` characters: the words so far and the current one.
pub open spec fn ws_split_prefix(s: Seq<char>, n: int) -> (Seq<Seq<char>>, Seq<char>)
    decreases n,
{
    if n <= 0 {
        (Seq::empty(), Seq::empty())
    } else {
        let (ws, cur) = ws_split_prefix(s, n - 1);
        if is_ws(s[n - 1]) {
            if cur.len() > 0 {
                (ws.push(cur), Seq::empty())
            } else {
                (ws, cur)
            }
        } else {
            (ws, cur.push(s[n - 1]))
        }
    }
}

/// Words of `s` (`str::split_whitespace`).
pub open spec fn ws_words(s: Seq<char>) -> Seq<Seq<char>> {
    let (ws, cur) = ws_split_prefix(s, s.len() as int);
    if cur.len() > 0 {
        ws.push(cur)
    } else {
        ws
    }
}

/// The words of `s`, split at whitespace.
pub fn split_whitespace(s: &str) -> (r: Vec<String>)
    ensures
        views(r@) == ws_words(s@),
{
    let v = chars_of(s);
    let mut ws: Vec<String> = Vec::new();
    let mut cur: Vec<char> = Vec::new();
    let mut i: usize = 0;
    while i < v.len()
        invariant
            v@ == s@,
            i <= v.len(),
            views(ws@) == ws_split_prefix(s@, i as int).0,
            cur@ == ws_split_prefix(s@, i as int).1,
        decreases v.len() - i,
    {
        if is_whitespace(v[i]) {
            if cur.len() > 0 {
                let w = string_of(cur.as_slice());
                let ghost before = ws@;
                ws.push(w);
                assert(views(ws@) =~= views(before).push(cur@));
                cur = Vec::new();
            }
        } else {
            cur.push(v[i]);
        }
        i = i + 1;
    }
    if cur.len() > 0 {
        let w = string_of(cur.as_slice());
        let ghost before = ws@;
        ws.push(w);
        assert(views(ws@) =~= views(before).push(cur@));
    }
    ws
}

/// `s` with every leading copy of `p` removed (`str::trim_start_matches`).
pub open spec fn strip_prefix_all(s: Seq<char>, p: Seq<char>) -> Seq<char>
    decreases s.len(),
{
    if p.len() > 0 && crate::text::starts_with(s, p) {
        strip_prefix_all(s.subrange(p.len() as int, s.len() as int), p)
    } else {
        s
    }
}

fn strip_every(s: &str) -> (r: String)
    ensures
        r@ == strip_prefix_all(s@, "every "@),
{
    proof {
        reveal_strlit("every ");
    }
    let v = chars_of(s);
    let p = chars_of("every ");
    let mut i: usize = 0;
    assert(v@.subrange(0, v@.len() as int) =~= v@);
    while crate::text::match_at(v.as_slice(), p.as_slice(), i)
        invariant
            i <= v.len(),
            p@ == "every "@,
            p@.len() == 6,
            strip_prefix_all(s@, "every "@) == strip_prefix_all(
                v@.subrange(i as int, v@.len() as int),
                "every "@,
            ),
            v@ == s@,
        decreases v.len() - i,
    {
        proof {
            let t = v@.subrange(i as int, v@.len() as int);
            assert(t.subrange(0, p@.len() as int) =~= v@.subrange(i as int, i + p@.len()));
            assert(t.subrange(p@.len() as int, t.len() as int) =~= v@.subrange(
                i + p@.len(),
                v@.len() as int,
            ));
        }
        i = i + p.len();
    }
    proof {
        let t = v@.subrange(i as int, v@.len() as int);
        if p@.len() <= t.len() {
            assert(t.subrange(0, p@.len() as int) =~= v@.subrange(i as int, i + p@.len()));
        }
    }
    let mut out: Vec<char> = Vec::new();
    let mut j = i;
    while j < v.len()
        invariant
            i <= j <= v.len(),
            out@ == v@.subrange(i as int, j as int),
        decreases v.len() - j,
    {
        out.push(v[j]);
        j = j + 1;
    }
    string_of(out.as_slice())
}

/// A character of a cron field: a digit, `*`, `-`, `,` or `/`.
pub open spec fn is_cron_char(c: char) -> bool {
    is_digit(c) || c == '*' || c == '-' || c == ',' || c == '/'
}

/// The first five words look like a cron expression.
pub open spec fn looks_like_cron(parts: Seq<Seq<char>>) -> bool {
    parts.len() >= 5 && forall|i: int, j: int|
        0 <= i < parts.len() && 0 <= j < parts[i].len() ==> is_cron_char(parts[i][j])
}

/// What the schedule text asks for, before any clock is read.
pub enum PlanSpec {
    /// `every <duration>`: recurring, with the minutes or the duration's error.
    Every(Result<int, Seq<char>>),
    /// A cron expression of five fields.
    CronExpr(Seq<char>),
    /// A timestamp to try, lowercased and as written; if it does not parse,
    /// the duration fallback.
    Timestamp(Seq<char>, Seq<char>, Result<int, Seq<char>>),
    /// A delay from now, or the duration's error.
    Delay(Result<int, Seq<char>>),
}

/// The text that a schedule is read from: trimmed, then lowercased.
pub open spec fn schedule_text(input: Seq<char>) -> Seq<char> {
    lowercase_of(trim(input))
}

/// The duration text of an `every` schedule.
pub open spec fn every_text(t: Seq<char>) -> Seq<char> {
    trim(strip_prefix_all(t, "every "@))
}

/// What `parse_schedule` makes of `input`.
pub open spec fn plan_spec(input: Seq<char>) -> PlanSpec {
    let t = schedule_text(input);
    if crate::text::starts_with(t, "every "@) {
        PlanSpec::Every(duration_minutes(every_text(t)))
    } else if looks_like_cron(ws_words(t)) {
        PlanSpec::CronExpr(join(ws_words(t).subrange(0, 5), " "@))
    } else if crate::text::contains_seq(t, "t"@) || (t.len() > 0 && is_digit(t[0])) {
        PlanSpec::Timestamp(t, trim(input), duration_minutes(t))
    } else {
        PlanSpec::Delay(duration_minutes(delay_text(t)))
    }
}

/// The duration of a delay: the text without a leading `+` (`+1h`).
pub open spec fn delay_text(t: Seq<char>) -> Seq<char> {
    if t.len() > 0 && t[0] == '+' {
        t.subrange(1, t.len() as int)
    } else {
        t
    }
}

/// The local date-time formats a timestamp without a zone may have: with
/// and without seconds.
pub open spec fn naive_formats() -> Seq<Seq<char>> {
    seq!["%Y-%m-%dT%H:%M:%S"@, "%Y-%m-%dT%H:%M"@]
}

/// `s` reads as a date and time in format `fmt`
/// (`NaiveDateTime::parse_from_str` succeeds).
pub uninterp spec fn naive_parses(s: Seq<char>, fmt: Seq<char>) -> bool;

/// `r` is what parsing `input` as a schedule may give. An interval, a cron
/// expression and every error are fixed by the text; a one-shot time read
/// from a zoned timestamp is that timestamp re-printed; other one-shot times
/// come from the clock or the machine's time zone.
pub open spec fn parsed_as(input: Seq<char>, r: Result<Schedule, String>) -> bool {
    match plan_spec(input) {
        PlanSpec::Every(Ok(m)) => r matches Ok(Schedule::Interval { minutes }) && minutes == m,
        PlanSpec::Every(Err(e)) => r matches Err(x) && x@ == e,
        PlanSpec::CronExpr(e) => r matches Ok(Schedule::Cron { expr }) && expr@ == e,
        PlanSpec::Timestamp(t, written, fallback) => match rfc3339_normalized(t) {
            Some(n) => r matches Ok(Schedule::Once { run_at }) && run_at@ == n,
            None => if naive_parses(written, naive_formats()[0]) || naive_parses(written, naive_formats()[1]) {
                r matches Ok(Schedule::Once { .. })
            } else {
                match fallback {
                    Ok(_) => r matches Ok(Schedule::Once { .. }),
                    Err(e) => r matches Err(x) && x@ == e,
                }
            },
        },
        PlanSpec::Delay(Ok(_)) => r matches Ok(Schedule::Once { .. }),
        PlanSpec::Delay(Err(e)) => r matches Err(x) && x@ == e,
    }
}

/// Largest delay, in minutes, that the clock can add to now.
pub open spec fn max_delay_minutes() -> int {
    100_000_000_000
}

/// The durations in `input` fit in an `i64`, and a delay from now stays
/// within the clock's range.
pub open spec fn schedule_in_range(input: Seq<char>) -> bool {
    let t = schedule_text(input);
    if crate::text::starts_with(t, "every "@) {
        duration_fits(every_text(t)) && (duration_minutes(every_text(t)) matches Ok(m) ==> m
            <= max_delay_minutes())
    } else {
        duration_fits(t) && (duration_minutes(t) matches Ok(m) ==> m <= max_delay_minutes())
            && duration_fits(delay_text(t)) && (duration_minutes(delay_text(t)) matches Ok(m) ==> m
            <= max_delay_minutes())
    }
}

/// `run_at` as RFC 3339 text re-printed by `chrono` after parsing, if it
/// parses.
pub uninterp spec fn rfc3339_normalized(s: Seq<char>) -> Option<Seq<char>>;

/// `DateTime::parse_from_rfc3339` followed by `to_rfc3339`.
#[verifier::external_body]
fn reformat_rfc3339(s: &str) -> (r: Option<String>)
    ensures
        opt_view(r) == rfc3339_normalized(s@),
{
    chrono::DateTime::parse_from_rfc3339(s).ok().map(|dt| dt.to_rfc3339())
}

/// A date and time without a zone.
#[verifier::external_type_specification]
#[verifier::external_body]
pub struct ExNaiveDateTime(chrono::NaiveDateTime);

/// `NaiveDateTime::parse_from_str(s, fmt)`: the date and time that `s`
/// reads as in format `fmt`, if it does.
#[verifier::external_body]
fn parse_naive(s: &str, fmt: &str) -> (r: Option<chrono::NaiveDateTime>)
    ensures
        r is Some <==> naive_parses(s@, fmt@),
{
    chrono::NaiveDateTime::parse_from_str(s, fmt).ok()
}

/// `dt` in the machine's time zone (the earlier of two readings when the
/// clock was set back), printed as RFC 3339; `None` when the clock skipped
/// that time. The result depends on the time zone, so nothing is stated.
#[verifier::external_body]
fn local_earliest_rfc3339(dt: chrono::NaiveDateTime) -> (r: Option<String>)
{
    dt.and_local_timezone(chrono::Local).earliest().map(|l| l.to_rfc3339())
}

/// `dt` read as UTC and printed as RFC 3339.
#[verifier::external_body]
fn utc_rfc3339(dt: chrono::NaiveDateTime) -> (r: String)
{
    dt.and_utc().to_rfc3339()
}

/// The local time `minutes` from now, as RFC 3339; it depends on the clock.
#[verifier::external_body]
fn now_plus_minutes(minutes: i64) -> (r: String)
    requires
        -max_delay_minutes() <= minutes <= max_delay_minutes(),
{
    (chrono::Local::now() + chrono::Duration::minutes(minutes)).to_rfc3339()
}

/// The local time now, as RFC 3339.
#[verifier::external_body]
pub fn now_iso() -> (r: String)
{
    chrono::Local::now().to_rfc3339()
}

/// Minutes of a duration, with its error.
fn duration_or_error(d: &str) -> (r: Result<i64, String>)
    requires
        duration_fits(d@),
    ensures
        match r {
            Ok(m) => duration_minutes(d@) == Ok::<int, Seq<char>>(m as int),
            Err(e) => duration_minutes(d@) == Err::<int, Seq<char>>(e@),
        },
{
    parse_duration(d)
}

fn cron_chars_only(parts: &Vec<String>) -> (b: bool)
    ensures
        b == (forall|i: int, j: int|
            0 <= i < parts@.len() && 0 <= j < parts@[i]@.len() ==> is_cron_char(parts@[i]@[j])),
{
    let mut i: usize = 0;
    while i < parts.len()
        invariant
            i <= parts@.len(),
            forall|a: int, b: int|
                0 <= a < i && 0 <= b < parts@[a]@.len() ==> is_cron_char(parts@[a]@[b]),
        decreases parts.len() - i,
    {
        let v = chars_of(parts[i].as_str());
        let mut j: usize = 0;
        while j < v.len()
            invariant
                i < parts@.len(),
                j <= v.len(),
                v@ == parts@[i as int]@,
                forall|b: int| 0 <= b < j ==> is_cron_char(v@[b]),
            decreases v.len() - j,
        {
            let c = v[j];
            if !(('0' <= c && c <= '9') || c == '*' || c == '-' || c == ',' || c == '/') {
                assert(!is_cron_char(parts@[i as int]@[j as int]));
                return false;
            }
            j = j + 1;
        }
        assert forall|a: int, b: int|
            0 <= a < i + 1 && 0 <= b < parts@[a]@.len() implies is_cron_char(parts@[a]@[b]) by {
            if a == i {
                assert(v@[b] == parts@[a]@[b]);
            }
        }
        i = i + 1;
    }
    true
}

/// The text of a delay without its leading `+`.
fn strip_plus(t: &str) -> (r: String)
    ensures
        r@ == delay_text(t@),
{
    let v = chars_of(t);
    if v.len() > 0 && v[0] == '+' {
        let mut out: Vec<char> = Vec::new();
        let mut j: usize = 1;
        while j < v.len()
            invariant
                1 <= j <= v.len(),
                out@ == v@.subrange(1, j as int),
            decreases v.len() - j,
        {
            out.push(v[j]);
            j = j + 1;
        }
        string_of(out.as_slice())
    } else {
        owned(t)
    }
}

/// Parses a schedule: `every <duration>` becomes an interval, five cron
/// fields a cron expression, a timestamp (RFC 3339, or a local
/// `2026-02-03T14:00` with or without seconds) a one-shot run at that time,
/// and a duration, with or without a leading `+`, a one-shot run that long
/// from now.
pub fn parse_schedule(input: &str) -> (r: Result<Schedule, String>)
    requires
        schedule_in_range(input@),
    ensures
        parsed_as(input@, r),
        r matches Ok(s) ==> schedule_in_clock_range(s),
{
    let tr = trim_str(input);
    let t = to_lowercase(tr.as_str());
    if crate::text::str_starts_with(t.as_str(), "every ") {
        let rest = strip_every(t.as_str());
        let d = trim_str(rest.as_str());
        proof {
            lemma_duration_nonneg(d@);
        }
        return match duration_or_error(d.as_str()) {
            Ok(m) => Ok(Schedule::Interval { minutes: m }),
            Err(e) => Err(e),
        };
    }
    let parts = split_whitespace(t.as_str());
    let is_cron = parts.len() >= 5 && cron_chars_only(&parts);
    proof {
        let w = ws_words(t@);
        assert(w.len() == parts@.len());
        assert forall|i: int| 0 <= i < w.len() implies w[i] == parts@[i]@ by {}
        if is_cron {
            assert forall|i: int, j: int| 0 <= i < w.len() && 0 <= j < w[i].len() implies is_cron_char(
                w[i][j],
            ) by {
                assert(w[i] == parts@[i]@);
            }
        } else if parts@.len() >= 5 {
            let (i, j) = choose|i: int, j: int|
                0 <= i < parts@.len() && 0 <= j < parts@[i]@.len() && !is_cron_char(parts@[i]@[j]);
            assert(w[i] == parts@[i]@);
            assert(!is_cron_char(w[i][j]));
        }
        assert(is_cron == looks_like_cron(w));
    }
    if is_cron {
        let mut first: Vec<String> = Vec::new();
        let mut i: usize = 0;
        while i < 5
            invariant
                i <= 5 <= parts@.len(),
                views(first@) == views(parts@).subrange(0, i as int),
            decreases 5 - i,
        {
            let ghost before = first@;
            first.push(parts[i].clone());
            assert(views(first@) =~= views(before).push(parts@[i as int]@));
            i = i + 1;
        }
        let expr = join_strings(first.as_slice(), " ");
        return Ok(Schedule::Cron { expr });
    }
    let tv = chars_of(t.as_str());
    let small_t = ['t'];
    proof {
        reveal_strlit("t");
        assert(small_t@ =~= "t"@);
    }
    if crate::text::contains_chars(tv.as_slice(), small_t.as_slice()) || (tv.len() > 0 && '0' <= tv[0]
        && tv[0] <= '9') {
        match reformat_rfc3339(t.as_str()) {
            Some(n) => {
                return Ok(Schedule::Once { run_at: n });
            },
            None => {},
        }
        proof {
            reveal_strlit("%Y-%m-%dT%H:%M:%S");
            reveal_strlit("%Y-%m-%dT%H:%M");
        }
        let mut naive = parse_naive(tr.as_str(), "%Y-%m-%dT%H:%M:%S");
        if naive.is_none() {
            naive = parse_naive(tr.as_str(), "%Y-%m-%dT%H:%M");
        }
        match naive {
            Some(dt) => {
                let run_at = match local_earliest_rfc3339(dt) {
                    Some(n) => n,
                    None => utc_rfc3339(dt),
                };
                return Ok(Schedule::Once { run_at });
            },
            None => {},
        }
        match duration_or_error(t.as_str()) {
            Ok(m) => {
                return Ok(Schedule::Once { run_at: now_plus_minutes(m) });
            },
            Err(e) => {
                return Err(e);
            },
        }
    }
    let d = strip_plus(t.as_str());
    match duration_or_error(d.as_str()) {
        Ok(m) => Ok(Schedule::Once { run_at: now_plus_minutes(m) }),
        Err(e) => Err(e),
    }
}


// ---------------------------------------------------------------------------
// Clock
// ---------------------------------------------------------------------------

/// The instant that an RFC 3339 timestamp names, as seconds since the Unix
/// epoch and the nanoseconds past that second, if the text parses.
pub uninterp spec fn rfc3339_instant_of(s: Seq<char>) -> Option<(int, int)>;

/// `DateTime::parse_from_rfc3339`, then `timestamp` and
/// `timestamp_subsec_nanos` of the result.
#[verifier::external_body]
fn rfc3339_instant(s: &str) -> (r: Option<(i64, u32)>)
    ensures
        match r {
            Some((secs, nanos)) => rfc3339_instant_of(s@) == Some((secs as int, nanos as int)),
            None => rfc3339_instant_of(s@) is None,
        },
{
    chrono::DateTime::parse_from_rfc3339(s).ok().map(|dt| (dt.timestamp(), dt.timestamp_subsec_nanos()))
}

/// The clock now, as seconds since the Unix epoch and nanoseconds past them.
#[verifier::external_body]
fn now_instant() -> (r: (i64, u32))
{
    let now = chrono::Local::now();
    (now.timestamp(), now.timestamp_subsec_nanos())
}

/// An RFC 3339 timestamp re-printed in the machine's time zone; `None` when
/// it does not parse. Nothing is stated of the text: it depends on the time
/// zone, and the printed offset drops the seconds of an offset that has them.
#[verifier::external_body]
fn local_rfc3339(s: &str) -> (r: Option<String>)
    ensures
        r is Some <==> rfc3339_instant_of(s@) is Some,
{
    chrono::DateTime::parse_from_rfc3339(s).ok().map(
        |dt| dt.with_timezone(&chrono::Local).to_rfc3339(),
    )
}

/// An RFC 3339 timestamp plus `minutes`, printed in the machine's time zone;
/// `None` when it does not parse. Nothing is stated of the text: it depends
/// on the time zone, whose offset is printed to whole minutes. A parsed year
/// has four digits, so the sum stays within the calendar's range for the
/// minutes that `requires` admits.
#[verifier::external_body]
fn local_plus_minutes(base: &str, minutes: i64) -> (r: Option<String>)
    requires
        -max_delay_minutes() <= minutes <= max_delay_minutes(),
    ensures
        r is Some <==> rfc3339_instant_of(base@) is Some,
{
    chrono::DateTime::parse_from_rfc3339(base).ok().map(
        |dt| (dt.with_timezone(&chrono::Local) + chrono::Duration::minutes(minutes)).to_rfc3339(),
    )
}

/// Instant `a` comes strictly after instant `b`.
pub open spec fn later(a: (int, int), b: (int, int)) -> bool {
    a.0 > b.0 || (a.0 == b.0 && a.1 > b.1)
}

/// What holds of the next run time whatever the clock reads: a one-shot
/// schedule whose time does not parse has none, and every other schedule
/// has one.
pub open spec fn next_run_ok(s: Schedule, r: Option<String>) -> bool {
    match s {
        Schedule::Once { run_at } => rfc3339_instant_of(run_at@) is None ==> r is None,
        _ => r is Some,
    }
}

/// Interval minutes the clock can add.
pub open spec fn schedule_in_clock_range(s: Schedule) -> bool {
    s matches Schedule::Interval { minutes } ==> -max_delay_minutes() <= minutes
        <= max_delay_minutes()
}

/// The one-shot time `run_at` parses and is still ahead of the clock
/// reading `now` (seconds since the epoch, nanoseconds past them).
pub open spec fn once_ahead(run_at: Seq<char>, now: (int, int)) -> bool {
    rfc3339_instant_of(run_at) matches Some(i) && later(i, now)
}

/// The next run of a one-shot job whose time is `run_at`, the clock reading
/// `now_secs` seconds and `now_nanos` nanoseconds: the time, re-printed in
/// the machine's time zone, while it is still ahead; none once it has
/// passed or when it does not parse.
pub fn once_next_run(run_at: &str, now_secs: i64, now_nanos: u32) -> (r: Option<String>)
    ensures
        r is Some <==> once_ahead(run_at@, (now_secs as int, now_nanos as int)),
{
    match rfc3339_instant(run_at) {
        Some((secs, nanos)) => {
            if secs > now_secs || (secs == now_secs && nanos > now_nanos) {
                local_rfc3339(run_at)
            } else {
                None
            }
        },
        None => None,
    }
}

/// A one-shot job has a next run exactly while its time is ahead of the
/// clock: for a time that names the instant `i`, a reading `now` gives a
/// run iff `i` comes strictly after `now`; the instant itself and every
/// later reading give none, and a reading after which a run is given also
/// gives one at every earlier reading. A time that does not parse never
/// gives a run.
pub proof fn lemma_once_next_run(run_at: Seq<char>, now: (int, int), earlier: (int, int))
    ensures
        rfc3339_instant_of(run_at) matches Some(i) ==> (once_ahead(run_at, now) <==> (i.0 > now.0 || (
        i.0 == now.0 && i.1 > now.1))),
        rfc3339_instant_of(run_at) matches Some(i) ==> !once_ahead(run_at, i),
        rfc3339_instant_of(run_at) is None ==> !once_ahead(run_at, now),
        once_ahead(run_at, now) && (earlier.0 < now.0 || (earlier.0 == now.0 && earlier.1 <= now.1))
            ==> once_ahead(run_at, earlier),
{
}

/// The next run of a schedule: a one-shot time if it is still ahead, an
/// interval after the last run (or after now), and for a cron expression an
/// hour from now.
fn compute_next_run(schedule: &Schedule, last_run_at: Option<&str>) -> (r: Option<String>)
    requires
        schedule_in_clock_range(*schedule),
    ensures
        next_run_ok(*schedule, r),
        schedule matches Schedule::Once { run_at } ==> exists|now: (int, int)|
            (r is Some <==> #[trigger] once_ahead(run_at@, now)),
{
    match schedule {
        Schedule::Once { run_at } => {
            let (now_secs, now_nanos) = now_instant();
            let r = once_next_run(run_at.as_str(), now_secs, now_nanos);
            assert(r is Some <==> once_ahead(run_at@, (now_secs as int, now_nanos as int)));
            r
        },
        Schedule::Interval { minutes } => {
            let next = match last_run_at {
                Some(last) => match local_plus_minutes(last, *minutes) {
                    Some(t) => t,
                    None => now_plus_minutes(*minutes),
                },
                None => now_plus_minutes(*minutes),
            };
            Some(next)
        },
        Schedule::Cron { .. } => Some(now_plus_minutes(60)),
    }
}

/// A fresh random (version 4) UUID in its hyphenated form: 36 ASCII
/// characters.
#[verifier::external_body]
pub(crate) fn new_uuid_v4() -> (r: String)
    ensures
        r@.len() == 36,
        all_ascii(r@),
{
    uuid::Uuid::new_v4().to_string()
}

// ---------------------------------------------------------------------------
// Jobs
// ---------------------------------------------------------------------------

/// A cron job.
pub struct CronJob {
    pub id: String,
    pub name: String,
    pub prompt: String,
    pub skills: Vec<String>,
    pub model: Option<String>,
    pub provider: Option<String>,
    pub base_url: Option<String>,
    pub schedule: Schedule,
    pub schedule_display: String,
    pub repeat_times: Option<i32>,
    pub repeat_completed: i32,
    pub enabled: bool,
    pub state: JobState,
    pub deliver: String,
    pub created_at: String,
    pub next_run_at: Option<String>,
    pub last_run_at: Option<String>,
    pub last_status: Option<String>,
    pub last_error: Option<String>,
    pub paused_at: Option<String>,
    pub paused_reason: Option<String>,
}

/// `a` is a copy of `b`: equal fields, and skills with equal views.
pub open spec fn copy_of(a: CronJob, b: CronJob) -> bool {
    &&& a.id == b.id
    &&& a.name == b.name
    &&& a.prompt == b.prompt
    &&& a.skills@ == b.skills@
    &&& a.model == b.model
    &&& a.provider == b.provider
    &&& a.base_url == b.base_url
    &&& a.schedule == b.schedule
    &&& a.schedule_display == b.schedule_display
    &&& a.repeat_times == b.repeat_times
    &&& a.repeat_completed == b.repeat_completed
    &&& a.enabled == b.enabled
    &&& a.state == b.state
    &&& a.deliver == b.deliver
    &&& a.created_at == b.created_at
    &&& a.next_run_at == b.next_run_at
    &&& a.last_run_at == b.last_run_at
    &&& a.last_status == b.last_status
    &&& a.last_error == b.last_error
    &&& a.paused_at == b.paused_at
    &&& a.paused_reason == b.paused_reason
}

impl Clone for CronJob {
    fn clone(&self) -> (r: Self)
        ensures
            copy_of(r, *self),
    {
        CronJob {
            id: self.id.clone(),
            name: self.name.clone(),
            prompt: self.prompt.clone(),
            skills: clone_strings(self.skills.as_slice()),
            model: clone_opt(&self.model),
            provider: clone_opt(&self.provider),
            base_url: clone_opt(&self.base_url),
            schedule: self.schedule.clone(),
            schedule_display: self.schedule_display.clone(),
            repeat_times: self.repeat_times,
            repeat_completed: self.repeat_completed,
            enabled: self.enabled,
            state: self.state,
            deliver: self.deliver.clone(),
            created_at: self.created_at.clone(),
            next_run_at: clone_opt(&self.next_run_at),
            last_run_at: clone_opt(&self.last_run_at),
            last_status: clone_opt(&self.last_status),
            last_error: clone_opt(&self.last_error),
            paused_at: clone_opt(&self.paused_at),
            paused_reason: clone_opt(&self.paused_reason),
        }
    }
}

/// One line of a job listing.
pub struct CronJobSummary {
    pub id: String,
    pub name: String,
    pub prompt_preview: String,
    pub skills: Vec<String>,
    pub schedule: String,
    pub next_run_at: Option<String>,
    pub last_run_at: Option<String>,
    pub last_status: Option<String>,
    pub state: String,
    pub enabled: bool,
}

/// What a job operation reports.
pub struct CronJobOutput {
    pub success: bool,
    pub job_id: Option<String>,
    pub name: Option<String>,
    pub schedule: Option<String>,
    pub next_run_at: Option<String>,
    pub last_status: Option<String>,
    pub message: Option<String>,
    pub error: Option<String>,
    pub jobs: Option<Vec<CronJobSummary>>,
    pub count: Option<usize>,
}

/// `o` holds a string whose text is `t`.
pub open spec fn opt_text(o: Option<String>, t: Seq<char>) -> bool {
    o matches Some(x) && x@ == t
}

/// Views of an optional string slice.
pub open spec fn str_opt_view(o: Option<&str>) -> Option<Seq<char>> {
    match o {
        Some(s) => Some(s@),
        None => None,
    }
}

/// The message for a job that is not there.
pub open spec fn not_found_message(id: Seq<char>) -> Seq<char> {
    "Job '"@ + id + "' not found"@
}

/// `out` reports that no job has id `id`.
pub open spec fn is_not_found(out: CronJobOutput, id: Seq<char>) -> bool {
    &&& !out.success
    &&& out.job_id is None
    &&& out.name is None
    &&& out.schedule is None
    &&& out.next_run_at is None
    &&& out.last_status is None
    &&& out.message is None
    &&& opt_text(out.error, not_found_message(id))
    &&& out.jobs is None
    &&& out.count is None
}

/// `out` reports `job` with message `msg`.
pub open spec fn is_job_report(out: CronJobOutput, job: CronJob, msg: Seq<char>) -> bool {
    &&& out.success
    &&& out.job_id == Some(job.id)
    &&& out.name == Some(job.name)
    &&& out.schedule == Some(job.schedule_display)
    &&& out.next_run_at == job.next_run_at
    &&& out.last_status == job.last_status
    &&& opt_text(out.message, msg)
    &&& out.error is None
    &&& out.jobs is None
    &&& out.count is None
}

fn not_found(id: &str) -> (out: CronJobOutput)
    ensures
        is_not_found(out, id@),
{
    let mut e = owned("Job '");
    push_str(&mut e, id);
    push_str(&mut e, "' not found");
    CronJobOutput {
        success: false,
        job_id: None,
        name: None,
        schedule: None,
        next_run_at: None,
        last_status: None,
        message: None,
        error: Some(e),
        jobs: None,
        count: None,
    }
}

fn job_report(job: &CronJob, msg: &str) -> (out: CronJobOutput)
    ensures
        is_job_report(out, *job, msg@),
{
    CronJobOutput {
        success: true,
        job_id: Some(job.id.clone()),
        name: Some(job.name.clone()),
        schedule: Some(job.schedule_display.clone()),
        next_run_at: clone_opt(&job.next_run_at),
        last_status: clone_opt(&job.last_status),
        message: Some(owned(msg)),
        error: None,
        jobs: None,
        count: None,
    }
}

/// Whether a job has id `id`.
pub open spec fn job_has_id(id: Seq<char>) -> spec_fn(CronJob) -> bool {
    |j: CronJob| j.id@ == id
}

/// Index of the first job with id `id`.
pub open spec fn job_index(jobs: Seq<CronJob>, id: Seq<char>) -> Option<int> {
    first_index(jobs, job_has_id(id), 0)
}

fn find_job(jobs: &Vec<CronJob>, id: &str) -> (r: Option<usize>)
    ensures
        match r {
            Some(i) => job_index(jobs@, id@) == Some(i as int) && i < jobs@.len(),
            None => job_index(jobs@, id@) is None,
        },
{
    let mut i: usize = 0;
    while i < jobs.len()
        invariant
            i <= jobs@.len(),
            job_index(jobs@, id@) == first_index(jobs@, job_has_id(id@), i as int),
        decreases jobs.len() - i,
    {
        if str_eq(jobs[i].id.as_str(), id) {
            return Some(i);
        }
        i = i + 1;
    }
    None
}

/// The first job with id `job_id`, copied.
pub fn get_job(jobs: &Vec<CronJob>, job_id: &str) -> (r: Option<CronJob>)
    ensures
        match job_index(jobs@, job_id@) {
            Some(k) => r is Some && copy_of(r->0, jobs@[k]),
            None => r is None,
        },
{
    proof {
        lemma_first_index(jobs@, job_has_id(job_id@), 0);
    }
    match find_job(jobs, job_id) {
        Some(k) => {
            let j = jobs[k].clone();
            assert(job_index(jobs@, job_id@) == Some(k as int));
            assert(copy_of(j, jobs@[k as int]));
            Some(j)
        },
        None => None,
    }
}


/// `b` is `a` paused now, for `reason`.
pub open spec fn paused_job(a: CronJob, b: CronJob, reason: Option<Seq<char>>) -> bool {
    &&& b == CronJob {
        enabled: false,
        state: JobState::Paused,
        paused_at: b.paused_at,
        paused_reason: b.paused_reason,
        ..a
    }
    &&& b.paused_at is Some
    &&& opt_view(b.paused_reason) == reason
}

/// `b` is `a` resumed: enabled, scheduled, no pause, and a next run.
pub open spec fn resumed_job(a: CronJob, b: CronJob) -> bool {
    &&& b == CronJob {
        enabled: true,
        state: JobState::Scheduled,
        paused_at: None,
        paused_reason: None,
        next_run_at: b.next_run_at,
        ..a
    }
    &&& next_run_ok(a.schedule, b.next_run_at)
}

/// `b` is `a` triggered: enabled, scheduled, no pause, due now.
pub open spec fn triggered_job(a: CronJob, b: CronJob) -> bool {
    &&& b == CronJob {
        enabled: true,
        state: JobState::Scheduled,
        paused_at: None,
        paused_reason: None,
        next_run_at: b.next_run_at,
        ..a
    }
    &&& b.next_run_at is Some
}

/// The jobs after `op` changed the first job with id `id` into a job for
/// which `changed` holds, reported with `msg`; or, with no such job, the
/// jobs unchanged and a not-found report.
pub open spec fn one_job_changed(
    before: Seq<CronJob>,
    after: Seq<CronJob>,
    id: Seq<char>,
    out: CronJobOutput,
    changed: spec_fn(CronJob, CronJob) -> bool,
    msg: Seq<char>,
) -> bool {
    match job_index(before, id) {
        Some(k) => {
            &&& after.len() == before.len()
            &&& after == before.update(k, after[k])
            &&& changed(before[k], after[k])
            &&& is_job_report(out, after[k], msg)
        },
        None => after == before && is_not_found(out, id),
    }
}

/// The interval of every job is one the clock can add.
pub open spec fn jobs_in_clock_range(jobs: Seq<CronJob>) -> bool {
    forall|i: int| 0 <= i < jobs.len() ==> schedule_in_clock_range(#[trigger] jobs[i].schedule)
}

fn opt_str(o: Option<&str>) -> (r: Option<String>)
    ensures
        opt_view(r) == str_opt_view(o),
{
    match o {
        Some(s) => Some(owned(s)),
        None => None,
    }
}

fn opt_as_str(o: &Option<String>) -> (r: Option<&str>)
    ensures
        str_opt_view(r) == opt_view(*o),
{
    match o {
        Some(s) => Some(s.as_str()),
        None => None,
    }
}

/// Pauses the first job with id `job_id`.
pub fn pause_job(jobs: &mut Vec<CronJob>, job_id: &str, reason: Option<&str>) -> (out: CronJobOutput)
    ensures
        one_job_changed(
            old(jobs)@,
            final(jobs)@,
            job_id@,
            out,
            |a: CronJob, b: CronJob| paused_job(a, b, str_opt_view(reason)),
            "Job paused."@,
        ),
{
    match find_job(jobs, job_id) {
        Some(k) => {
            let ghost before = jobs@;
            let mut job = jobs.remove(k);
            job.enabled = false;
            job.state = JobState::Paused;
            job.paused_at = Some(now_iso());
            job.paused_reason = opt_str(reason);
            let out = job_report(&job, "Job paused.");
            jobs.insert(k, job);
            assert(jobs@ =~= before.update(k as int, job));
            out
        },
        None => not_found(job_id),
    }
}

/// Resumes the first job with id `job_id` and computes its next run.
pub fn resume_job(jobs: &mut Vec<CronJob>, job_id: &str) -> (out: CronJobOutput)
    requires
        jobs_in_clock_range(old(jobs)@),
    ensures
        one_job_changed(
            old(jobs)@,
            final(jobs)@,
            job_id@,
            out,
            |a: CronJob, b: CronJob| resumed_job(a, b),
            "Job resumed."@,
        ),
{
    match find_job(jobs, job_id) {
        Some(k) => {
            let ghost before = jobs@;
            let mut job = jobs.remove(k);
            assert(job == before[k as int]);
            job.enabled = true;
            job.state = JobState::Scheduled;
            job.paused_at = None;
            job.paused_reason = None;
            job.next_run_at = compute_next_run(&job.schedule, opt_as_str(&job.last_run_at));
            let out = job_report(&job, "Job resumed.");
            jobs.insert(k, job);
            assert(jobs@ =~= before.update(k as int, job));
            out
        },
        None => not_found(job_id),
    }
}

/// Triggers the first job with id `job_id`: it becomes due now.
pub fn trigger_job(jobs: &mut Vec<CronJob>, job_id: &str) -> (out: CronJobOutput)
    ensures
        one_job_changed(
            old(jobs)@,
            final(jobs)@,
            job_id@,
            out,
            |a: CronJob, b: CronJob| triggered_job(a, b),
            "Job triggered."@,
        ),
{
    match find_job(jobs, job_id) {
        Some(k) => {
            let ghost before = jobs@;
            let mut job = jobs.remove(k);
            job.enabled = true;
            job.state = JobState::Scheduled;
            job.paused_at = None;
            job.paused_reason = None;
            job.next_run_at = Some(now_iso());
            let out = job_report(&job, "Job triggered.");
            jobs.insert(k, job);
            assert(jobs@ =~= before.update(k as int, job));
            out
        },
        None => not_found(job_id),
    }
}

/// `jobs` without those whose id is `id`, in order.
pub open spec fn jobs_without(jobs: Seq<CronJob>, id: Seq<char>) -> Seq<CronJob>
    decreases jobs.len(),
{
    if jobs.len() == 0 {
        Seq::empty()
    } else {
        let rest = jobs_without(jobs.drop_last(), id);
        if jobs.last().id@ == id {
            rest
        } else {
            rest.push(jobs.last())
        }
    }
}

fn retain_other_jobs(jobs: &mut Vec<CronJob>, id: &str)
    ensures
        final(jobs)@ == jobs_without(old(jobs)@, id@),
{
    let mut rest: Vec<CronJob> = Vec::new();
    std::mem::swap(&mut rest, jobs);
    let ghost all = rest@;
    let ghost n = rest@.len();
    assert(n <= usize::MAX) by {
        assert(rest.len() <= usize::MAX);
    }
    let mut i: usize = 0;
    assert(all.subrange(0, 0) =~= Seq::<CronJob>::empty());
    while rest.len() > 0
        invariant
            n == all.len(),
            n <= usize::MAX,
            i + rest@.len() == n,
            rest@ == all.subrange(i as int, n as int),
            jobs@ == jobs_without(all.subrange(0, i as int), id@),
        decreases rest.len(),
    {
        let j = rest.remove(0);
        proof {
            assert(j == all[i as int]);
            assert(all.subrange(0, i + 1).drop_last() =~= all.subrange(0, i as int));
            assert(all.subrange(0, i + 1).last() == j);
            assert(rest@ =~= all.subrange(i + 1, n as int));
        }
        if !str_eq(j.id.as_str(), id) {
            jobs.push(j);
        }
        i = i + 1;
    }
    assert(all.subrange(0, n as int) =~= all);
}

/// Whether some job has id `id`.
pub open spec fn has_job(jobs: Seq<CronJob>, id: Seq<char>) -> bool {
    exists|i: int| 0 <= i < jobs.len() && jobs[i].id@ == id
}

/// Removes every job with id `job_id`.
pub fn remove_job(jobs: &mut Vec<CronJob>, job_id: &str) -> (out: CronJobOutput)
    ensures
        final(jobs)@ == jobs_without(old(jobs)@, job_id@),
        has_job(old(jobs)@, job_id@) ==> {
            &&& out.success
            &&& opt_text(out.job_id, job_id@)
            &&& out.name is None && out.schedule is None && out.next_run_at is None
            &&& out.last_status is None
            &&& opt_text(out.message, "Job '"@ + job_id@ + "' removed."@)
            &&& out.error is None && out.jobs is None && out.count is None
        },
        !has_job(old(jobs)@, job_id@) ==> is_not_found(out, job_id@),
{
    let initial_len = jobs.len();
    let ghost before = jobs@;
    retain_other_jobs(jobs, job_id);
    proof {
        lemma_jobs_without_len(before, job_id@);
    }
    if jobs.len() < initial_len {
        let mut m = owned("Job '");
        push_str(&mut m, job_id);
        push_str(&mut m, "' removed.");
        CronJobOutput {
            success: true,
            job_id: Some(owned(job_id)),
            name: None,
            schedule: None,
            next_run_at: None,
            last_status: None,
            message: Some(m),
            error: None,
            jobs: None,
            count: None,
        }
    } else {
        not_found(job_id)
    }
}

/// Removing the jobs with an id shortens the list exactly when one of them
/// has it.
pub proof fn lemma_jobs_without_len(jobs: Seq<CronJob>, id: Seq<char>)
    ensures
        jobs_without(jobs, id).len() <= jobs.len(),
        jobs_without(jobs, id).len() < jobs.len() <==> has_job(jobs, id),
    decreases jobs.len(),
{
    if jobs.len() > 0 {
        let init = jobs.drop_last();
        lemma_jobs_without_len(init, id);
        if has_job(init, id) {
            let i = choose|i: int| 0 <= i < init.len() && init[i].id@ == id;
            assert(jobs[i] == init[i]);
        }
        if has_job(jobs, id) && jobs.last().id@ != id {
            let i = choose|i: int| 0 <= i < jobs.len() && jobs[i].id@ == id;
            assert(i < init.len());
            assert(init[i] == jobs[i]);
        }
        if jobs.last().id@ == id {
            assert(jobs[jobs.len() - 1].id@ == id);
        }
    }
}

/// No job left after a removal has the removed id, and every job without it
/// is kept, in order.
pub proof fn lemma_remove_job_exact(jobs: Seq<CronJob>, id: Seq<char>)
    ensures
        forall|i: int| 0 <= i < jobs_without(jobs, id).len() ==> (#[trigger] jobs_without(jobs, id)[i]).id@ != id,
        !has_job(jobs, id) ==> jobs_without(jobs, id) == jobs,
    decreases jobs.len(),
{
    if jobs.len() > 0 {
        let init = jobs.drop_last();
        lemma_remove_job_exact(init, id);
        if !has_job(jobs, id) {
            assert(!has_job(init, id)) by {
                if has_job(init, id) {
                    let i = choose|i: int| 0 <= i < init.len() && init[i].id@ == id;
                    assert(jobs[i] == init[i]);
                }
            }
            assert(jobs[jobs.len() - 1].id@ != id);
            assert(init.push(jobs.last()) =~= jobs);
        }
    }
}


/// `b` records a run of `a`: when, how it went, one more completed run.
pub open spec fn run_recorded(a: CronJob, b: CronJob, success: bool, error: Option<Seq<char>>) -> bool {
    &&& b.last_run_at is Some
    &&& opt_text(b.last_status, if success { "ok"@ } else { "error"@ })
    &&& opt_view(b.last_error) == error
    &&& b.repeat_completed == a.repeat_completed + 1
}

/// One more run reaches the job's repeat limit.
pub open spec fn limit_reached(a: CronJob) -> bool {
    a.repeat_times matches Some(l) && a.repeat_completed + 1 >= l
}

/// `b` is `a` after a run below its limit: the run recorded, the next run
/// computed, and the job completed when there is none.
pub open spec fn rescheduled_job(a: CronJob, b: CronJob, success: bool, error: Option<Seq<char>>) -> bool {
    &&& run_recorded(a, b, success, error)
    &&& b == CronJob {
        last_run_at: b.last_run_at,
        last_status: b.last_status,
        last_error: b.last_error,
        repeat_completed: b.repeat_completed,
        next_run_at: b.next_run_at,
        enabled: if b.next_run_at is None {
            false
        } else {
            a.enabled
        },
        state: if b.next_run_at is None {
            JobState::Completed
        } else if a.state == JobState::Paused {
            JobState::Paused
        } else {
            JobState::Scheduled
        },
        ..a
    }
    &&& next_run_ok(a.schedule, b.next_run_at)
}

/// The run counter of the first job with id `id` can grow by one.
pub open spec fn run_count_room(jobs: Seq<CronJob>, id: Seq<char>) -> bool {
    job_index(jobs, id) matches Some(k) ==> jobs[k].repeat_completed < i32::MAX
}

/// Records a run of the first job with id `job_id`. A job that reaches its
/// repeat limit is removed, with every other job of that id; otherwise its
/// next run is computed.
pub fn mark_job_run(jobs: &mut Vec<CronJob>, job_id: &str, success: bool, error: Option<&str>)
    requires
        jobs_in_clock_range(old(jobs)@),
        run_count_room(old(jobs)@, job_id@),
    ensures
        match job_index(old(jobs)@, job_id@) {
            None => final(jobs)@ == old(jobs)@,
            Some(k) => if limit_reached(old(jobs)@[k]) {
                final(jobs)@ == jobs_without(old(jobs)@, job_id@)
            } else {
                &&& final(jobs)@.len() == old(jobs)@.len()
                &&& final(jobs)@ == old(jobs)@.update(k, final(jobs)@[k])
                &&& rescheduled_job(old(jobs)@[k], final(jobs)@[k], success, str_opt_view(error))
            },
        },
{
    proof {
        lemma_first_index(jobs@, job_has_id(job_id@), 0);
    }
    match find_job(jobs, job_id) {
        None => {},
        Some(k) => {
            let ghost before = jobs@;
            let mut job = jobs.remove(k);
            assert(job == before[k as int]);
            job.last_run_at = Some(now_iso());
            job.last_status = Some(
                if success {
                    owned("ok")
                } else {
                    owned("error")
                },
            );
            job.last_error = opt_str(error);
            job.repeat_completed = job.repeat_completed + 1;
            let reached = match job.repeat_times {
                Some(limit) => job.repeat_completed >= limit,
                None => false,
            };
            if reached {
                jobs.insert(k, job);
                assert(jobs@ =~= before.update(k as int, job));
                let ghost mid = jobs@;
                retain_other_jobs(jobs, job_id);
                proof {
                    lemma_jobs_without_update(before, k as int, job, job_id@);
                }
                return;
            }
            job.next_run_at = compute_next_run(&job.schedule, opt_as_str(&job.last_run_at));
            if job.next_run_at.is_none() {
                job.enabled = false;
                job.state = JobState::Completed;
            } else if job.state != JobState::Paused {
                job.state = JobState::Scheduled;
            }
            jobs.insert(k, job);
            assert(jobs@ =~= before.update(k as int, job));
        },
    }
}

/// Replacing a job that has the removed id by another with that id does not
/// change what a removal leaves.
proof fn lemma_jobs_without_update(jobs: Seq<CronJob>, k: int, j: CronJob, id: Seq<char>)
    requires
        0 <= k < jobs.len(),
        jobs[k].id@ == id,
        j.id@ == id,
    ensures
        jobs_without(jobs.update(k, j), id) == jobs_without(jobs, id),
    decreases jobs.len(),
{
    let u = jobs.update(k, j);
    if k == jobs.len() - 1 {
        assert(u.drop_last() =~= jobs.drop_last());
    } else {
        assert(u.drop_last() =~= jobs.drop_last().update(k, j));
        lemma_jobs_without_update(jobs.drop_last(), k, j, id);
    }
}

/// What a listing shows of a prompt: its first 100 bytes and `...` when it
/// is longer.
pub open spec fn preview_of(p: Seq<char>) -> Seq<char> {
    if utf8_len(p) > 100 {
        byte_prefix(p, 100) + "..."@
    } else {
        p
    }
}

/// `s` is the listing line of job `j`.
pub open spec fn summary_of(j: CronJob, s: CronJobSummary) -> bool {
    &&& s.id == j.id
    &&& s.name == j.name
    &&& s.prompt_preview@ == preview_of(j.prompt@)
    &&& s.skills@ == j.skills@
    &&& s.schedule == j.schedule_display
    &&& s.next_run_at == j.next_run_at
    &&& s.last_run_at == j.last_run_at
    &&& s.last_status == j.last_status
    &&& s.state@ == state_name(j.state)
    &&& s.enabled == j.enabled
}

/// Every prompt longer than 100 bytes has a character boundary at byte 100.
pub open spec fn previews_cut_cleanly(jobs: Seq<CronJob>) -> bool {
    forall|i: int| 0 <= i < jobs.len() ==> can_truncate_bytes(#[trigger] jobs[i].prompt@, 100)
}

fn summarize(j: &CronJob) -> (s: CronJobSummary)
    requires
        can_truncate_bytes(j.prompt@, 100),
    ensures
        summary_of(*j, s),
{
    let preview = if longer_than_bytes(j.prompt.as_str(), 100) {
        let (mut p, _) = take_bytes(j.prompt.as_str(), 100);
        push_str(&mut p, "...");
        p
    } else {
        j.prompt.clone()
    };
    CronJobSummary {
        id: j.id.clone(),
        name: j.name.clone(),
        prompt_preview: preview,
        skills: clone_strings(j.skills.as_slice()),
        schedule: j.schedule_display.clone(),
        next_run_at: clone_opt(&j.next_run_at),
        last_run_at: clone_opt(&j.last_run_at),
        last_status: clone_opt(&j.last_status),
        state: owned(j.state.name()),
        enabled: j.enabled,
    }
}

/// Lists every job.
pub fn list_jobs(jobs: &Vec<CronJob>) -> (out: CronJobOutput)
    requires
        previews_cut_cleanly(jobs@),
    ensures
        out.success,
        out.job_id is None && out.name is None && out.schedule is None,
        out.next_run_at is None && out.last_status is None,
        out.message is None && out.error is None,
        out.count == Some(jobs@.len() as usize),
        out.jobs matches Some(v) && v@.len() == jobs@.len() && forall|i: int|
            0 <= i < jobs@.len() ==> summary_of(jobs@[i], #[trigger] v@[i]),
{
    let mut summaries: Vec<CronJobSummary> = Vec::new();
    let mut i: usize = 0;
    while i < jobs.len()
        invariant
            i <= jobs@.len(),
            previews_cut_cleanly(jobs@),
            summaries@.len() == i,
            forall|x: int| 0 <= x < i ==> summary_of(jobs@[x], #[trigger] summaries@[x]),
        decreases jobs.len() - i,
    {
        assert(can_truncate_bytes(jobs@[i as int].prompt@, 100));
        summaries.push(summarize(&jobs[i]));
        i = i + 1;
    }
    CronJobOutput {
        success: true,
        job_id: None,
        name: None,
        schedule: None,
        next_run_at: None,
        last_status: None,
        message: None,
        error: None,
        jobs: Some(summaries),
        count: Some(jobs.len()),
    }
}


/// How `{:?}` prints a string.
pub uninterp spec fn debug_text(s: Seq<char>) -> Seq<char>;

/// Printable ASCII other than a quote or a backslash: `{:?}` escapes none
/// of these characters.
pub open spec fn plain_printable(s: Seq<char>) -> bool {
    forall|i: int| 0 <= i < s.len() ==> ' ' <= #[trigger] s[i] <= '~' && s[i] != '"' && s[i] != '\\'
}

/// `format!("{:?}", s)`: the string in double quotes, with quotes,
/// backslashes and unprintable characters escaped.
#[verifier::external_body]
fn debug_string(s: &str) -> (r: String)
    ensures
        r@ == debug_text(s@),
        plain_printable(s@) ==> r@ == seq!['"'] + s@ + seq!['"'],
{
    format!("{:?}", s)
}

/// Heading of a job listing.
pub open spec fn jobs_heading() -> Seq<char> {
    "# Scheduled Jobs\n\n"@
}

/// What a listing says when there are no jobs.
pub open spec fn no_jobs_line() -> Seq<char> {
    "No scheduled jobs. Use `/cron create <prompt> <schedule>` to create one.\n"@
}

/// The heading and schedule lines of a job block.
pub open spec fn head_part(j: CronJobSummary) -> Seq<char> {
    "## "@ + j.name@ + " ("@ + j.id@ + ")\n\n"@ + "- **Schedule:** "@ + j.schedule@ + "\n"@
}

/// The next-run line of a job block, if any.
pub open spec fn next_part(j: CronJobSummary) -> Seq<char> {
    match j.next_run_at {
        Some(n) => "- **Next Run:** "@ + n@ + "\n"@,
        None => Seq::empty(),
    }
}

/// The last-run line of a job block, if any.
pub open spec fn last_part(j: CronJobSummary) -> Seq<char> {
    match j.last_run_at {
        Some(l) => "- **Last Run:** "@ + l@ + " - **"@ + (match j.last_status {
            Some(st) => st@,
            None => "unknown"@,
        }) + "**\n"@,
        None => Seq::empty(),
    }
}

/// The status, skills and enabled lines of a job block.
pub open spec fn tail_part(j: CronJobSummary) -> Seq<char> {
    "- **Status:** "@ + debug_text(j.state@) + "\n"@ + (if j.skills@.len() > 0 {
        "- **Skills:** "@ + join(views(j.skills@), ", "@) + "\n"@
    } else {
        Seq::empty()
    }) + "- **Enabled:** "@ + (if j.enabled {
        "true"@
    } else {
        "false"@
    }) + "\n"@ + "\n"@
}

/// The Markdown block of one job in a listing.
pub open spec fn job_block(j: CronJobSummary) -> Seq<char> {
    head_part(j) + next_part(j) + last_part(j) + tail_part(j)
}

/// The blocks of `js`, one after the other.
pub open spec fn job_blocks(js: Seq<CronJobSummary>) -> Seq<char>
    decreases js.len(),
{
    if js.len() == 0 {
        Seq::empty()
    } else {
        job_blocks(js.drop_last()) + job_block(js.last())
    }
}

/// The Markdown listing of `js`.
pub open spec fn jobs_markdown(js: Seq<CronJobSummary>) -> Seq<char> {
    if js.len() == 0 {
        jobs_heading() + no_jobs_line()
    } else {
        jobs_heading() + job_blocks(js)
    }
}

fn push_head(md: &mut String, j: &CronJobSummary)
    ensures
        final(md)@ == old(md)@ + head_part(*j),
{
    push_str(md, "## ");
    push_str(md, j.name.as_str());
    push_str(md, " (");
    push_str(md, j.id.as_str());
    push_str(md, ")\n\n");
    push_str(md, "- **Schedule:** ");
    push_str(md, j.schedule.as_str());
    push_str(md, "\n");
    assert(md@ =~= old(md)@ + head_part(*j));
}

fn push_runs(md: &mut String, j: &CronJobSummary)
    ensures
        final(md)@ == old(md)@ + next_part(*j) + last_part(*j),
{
    if let Some(next) = &j.next_run_at {
        push_str(md, "- **Next Run:** ");
        push_str(md, next.as_str());
        push_str(md, "\n");
    }
    assert(md@ =~= old(md)@ + next_part(*j));
    let ghost mid = md@;
    if let Some(last) = &j.last_run_at {
        push_str(md, "- **Last Run:** ");
        push_str(md, last.as_str());
        push_str(md, " - **");
        match &j.last_status {
            Some(st) => push_str(md, st.as_str()),
            None => push_str(md, "unknown"),
        }
        push_str(md, "**\n");
    }
    assert(md@ =~= mid + last_part(*j));
}

fn push_tail(md: &mut String, j: &CronJobSummary)
    ensures
        final(md)@ == old(md)@ + tail_part(*j),
{
    push_str(md, "- **Status:** ");
    let st = debug_string(j.state.as_str());
    push_str(md, st.as_str());
    push_str(md, "\n");
    let ghost mid = md@;
    if j.skills.len() > 0 {
        push_str(md, "- **Skills:** ");
        let sk = join_strings(j.skills.as_slice(), ", ");
        push_str(md, sk.as_str());
        push_str(md, "\n");
    }
    let ghost mid2 = md@;
    push_str(md, "- **Enabled:** ");
    if j.enabled {
        push_str(md, "true");
    } else {
        push_str(md, "false");
    }
    push_str(md, "\n");
    push_str(md, "\n");
    assert(md@ =~= old(md)@ + tail_part(*j));
}

fn push_job_block(md: &mut String, j: &CronJobSummary)
    ensures
        final(md)@ == old(md)@ + job_block(*j),
{
    push_head(md, j);
    push_runs(md, j);
    push_tail(md, j);
    assert(md@ =~= old(md)@ + job_block(*j));
}

/// Formats a job listing as Markdown.
pub fn format_jobs_list(jobs: &[CronJobSummary]) -> (r: String)
    ensures
        r@ == jobs_markdown(jobs@),
{
    let mut md = owned("# Scheduled Jobs\n\n");
    if jobs.len() == 0 {
        push_str(&mut md, "No scheduled jobs. Use `/cron create <prompt> <schedule>` to create one.\n");
        return md;
    }
    let mut i: usize = 0;
    while i < jobs.len()
        invariant
            i <= jobs@.len(),
            md@ == jobs_heading() + job_blocks(jobs@.subrange(0, i as int)),
        decreases jobs.len() - i,
    {
        proof {
            assert(jobs@.subrange(0, i + 1).drop_last() =~= jobs@.subrange(0, i as int));
        }
        push_job_block(&mut md, &jobs[i]);
        proof {
            assert(md@ =~= jobs_heading() + job_blocks(jobs@.subrange(0, i + 1)));
        }
        i = i + 1;
    }
    assert(jobs@.subrange(0, jobs@.len() as int) =~= jobs@);
    md
}


/// The first `n` characters of `s` (all of it when shorter).
pub open spec fn first_chars(s: Seq<char>, n: nat) -> Seq<char> {
    if s.len() <= n {
        s
    } else {
        s.subrange(0, n as int)
    }
}

fn take_chars(s: &str, n: usize) -> (r: String)
    ensures
        r@ == first_chars(s@, n as nat),
{
    let v = chars_of(s);
    let mut out: Vec<char> = Vec::new();
    let mut i: usize = 0;
    while i < v.len() && i < n
        invariant
            v@ == s@,
            i <= v.len(),
            i <= n,
            out@ == v@.subrange(0, i as int),
        decreases v.len() - i,
    {
        out.push(v[i]);
        i = i + 1;
    }
    proof {
        if i < v.len() {
            assert(i == n);
        } else {
            assert(v@.subrange(0, i as int) =~= v@);
        }
    }
    string_of(out.as_slice())
}

/// The name a new job gets when none is given: the first 50 characters of
/// the prompt, else of the first skill, else `cron job`.
pub open spec fn default_job_name(prompt: Seq<char>, skills: Seq<Seq<char>>) -> Seq<char> {
    let label = if prompt.len() > 0 {
        prompt
    } else if skills.len() > 0 {
        skills[0]
    } else {
        "cron job"@
    };
    first_chars(label, 50)
}

/// `j` is a job just made from these arguments.
pub open spec fn fresh_job(
    j: CronJob,
    prompt: Seq<char>,
    schedule_text: Seq<char>,
    name: Option<Seq<char>>,
    repeat: Option<i32>,
    skills: Seq<String>,
    deliver: Option<Seq<char>>,
    model: Option<Seq<char>>,
    provider: Option<Seq<char>>,
    base_url: Option<Seq<char>>,
) -> bool {
    &&& j.id@.len() == 12 && all_ascii(j.id@)
    &&& j.name@ == (match name {
        Some(n) => n,
        None => default_job_name(prompt, views(skills)),
    })
    &&& j.prompt@ == prompt
    &&& j.skills@ == skills
    &&& opt_view(j.model) == model
    &&& opt_view(j.provider) == provider
    &&& opt_view(j.base_url) == base_url
    &&& parsed_as(schedule_text, Ok(j.schedule))
    &&& j.schedule_display@ == display_spec(j.schedule)
    &&& j.repeat_times == (if j.schedule is Once {
        Some(1i32)
    } else {
        repeat
    })
    &&& j.repeat_completed == 0
    &&& j.enabled
    &&& j.state == JobState::Scheduled
    &&& j.deliver@ == (match deliver {
        Some(d) => d,
        None => "local"@,
    })
    &&& next_run_ok(j.schedule, j.next_run_at)
    &&& j.last_run_at is None
    &&& j.last_status is None
    &&& j.last_error is None
    &&& j.paused_at is None
    &&& j.paused_reason is None
}

/// Creates a job and appends it to `jobs`; a schedule that does not parse
/// is refused with its message and `jobs` stay as they were.
pub fn create_job(
    jobs: &mut Vec<CronJob>,
    prompt: &str,
    schedule_str: &str,
    name: Option<&str>,
    repeat: Option<i32>,
    skills: Vec<String>,
    deliver: Option<&str>,
    model: Option<&str>,
    provider: Option<&str>,
    base_url: Option<&str>,
) -> (r: Result<CronJobOutput, String>)
    requires
        schedule_in_range(schedule_str@),
    ensures
        match r {
            Err(e) => final(jobs)@ == old(jobs)@ && parsed_as(schedule_str@, Err(e)),
            Ok(out) => {
                let j = final(jobs)@.last();
                &&& final(jobs)@.len() == old(jobs)@.len() + 1
                &&& final(jobs)@.drop_last() == old(jobs)@
                &&& fresh_job(
                    j,
                    prompt@,
                    schedule_str@,
                    str_opt_view(name),
                    repeat,
                    skills@,
                    str_opt_view(deliver),
                    str_opt_view(model),
                    str_opt_view(provider),
                    str_opt_view(base_url),
                )
                &&& out.success
                &&& out.job_id == Some(j.id)
                &&& out.name == Some(j.name)
                &&& opt_text(out.schedule, display_spec(j.schedule))
                &&& out.next_run_at == j.next_run_at
                &&& out.last_status is None
                &&& opt_text(out.message, "Cron job '"@ + j.name@ + "' created."@)
                &&& out.error is None && out.jobs is None && out.count is None
            },
        },
{
    let schedule = match parse_schedule(schedule_str) {
        Ok(s) => s,
        Err(e) => {
            return Err(e);
        },
    };
    let uuid = new_uuid_v4();
    let id = take_chars(uuid.as_str(), 12);
    let job_name = match name {
        Some(n) => owned(n),
        None => {
            if !prompt.is_empty() {
                take_chars(prompt, 50)
            } else if skills.len() > 0 {
                take_chars(skills[0].as_str(), 50)
            } else {
                take_chars("cron job", 50)
            }
        },
    };
    proof {
        reveal_strlit("cron job");
        if prompt@.len() == 0 && skills@.len() > 0 {
            assert(views(skills@)[0] == skills@[0]@);
        }
    }
    let is_once = match &schedule {
        Schedule::Once { .. } => true,
        _ => false,
    };
    let repeat_times = if is_once {
        Some(1i32)
    } else {
        repeat
    };
    let next_run_at = compute_next_run(&schedule, None);
    let display = schedule.display();
    let job = CronJob {
        id: id,
        name: job_name,
        prompt: owned(prompt),
        skills: skills,
        model: opt_str(model),
        provider: opt_str(provider),
        base_url: opt_str(base_url),
        schedule: schedule,
        schedule_display: display,
        repeat_times,
        repeat_completed: 0,
        enabled: true,
        state: JobState::Scheduled,
        deliver: match deliver {
            Some(d) => owned(d),
            None => owned("local"),
        },
        created_at: now_iso(),
        next_run_at: next_run_at,
        last_run_at: None,
        last_status: None,
        last_error: None,
        paused_at: None,
        paused_reason: None,
    };
    let mut message = owned("Cron job '");
    push_str(&mut message, job.name.as_str());
    push_str(&mut message, "' created.");
    let out = CronJobOutput {
        success: true,
        job_id: Some(job.id.clone()),
        name: Some(job.name.clone()),
        schedule: Some(job.schedule.display()),
        next_run_at: clone_opt(&job.next_run_at),
        last_status: None,
        message: Some(message),
        error: None,
        jobs: None,
        count: None,
    };
    let ghost before = jobs@;
    jobs.push(job);
    assert(jobs@.drop_last() =~= before);
    Ok(out)
}


/// Changes asked of a job; a field left `None` stays as it is.
pub struct JobUpdates {
    pub name: Option<String>,
    pub prompt: Option<String>,
    pub skills: Option<Vec<String>>,
    pub deliver: Option<String>,
    pub schedule: Option<String>,
}

/// `b` is `a` with the updates `u` applied (a new schedule as its text
/// parsed) and its next run computed anew.
pub open spec fn updated_job(a: CronJob, b: CronJob, u: JobUpdates) -> bool {
    &&& b == CronJob {
        name: b.name,
        prompt: b.prompt,
        skills: b.skills,
        deliver: b.deliver,
        schedule: b.schedule,
        schedule_display: b.schedule_display,
        next_run_at: b.next_run_at,
        state: b.state,
        enabled: b.enabled,
        ..a
    }
    &&& b.name@ == (match u.name {
        Some(n) => n@,
        None => a.name@,
    })
    &&& b.prompt@ == (match u.prompt {
        Some(p) => p@,
        None => a.prompt@,
    })
    &&& b.skills@ == (match u.skills {
        Some(sk) => sk@,
        None => a.skills@,
    })
    &&& b.deliver@ == (match u.deliver {
        Some(d) => d@,
        None => a.deliver@,
    })
    &&& (match u.schedule {
        Some(t) => parsed_as(t@, Ok(b.schedule)) && b.schedule_display@ == display_spec(b.schedule),
        None => b.schedule == a.schedule && b.schedule_display == a.schedule_display,
    })
    &&& next_run_ok(b.schedule, b.next_run_at)
    &&& (if a.state == JobState::Paused {
        b.state == a.state && b.enabled == a.enabled
    } else {
        b.state == JobState::Scheduled && b.enabled
    })
}

fn apply_updates(job: CronJob, u: &JobUpdates, sched: &Option<Schedule>) -> (b: CronJob)
    requires
        schedule_in_clock_range(job.schedule),
        sched matches Some(sc) ==> schedule_in_clock_range(*sc),
        match u.schedule {
            Some(t) => (*sched matches Some(sc) && parsed_as(t@, Ok(sc))),
            None => sched is None,
        },
    ensures
        updated_job(job, b, *u),
        schedule_in_clock_range(b.schedule),
{
    let mut b = job;
    if let Some(n) = &u.name {
        b.name = n.clone();
    }
    if let Some(p) = &u.prompt {
        b.prompt = p.clone();
    }
    if let Some(sk) = &u.skills {
        b.skills = clone_strings(sk.as_slice());
    }
    if let Some(d) = &u.deliver {
        b.deliver = d.clone();
    }
    if let Some(sc) = sched {
        b.schedule = sc.clone();
        b.schedule_display = b.schedule.display();
    }
    b.next_run_at = compute_next_run(&b.schedule, opt_as_str(&b.last_run_at));
    if b.state != JobState::Paused {
        b.state = JobState::Scheduled;
        b.enabled = true;
    }
    b
}

/// Updates every job with id `job_id`. A new schedule that does not parse
/// is refused with its message and the jobs stay as they were; with no such
/// job the report says so.
pub fn update_job(jobs: &mut Vec<CronJob>, job_id: &str, updates: JobUpdates) -> (r: Result<CronJobOutput, String>)
    requires
        jobs_in_clock_range(old(jobs)@),
        updates.schedule matches Some(t) ==> schedule_in_range(t@),
    ensures
        match r {
            Err(e) => {
                &&& final(jobs)@ == old(jobs)@
                &&& has_job(old(jobs)@, job_id@)
                &&& (updates.schedule matches Some(t) && parsed_as(t@, Err(e)))
            },
            Ok(out) => if !has_job(old(jobs)@, job_id@) {
                is_not_found(out, job_id@) && final(jobs)@ == old(jobs)@
            } else {
                &&& final(jobs)@.len() == old(jobs)@.len()
                &&& forall|i: int|
                    0 <= i < old(jobs)@.len() ==> if old(jobs)@[i].id@ == job_id@ {
                        updated_job(old(jobs)@[i], #[trigger] final(jobs)@[i], updates)
                    } else {
                        final(jobs)@[i] == old(jobs)@[i]
                    }
                &&& out.success
                &&& opt_text(out.job_id, job_id@)
                &&& exists|i: int|
                    0 <= i < final(jobs)@.len() && final(jobs)@[i].id@ == job_id@ && out.name == Some(
                        #[trigger] final(jobs)@[i].name,
                    ) && out.schedule == Some(final(jobs)@[i].schedule_display) && out.next_run_at
                        == final(jobs)@[i].next_run_at
                &&& out.last_status is None
                &&& opt_text(out.message, "Job '"@ + job_id@ + "' updated."@)
                &&& out.error is None && out.jobs is None && out.count is None
            },
        },
{
    proof {
        lemma_first_index(jobs@, job_has_id(job_id@), 0);
    }
    let first = find_job(jobs, job_id);
    if first.is_none() {
        proof {
            if has_job(jobs@, job_id@) {
                let i = choose|i: int| 0 <= i < jobs@.len() && jobs@[i].id@ == job_id@;
                assert(job_has_id(job_id@)(jobs@[i]));
            }
        }
        return Ok(not_found(job_id));
    }
    let sched: Option<Schedule> = match &updates.schedule {
        Some(t) => match parse_schedule(t.as_str()) {
            Ok(sc) => Some(sc),
            Err(e) => {
                return Err(e);
            },
        },
        None => None,
    };
    let ghost before = jobs@;
    let mut done: Vec<CronJob> = Vec::new();
    let mut rest: Vec<CronJob> = Vec::new();
    std::mem::swap(&mut rest, jobs);
    let ghost n = before.len();
    assert(n <= usize::MAX) by {
        assert(rest.len() <= usize::MAX);
    }
    let mut i: usize = 0;
    let mut last: usize = 0;
    while rest.len() > 0
        invariant
            n == before.len(),
            n <= usize::MAX,
            i + rest@.len() == n,
            rest@ == before.subrange(i as int, n as int),
            done@.len() == i,
            jobs_in_clock_range(before),
            sched matches Some(sc) ==> schedule_in_clock_range(sc),
            match updates.schedule {
                Some(t) => (sched matches Some(sc) && parsed_as(t@, Ok(sc))),
                None => sched is None,
            },
            forall|x: int|
                0 <= x < i ==> if before[x].id@ == job_id@ {
                    updated_job(before[x], #[trigger] done@[x], updates)
                } else {
                    done@[x] == before[x]
                },
            first matches Some(k) && k < n && before[k as int].id@ == job_id@,
            (first matches Some(k) && k < i) ==> last < i && done@[last as int].id@ == job_id@,
        decreases rest.len(),
    {
        let j = rest.remove(0);
        proof {
            assert(j == before[i as int]);
            assert(rest@ =~= before.subrange(i + 1, n as int));
            assert(schedule_in_clock_range(before[i as int].schedule));
        }
        if str_eq(j.id.as_str(), job_id) {
            let b = apply_updates(j, &updates, &sched);
            done.push(b);
            last = i;
        } else {
            done.push(j);
        }
        i = i + 1;
    }
    std::mem::swap(&mut done, jobs);
    let mut message = owned("Job '");
    push_str(&mut message, job_id);
    push_str(&mut message, "' updated.");
    let lj = &jobs[last];
    let out = CronJobOutput {
        success: true,
        job_id: Some(owned(job_id)),
        name: Some(lj.name.clone()),
        schedule: Some(lj.schedule_display.clone()),
        next_run_at: clone_opt(&lj.next_run_at),
        last_status: None,
        message: Some(message),
        error: None,
        jobs: None,
        count: None,
    };
    proof {
        assert(jobs@[last as int].id@ == job_id@);
    }
    Ok(out)
}


/// A job is due at `now` (seconds since the epoch): it is enabled and its
/// next run parses and is not later than `now`.
pub open spec fn is_due(j: CronJob, now: int) -> bool {
    &&& j.enabled
    &&& j.next_run_at matches Some(t)
    &&& rfc3339_instant_of(t@) matches Some(inst)
    &&& inst.0 <= now
}

/// The due jobs of `jobs`, in order.
pub open spec fn due_spec(jobs: Seq<CronJob>, now: int) -> Seq<CronJob>
    decreases jobs.len(),
{
    if jobs.len() == 0 {
        Seq::empty()
    } else {
        let rest = due_spec(jobs.drop_last(), now);
        if is_due(jobs.last(), now) {
            rest.push(jobs.last())
        } else {
            rest
        }
    }
}

/// `r` holds copies of `s`, in order.
pub open spec fn copies_of(r: Seq<CronJob>, s: Seq<CronJob>) -> bool {
    r.len() == s.len() && forall|i: int| 0 <= i < s.len() ==> copy_of(#[trigger] r[i], s[i])
}

fn job_is_due(j: &CronJob, now_secs: i64) -> (b: bool)
    ensures
        b == is_due(*j, now_secs as int),
{
    if !j.enabled {
        return false;
    }
    match &j.next_run_at {
        Some(t) => match rfc3339_instant(t.as_str()) {
            Some((secs, _)) => secs <= now_secs,
            None => false,
        },
        None => false,
    }
}

/// Copies of the jobs due at `now_secs`, in order.
pub fn due_jobs(jobs: &Vec<CronJob>, now_secs: i64) -> (r: Vec<CronJob>)
    ensures
        copies_of(r@, due_spec(jobs@, now_secs as int)),
{
    let mut r: Vec<CronJob> = Vec::new();
    let mut i: usize = 0;
    while i < jobs.len()
        invariant
            i <= jobs@.len(),
            copies_of(r@, due_spec(jobs@.subrange(0, i as int), now_secs as int)),
        decreases jobs.len() - i,
    {
        proof {
            assert(jobs@.subrange(0, i + 1).drop_last() =~= jobs@.subrange(0, i as int));
            assert(jobs@.subrange(0, i + 1).last() == jobs@[i as int]);
        }
        if job_is_due(&jobs[i], now_secs) {
            r.push(jobs[i].clone());
        }
        i = i + 1;
    }
    assert(jobs@.subrange(0, jobs@.len() as int) =~= jobs@);
    r
}

/// Copies of the jobs due now, by the clock.
pub fn get_due_jobs(jobs: &Vec<CronJob>) -> (r: Vec<CronJob>)
    ensures
        exists|now: int| copies_of(r@, #[trigger] due_spec(jobs@, now)),
{
    let (now_secs, _) = now_instant();
    due_jobs(jobs, now_secs)
}

/// A due job is enabled and has a next run.
pub proof fn lemma_due_jobs_enabled(jobs: Seq<CronJob>, now: int)
    ensures
        forall|i: int| 0 <= i < due_spec(jobs, now).len() ==> (#[trigger] due_spec(jobs, now)[i]).enabled
            && due_spec(jobs, now)[i].next_run_at is Some,
    decreases jobs.len(),
{
    if jobs.len() > 0 {
        lemma_due_jobs_enabled(jobs.drop_last(), now);
    }
}

/// Pausing a job and then resuming it leaves it enabled and scheduled, with
/// no pause recorded, and with the same id, name, prompt and schedule.
pub proof fn lemma_pause_then_resume(a: CronJob, b: CronJob, c: CronJob, reason: Option<Seq<char>>)
    requires
        paused_job(a, b, reason),
        resumed_job(b, c),
    ensures
        c.enabled,
        c.state == JobState::Scheduled,
        c.paused_at is None,
        c.paused_reason is None,
        c.id == a.id && c.name == a.name && c.prompt == a.prompt && c.schedule == a.schedule,
        c.last_run_at == a.last_run_at && c.repeat_completed == a.repeat_completed,
{
}

/// A paused job is never due.
pub proof fn lemma_paused_not_due(a: CronJob, b: CronJob, reason: Option<Seq<char>>, now: int)
    requires
        paused_job(a, b, reason),
    ensures
        !is_due(b, now),
{
}

/// A triggered job is due as soon as the clock reaches its next run.
pub proof fn lemma_triggered_due(a: CronJob, b: CronJob, now: int)
    requires
        triggered_job(a, b),
        b.next_run_at matches Some(t) && rfc3339_instant_of(t@) matches Some(inst) && inst.0 <= now,
    ensures
        is_due(b, now),
{
}

} // verus!

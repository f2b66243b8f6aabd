//! Weekly schedule of the hash-chain verification batch, read from a five-field cron
//! expression `MIN HOUR DOM MONTH DOW` whose day-of-month and month are `*`.
use vstd::prelude::*;
use vstd::arithmetic::div_mod::{lemma_mod_multiples_vanish, lemma_small_mod};
use crate::text::{chars_eq, str_chars};

verus! {

/// Whether a character is white space in Unicode's sense (`char::is_whitespace`).
pub open spec fn is_white_space(c: char) -> bool {
    let v = c as u32;
    v == 0x20 || (0x09 <= v <= 0x0d) || v == 0x85 || v == 0xa0 || v == 0x1680 || (0x2000 <= v
        <= 0x200a) || v == 0x2028 || v == 0x2029 || v == 0x202f || v == 0x205f || v == 0x3000
}

/// The maximal runs of non-white-space characters of `s`, in order (`str::split_whitespace`).
pub open spec fn split_white_space(s: Seq<char>) -> Seq<Seq<char>>
    decreases s.len(),
{
    if s.len() == 0 {
        seq![]
    } else {
        let rest = split_white_space(s.drop_last());
        let c = s.last();
        if is_white_space(c) {
            rest
        } else if s.len() >= 2 && !is_white_space(s[s.len() - 2]) {
            rest.update(rest.len() - 1, rest.last().push(c))
        } else {
            rest.push(seq![c])
        }
    }
}

/// Whether `c` is an ASCII decimal digit.
pub open spec fn is_digit(c: char) -> bool {
    '0' <= c <= '9'
}

/// The value of a string of decimal digits.
pub open spec fn digits_value(d: Seq<char>) -> nat
    decreases d.len(),
{
    if d.len() == 0 {
        0
    } else {
        digits_value(d.drop_last()) * 10 + ((d.last() as u32) - 48) as nat
    }
}

/// The digits part of a number: the text without one leading `+`.
pub open spec fn unsigned_digits(s: Seq<char>) -> Seq<char> {
    if s.len() > 0 && s[0] == '+' {
        s.drop_first()
    } else {
        s
    }
}

/// Whether every character is an ASCII digit.
pub open spec fn all_digits(d: Seq<char>) -> bool {
    forall|i: int| 0 <= i < d.len() ==> is_digit(#[trigger] d[i])
}

/// `u32::from_str`: an optional `+`, then at least one ASCII digit, with a value that fits.
pub open spec fn spec_parse_u32(s: Seq<char>) -> Option<u32> {
    let digits = unsigned_digits(s);
    if digits.len() == 0 {
        None
    } else if all_digits(digits) && digits_value(digits) <= u32::MAX {
        Some(digits_value(digits) as u32)
    } else {
        None
    }
}

/// A day of the week.
#[derive(Debug, Clone, Copy, PartialEq, Eq)]
pub enum Weekday {
    Mon,
    Tue,
    Wed,
    Thu,
    Fri,
    Sat,
    Sun,
}

/// Days from Monday: 0 for Monday up to 6 for Sunday.
pub open spec fn spec_days_from_monday(d: Weekday) -> u32 {
    match d {
        Weekday::Mon => 0,
        Weekday::Tue => 1,
        Weekday::Wed => 2,
        Weekday::Thu => 3,
        Weekday::Fri => 4,
        Weekday::Sat => 5,
        Weekday::Sun => 6,
    }
}

/// The weekday of a cron day-of-week number (0 = Sunday up to 6 = Saturday).
pub open spec fn spec_cron_weekday(dow: u32) -> Weekday {
    if dow == 0 {
        Weekday::Sun
    } else if dow == 1 {
        Weekday::Mon
    } else if dow == 2 {
        Weekday::Tue
    } else if dow == 3 {
        Weekday::Wed
    } else if dow == 4 {
        Weekday::Thu
    } else if dow == 5 {
        Weekday::Fri
    } else {
        Weekday::Sat
    }
}

impl Weekday {
    /// Days from Monday (`chrono::Weekday::num_days_from_monday`).
    pub fn num_days_from_monday(&self) -> (res: u32)
        ensures
            res == spec_days_from_monday(*self),
    {
        match self {
            Weekday::Mon => 0,
            Weekday::Tue => 1,
            Weekday::Wed => 2,
            Weekday::Thu => 3,
            Weekday::Fri => 4,
            Weekday::Sat => 5,
            Weekday::Sun => 6,
        }
    }
}

/// The weekly schedule of a cron expression: `(minute, hour, weekday)`, or `None` where the
/// expression has not five fields, a day-of-month or month other than `*`, a field that is
/// no number, a minute from 60, an hour from 24 or a day of week above 6.
pub open spec fn spec_parse_weekly_cron(expr: Seq<char>) -> Option<(u32, u32, Weekday)> {
    let f = split_white_space(expr);
    if f.len() != 5 || f[2] != "*"@ || f[3] != "*"@ {
        None
    } else {
        match (spec_parse_u32(f[0]), spec_parse_u32(f[1]), spec_parse_u32(f[4])) {
            (Some(minute), Some(hour), Some(dow)) => {
                if minute >= 60 || hour >= 24 || dow > 6 {
                    None
                } else {
                    Some((minute, hour, spec_cron_weekday(dow)))
                }
            },
            _ => None,
        }
    }
}

fn white_space(c: char) -> (res: bool)
    ensures
        res == is_white_space(c),
{
    let v = c as u32;
    v == 0x20 || (0x09 <= v && v <= 0x0d) || v == 0x85 || v == 0xa0 || v == 0x1680 || (0x2000
        <= v && v <= 0x200a) || v == 0x2028 || v == 0x2029 || v == 0x202f || v == 0x205f || v
        == 0x3000
}

/// Splits text into its white-space separated fields.
pub fn split_fields(s: &[char]) -> (res: Vec<Vec<char>>)
    ensures
        res@.len() == split_white_space(s@).len(),
        forall|i: int| 0 <= i < res@.len() ==> #[trigger] res@[i]@ == split_white_space(s@)[i],
{
    let mut fields: Vec<Vec<char>> = Vec::new();
    let mut i: usize = 0;
    while i < s.len()
        invariant
            0 <= i <= s@.len(),
            fields@.len() == split_white_space(s@.take(i as int)).len(),
            forall|j: int|
                0 <= j < fields@.len() ==> #[trigger] fields@[j]@ == split_white_space(
                    s@.take(i as int),
                )[j],
        decreases s@.len() - i,
    {
        let c = s[i];
        proof {
            assert(s@.take(i + 1).drop_last() =~= s@.take(i as int));
            assert(s@.take(i + 1).last() == c);
        }
        if white_space(c) {
        } else if i >= 1 && !white_space(s[i - 1]) {
            proof {
                assert(s@.take(i + 1)[i - 1] == s@[i - 1]);
                assert(fields@.len() > 0) by {
                    if fields@.len() == 0 {
                        let t = s@.take(i as int);
                        assert(t.last() == s@[i - 1]);
                        assert(split_white_space(t).len() > 0) by {
                            lemma_split_nonempty_when_last_not_space(t);
                        }
                    }
                }
            }
            let last = fields.len() - 1;
            let mut f = fields[last].clone();
            f.push(c);
            fields.set(last, f);
        } else {
            let mut f: Vec<char> = Vec::new();
            f.push(c);
            fields.push(f);
            proof {
                if i >= 1 {
                    assert(s@.take(i + 1)[i - 1] == s@[i - 1]);
                }
            }
        }
        i = i + 1;
        proof {
            let ghost t = s@.take(i as int);
            assert forall|j: int| 0 <= j < fields@.len() implies #[trigger] fields@[j]@
                == split_white_space(t)[j] by {}
        }
    }
    proof {
        assert(s@.take(s@.len() as int) =~= s@);
    }
    fields
}

/// A text that ends in a non-space character has at least one field.
proof fn lemma_split_nonempty_when_last_not_space(t: Seq<char>)
    requires
        t.len() > 0,
        !is_white_space(t.last()),
    ensures
        split_white_space(t).len() > 0,
    decreases t.len(),
{
    if t.len() >= 2 && !is_white_space(t[t.len() - 2]) {
        lemma_split_nonempty_when_last_not_space(t.drop_last());
    }
}


/// A longer run of digits is worth at least as much as its prefix.
proof fn lemma_digits_value_prefix_monotone(d: Seq<char>, a: int, b: int)
    requires
        0 <= a <= b <= d.len(),
        forall|i: int| 0 <= i < d.len() ==> is_digit(#[trigger] d[i]),
    ensures
        digits_value(d.take(a)) <= digits_value(d.take(b)),
    decreases b - a,
{
    if a < b {
        lemma_digits_value_prefix_monotone(d, a, b - 1);
        assert(d.take(b).drop_last() =~= d.take(b - 1));
        assert(is_digit(d[b - 1]));
    }
}

/// Parses a decimal `u32` like `u32::from_str`.
pub fn parse_u32(s: &[char]) -> (res: Option<u32>)
    ensures
        res == spec_parse_u32(s@),
{
    let ghost digits = unsigned_digits(s@);
    let mut start: usize = 0;
    if s.len() > 0 && s[0] == '+' {
        start = 1;
    }
    if start >= s.len() {
        return None;
    }
    proof {
        assert(digits =~= s@.subrange(start as int, s@.len() as int));
    }
    let mut acc: u32 = 0;
    let mut i: usize = start;
    while i < s.len()
        invariant
            start <= i <= s@.len(),
            start <= 1,
            digits == s@.subrange(start as int, s@.len() as int),
            digits == unsigned_digits(s@),
            forall|j: int| 0 <= j < i - start ==> is_digit(#[trigger] digits[j]),
            acc as nat == digits_value(digits.take(i - start)),
        decreases s@.len() - i,
    {
        let c = s[i];
        proof {
            assert(digits[i - start] == c);
            assert(digits.take(i - start + 1).drop_last() =~= digits.take(i - start));
            assert(digits.take(i - start + 1).last() == c);
        }
        if !('0' <= c && c <= '9') {
            proof {
                assert(!is_digit(digits[i - start]));
                assert(!all_digits(digits));
            }
            return None;
        }
        let d: u32 = (c as u32) - 48;
        let next = match acc.checked_mul(10) {
            Some(m) => m.checked_add(d),
            None => None,
        };
        match next {
            Some(v) => {
                acc = v;
            },
            None => {
                proof {
                    assert(digits_value(digits.take(i - start + 1)) > u32::MAX);
                    if all_digits(digits) {
                        lemma_digits_value_prefix_monotone(digits, i - start + 1, digits.len() as int);
                        assert(digits.take(digits.len() as int) =~= digits);
                    }
                }
                return None;
            },
        }
        i = i + 1;
    }
    proof {
        assert(digits.take(i - start) =~= digits);
    }
    Some(acc)
}


/// Parses the weekly schedule of a cron expression.
pub fn parse_weekly_cron(expr: &str) -> (res: Option<(u32, u32, Weekday)>)
    ensures
        res == spec_parse_weekly_cron(expr@),
{
    let chars = str_chars(expr);
    let fields = split_fields(chars.as_slice());
    if fields.len() != 5 {
        return None;
    }
    let mut star: Vec<char> = Vec::new();
    star.push('*');
    proof {
        reveal_strlit("*");
        assert(star@ =~= "*"@);
    }
    if !chars_eq(fields[2].as_slice(), star.as_slice()) || !chars_eq(
        fields[3].as_slice(),
        star.as_slice(),
    ) {
        return None;
    }
    let minute = match parse_u32(fields[0].as_slice()) {
        Some(v) => v,
        None => {
            return None;
        },
    };
    let hour = match parse_u32(fields[1].as_slice()) {
        Some(v) => v,
        None => {
            return None;
        },
    };
    let dow = match parse_u32(fields[4].as_slice()) {
        Some(v) => v,
        None => {
            return None;
        },
    };
    if minute >= 60 || hour >= 24 || dow > 6 {
        return None;
    }
    let weekday = match dow {
        0 => Weekday::Sun,
        1 => Weekday::Mon,
        2 => Weekday::Tue,
        3 => Weekday::Wed,
        4 => Weekday::Thu,
        5 => Weekday::Fri,
        _ => Weekday::Sat,
    };
    Some((minute, hour, weekday))
}

/// The current UTC time as the schedule reads it: the weekday, the second of the day and
/// the nanosecond within that second.
#[derive(Debug, Clone, Copy, PartialEq, Eq)]
pub struct UtcClock {
    /// Days from Monday (0 to 6).
    pub days_from_monday: u32,
    /// Seconds since midnight (below 86400).
    pub seconds_of_day: u32,
    /// Nanoseconds within the second (below one billion).
    pub nanos: u32,
}

/// A wait of `secs` seconds and `nanos` nanoseconds.
#[derive(Debug, Clone, Copy, PartialEq, Eq)]
pub struct SleepDuration {
    pub secs: u64,
    pub nanos: u32,
}

/// A clock reading within its ranges.
pub open spec fn clock_ok(now: UtcClock) -> bool {
    now.days_from_monday < 7 && now.seconds_of_day < 86400 && now.nanos < 1_000_000_000
}

/// Nanoseconds since the start of the week (Monday 00:00) of a clock reading.
pub open spec fn week_position_ns(now: UtcClock) -> int {
    (now.days_from_monday * 86400 + now.seconds_of_day) * 1_000_000_000 + now.nanos
}

/// Nanoseconds since the start of the week of `weekday` at `hour:minute:00`.
pub open spec fn target_position_ns(weekday: Weekday, hour: u32, minute: u32) -> int {
    (spec_days_from_monday(weekday) * 86400 + hour * 3600 + minute * 60) * 1_000_000_000
}

/// The length of a wait in nanoseconds.
pub open spec fn duration_ns(d: SleepDuration) -> int {
    d.secs * 1_000_000_000 + d.nanos
}

/// Nanoseconds in a week.
pub open spec fn week_ns() -> int {
    604_800_000_000_000
}

/// `d` is the wait from `now` to the next `weekday` at `hour:minute:00` strictly after
/// `now`: positive, at most one week, and it lands on that time of the week.
pub open spec fn waits_until(now: UtcClock, weekday: Weekday, hour: u32, minute: u32, d: SleepDuration) -> bool {
    &&& d.nanos < 1_000_000_000
    &&& 0 < duration_ns(d) <= week_ns()
    &&& (week_position_ns(now) + duration_ns(d)) % week_ns() == target_position_ns(weekday, hour, minute)
}

/// The wait until the next `weekday` at `hour:minute:00` UTC strictly after `now`.
pub fn duration_until_next_weekday_time(weekday: Weekday, hour: u32, minute: u32, now: UtcClock) -> (res: SleepDuration)
    requires
        hour < 24,
        minute < 60,
        clock_ok(now),
    ensures
        waits_until(now, weekday, hour, minute, res),
{
    let now_weekday_num = now.days_from_monday;
    let target_weekday_num = weekday.num_days_from_monday();
    let days_diff: u32 = if target_weekday_num > now_weekday_num {
        target_weekday_num - now_weekday_num
    } else if target_weekday_num < now_weekday_num {
        7 - (now_weekday_num - target_weekday_num)
    } else {
        0
    };
    let time_of_day: u64 = hour as u64 * 3600 + minute as u64 * 60;
    let mut target: u64 = days_diff as u64 * 86400 + time_of_day;
    let sod = now.seconds_of_day as u64;
    if target <= sod {
        target = target + 604800;
    }
    let res = if now.nanos == 0 {
        SleepDuration { secs: target - sod, nanos: 0 }
    } else {
        SleepDuration { secs: target - sod - 1, nanos: 1_000_000_000 - now.nanos }
    };
    proof {
        let n: int = 1_000_000_000;
        let wd = now_weekday_num as int;
        let twd = target_weekday_num as int;
        let k: int = (if (wd + days_diff) >= 7 { 1int } else { 0int }) + (if target >= 604800 + days_diff * 86400 { 1int } else { 0int });
        assert(duration_ns(res) == target * n - (sod * n + now.nanos));
        assert(wd * 86400 + target == twd * 86400 + time_of_day + k * 604800);
        assert(week_position_ns(now) + duration_ns(res) == (wd * 86400 + target) * n);
        let a: int = (twd * 86400 + time_of_day) * n;
        assert(a < week_ns());
        assert(week_position_ns(now) + duration_ns(res) == week_ns() * k + a);
        lemma_mod_multiples_vanish(k, a, week_ns());
        lemma_small_mod(a as nat, week_ns() as nat);
    }
    res
}

/// The wait before the next verification run: until the scheduled time of a weekly cron
/// expression, or a full week where the expression does not parse.
pub fn next_sleep_duration(cron_expr: &str, now: UtcClock) -> (res: SleepDuration)
    requires
        clock_ok(now),
    ensures
        match spec_parse_weekly_cron(cron_expr@) {
            Some((minute, hour, weekday)) => waits_until(now, weekday, hour, minute, res),
            None => res.secs == 7 * 24 * 3600 && res.nanos == 0,
        },
{
    match parse_weekly_cron(cron_expr) {
        Some((minute, hour, weekday)) => duration_until_next_weekday_time(weekday, hour, minute, now),
        None => SleepDuration { secs: 7 * 24 * 3600, nanos: 0 },
    }
}


/// Weekdays are counted from Monday: Monday 0, Tuesday 1, ... Sunday 6
/// (`chrono::Weekday::num_days_from_monday`).
pub proof fn law_weekday_numbers()
    ensures
        spec_days_from_monday(Weekday::Mon) == 0,
        spec_days_from_monday(Weekday::Tue) == 1,
        spec_days_from_monday(Weekday::Wed) == 2,
        spec_days_from_monday(Weekday::Thu) == 3,
        spec_days_from_monday(Weekday::Fri) == 4,
        spec_days_from_monday(Weekday::Sat) == 5,
        spec_days_from_monday(Weekday::Sun) == 6,
{
}

/// A parsed weekly schedule takes its minute and hour from the first two fields, and its
/// weekday from the day-of-week field `d` (0 = Sunday ... 6 = Saturday): the `d`-th day
/// counted from Sunday, which is `(d + 6) % 7` days after Monday.
pub proof fn law_cron_fields(expr: Seq<char>)
    ensures
        match spec_parse_weekly_cron(expr) {
            Some((minute, hour, weekday)) => {
                let f = split_white_space(expr);
                &&& f.len() == 5
                &&& f[2] == "*"@ && f[3] == "*"@
                &&& spec_parse_u32(f[0]) == Some(minute) && minute < 60
                &&& spec_parse_u32(f[1]) == Some(hour) && hour < 24
                &&& spec_parse_u32(f[4]) matches Some(d) && d <= 6
                    && spec_days_from_monday(weekday) == (d + 6) % 7
            },
            None => true,
        },
{
}

} // verus!

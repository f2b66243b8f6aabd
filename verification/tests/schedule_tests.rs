use wnav_core::schedule::{duration_until_next_weekday_time, next_sleep_duration, parse_u32, parse_weekly_cron, split_fields, SleepDuration, UtcClock, Weekday};

fn clock(days_from_monday: u32, h: u32, m: u32, s: u32, nanos: u32) -> UtcClock {
    UtcClock { days_from_monday, seconds_of_day: h * 3600 + m * 60 + s, nanos }
}

fn chars(s: &str) -> Vec<char> {
    s.chars().collect()
}

#[test]
fn parses_weekly_cron() {
    assert_eq!(parse_weekly_cron("0 3 * * 1"), Some((0, 3, Weekday::Mon)));
    assert_eq!(parse_weekly_cron("30 23 * * 0"), Some((30, 23, Weekday::Sun)));
    assert_eq!(parse_weekly_cron("  15\t4 *  * 6 "), Some((15, 4, Weekday::Sat)));
    assert_eq!(parse_weekly_cron("+5 3 * * 1"), Some((5, 3, Weekday::Mon)));
}

#[test]
fn rejects_other_cron_forms() {
    assert_eq!(parse_weekly_cron("0 3 * * 7"), None);
    assert_eq!(parse_weekly_cron("60 3 * * 1"), None);
    assert_eq!(parse_weekly_cron("0 24 * * 1"), None);
    assert_eq!(parse_weekly_cron("0 3 1 * 1"), None);
    assert_eq!(parse_weekly_cron("0 3 * 2 1"), None);
    assert_eq!(parse_weekly_cron("0 3 * *"), None);
    assert_eq!(parse_weekly_cron("0 3 * * 1 2017"), None);
    assert_eq!(parse_weekly_cron("a 3 * * 1"), None);
    assert_eq!(parse_weekly_cron("-1 3 * * 1"), None);
    assert_eq!(parse_weekly_cron(""), None);
}

#[test]
fn parses_u32_like_std() {
    for s in ["0", "42", "+7", "4294967295", "4294967296", "", "+", "-1", "1a", "007"] {
        assert_eq!(parse_u32(&chars(s)), s.parse::<u32>().ok(), "{s}");
    }
}

#[test]
fn splits_like_split_whitespace() {
    for s in ["a b  c", "  lead", "trail  ", "", "   ", "x\u{3000}y\u{a0}z", "one"] {
        let want: Vec<Vec<char>> = s.split_whitespace().map(|w| w.chars().collect()).collect();
        assert_eq!(split_fields(&chars(s)), want, "{s:?}");
    }
}

#[test]
fn waits_until_the_next_slot() {
    // Monday 02:00 to Monday 03:00
    assert_eq!(
        duration_until_next_weekday_time(Weekday::Mon, 3, 0, clock(0, 2, 0, 0, 0)),
        SleepDuration { secs: 3600, nanos: 0 }
    );
    // exactly at the slot: a full week
    assert_eq!(
        duration_until_next_weekday_time(Weekday::Mon, 3, 0, clock(0, 3, 0, 0, 0)),
        SleepDuration { secs: 604_800, nanos: 0 }
    );
    // half a second past the slot
    assert_eq!(
        duration_until_next_weekday_time(Weekday::Mon, 3, 0, clock(0, 3, 0, 0, 500_000_000)),
        SleepDuration { secs: 604_799, nanos: 500_000_000 }
    );
    // Sunday 23:59:59 to Monday 03:00
    assert_eq!(
        duration_until_next_weekday_time(Weekday::Mon, 3, 0, clock(6, 23, 59, 59, 0)),
        SleepDuration { secs: 10_801, nanos: 0 }
    );
    // Wednesday noon to Tuesday 00:30
    assert_eq!(
        duration_until_next_weekday_time(Weekday::Tue, 0, 30, clock(2, 12, 0, 0, 0)),
        SleepDuration { secs: 5 * 86400 + 12 * 3600 + 1800, nanos: 0 }
    );
}

#[test]
fn wait_is_positive_and_at_most_a_week() {
    let days = [Weekday::Mon, Weekday::Tue, Weekday::Wed, Weekday::Thu, Weekday::Fri, Weekday::Sat, Weekday::Sun];
    for (ti, wd) in days.iter().enumerate() {
        for d in 0..7u32 {
            for sod in [0u32, 1, 10_799, 10_800, 10_801, 86_399] {
                for nanos in [0u32, 1, 999_999_999] {
                    let now = UtcClock { days_from_monday: d, seconds_of_day: sod, nanos };
                    let w = duration_until_next_weekday_time(*wd, 3, 0, now);
                    let total = w.secs as u128 * 1_000_000_000 + w.nanos as u128;
                    assert!(total > 0 && total <= 604_800_000_000_000);
                    let pos = ((d as u128 * 86400 + sod as u128) * 1_000_000_000 + nanos as u128 + total) % 604_800_000_000_000;
                    assert_eq!(pos, (ti as u128 * 86400 + 10_800) * 1_000_000_000);
                }
            }
        }
    }
}

#[test]
fn sleep_from_cron_or_a_week() {
    assert_eq!(next_sleep_duration("0 3 * * 1", clock(0, 2, 0, 0, 0)), SleepDuration { secs: 3600, nanos: 0 });
    assert_eq!(next_sleep_duration("not a cron", clock(3, 1, 2, 3, 4)), SleepDuration { secs: 604_800, nanos: 0 });
    assert_eq!(next_sleep_duration("0 3 * * 8", clock(0, 2, 0, 0, 0)), SleepDuration { secs: 604_800, nanos: 0 });
}

#[test]
fn weekday_numbers() {
    assert_eq!(Weekday::Mon.num_days_from_monday(), 0);
    assert_eq!(Weekday::Sun.num_days_from_monday(), 6);
}

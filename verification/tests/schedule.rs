use fvs_notify::calendar::{LocalDateTime, Weekday};
use fvs_notify::schedule::{
    can_work, is_monday, within_active_window, PollPolicy, DAILY_INTERVAL_SECS,
    MONDAY_INTERVAL_SECS, SIMPLE_INTERVAL_SECS,
};

const DAYS: [Weekday; 7] = [
    Weekday::Mon,
    Weekday::Tue,
    Weekday::Wed,
    Weekday::Thu,
    Weekday::Fri,
    Weekday::Sat,
    Weekday::Sun,
];

fn at(year: i32, month: u32, day: u32, hour: u32) -> LocalDateTime {
    LocalDateTime::new(year, month, day, hour, 0, 0).unwrap()
}

#[test]
fn test_weekday_morning() {
    // 2024-03-18 is a Monday; eight o'clock is before the window opens.
    let dt = LocalDateTime::new(2024, 3, 18, 8, 0, 0).unwrap();
    assert!(!can_work(&dt));
}

#[test]
fn test_weekday_evening() {
    // 2024-03-18 is a Monday; nine in the evening is inside the window.
    let dt = LocalDateTime::new(2024, 3, 18, 21, 0, 0).unwrap();
    assert!(can_work(&dt));
}

#[test]
fn test_weekday_morning_boundaries() {
    // 2024-03-16 is a Saturday.
    let dt = LocalDateTime::new(2024, 3, 16, 10, 0, 0).unwrap();
    assert!(!can_work(&dt));
}

#[test]
fn the_window_opens_at_nine_and_stays_open_until_midnight() {
    // 2024-03-20 is a Wednesday.
    for hour in 0..9 {
        assert!(!can_work(&at(2024, 3, 20, hour)));
    }
    for hour in 9..24 {
        assert!(can_work(&at(2024, 3, 20, hour)));
    }
    assert!(!can_work(&LocalDateTime::new(2024, 3, 20, 8, 59, 59).unwrap()));
    assert!(can_work(&LocalDateTime::new(2024, 3, 20, 23, 59, 59).unwrap()));
}

#[test]
fn the_window_is_closed_at_the_weekend() {
    for hour in 0..24 {
        assert!(!can_work(&at(2024, 3, 16, hour)));
        assert!(!can_work(&at(2024, 3, 17, hour)));
    }
}

#[test]
fn the_window_is_open_from_monday_to_friday() {
    for day in 18..=22 {
        assert!(can_work(&at(2024, 3, day, 12)));
        assert!(!can_work(&at(2024, 3, day, 3)));
    }
}

#[test]
fn within_active_window_by_day_and_hour() {
    for day in DAYS {
        let working = day != Weekday::Sat && day != Weekday::Sun;
        for hour in 0..30 {
            assert_eq!(within_active_window(day, hour), working && (9..24).contains(&hour));
        }
    }
    assert!(!within_active_window(Weekday::Mon, 24));
    assert!(!within_active_window(Weekday::Mon, u32::MAX));
}

#[test]
fn is_monday_on_mondays_only() {
    assert!(is_monday(&at(2024, 3, 18, 0)));
    assert!(is_monday(&at(2024, 3, 25, 23)));
    assert!(!is_monday(&at(2024, 3, 16, 10)));
    assert!(!is_monday(&at(2024, 3, 17, 10)));
    assert!(!is_monday(&at(2024, 3, 19, 10)));
}

#[test]
fn day_aware_interval_is_short_on_mondays() {
    assert_eq!(MONDAY_INTERVAL_SECS, 30);
    assert_eq!(DAILY_INTERVAL_SECS, 5 * 60);
    let policy = PollPolicy::DayAware;
    assert_eq!(policy.interval_secs(&at(2024, 3, 18, 3)), 30);
    assert_eq!(policy.interval_secs(&at(2024, 3, 19, 12)), 300);
    assert_eq!(policy.interval_secs(&at(2024, 3, 16, 12)), 300);
    assert_eq!(policy.interval_secs(&at(2024, 3, 17, 12)), 300);
    for day in DAYS {
        let expected = if day == Weekday::Mon { 30 } else { 300 };
        assert_eq!(policy.interval_secs_on(day), expected);
    }
}

#[test]
fn simple_interval_is_two_minutes_every_day() {
    assert_eq!(SIMPLE_INTERVAL_SECS, 2 * 60);
    let policy = PollPolicy::Simple;
    for day in 16..=22 {
        assert_eq!(policy.interval_secs(&at(2024, 3, day, 12)), 120);
    }
    for day in DAYS {
        assert_eq!(policy.interval_secs_on(day), 120);
    }
}

#[test]
fn day_aware_policy_is_active_inside_the_window() {
    let policy = PollPolicy::DayAware;
    assert!(!policy.is_active(&at(2024, 3, 16, 10)));
    assert!(!policy.is_active(&at(2024, 3, 18, 8)));
    assert!(policy.is_active(&at(2024, 3, 18, 9)));
    assert!(policy.is_active(&at(2024, 3, 18, 21)));
    for day in DAYS {
        for hour in 0..24 {
            assert_eq!(policy.permits(day, hour), within_active_window(day, hour));
        }
    }
}

#[test]
fn simple_policy_is_always_active() {
    let policy = PollPolicy::Simple;
    for day in 16..=22 {
        for hour in 0..24 {
            assert!(policy.is_active(&at(2024, 3, day, hour)));
        }
    }
    for day in DAYS {
        for hour in 0..24 {
            assert!(policy.permits(day, hour));
        }
    }
}

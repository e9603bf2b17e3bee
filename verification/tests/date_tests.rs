use cal_navigate::date::{
    add_days, add_months, days_in_month, month_name, next_day, prev_day, sunday_start_index,
    weekday_of, Date, Weekday,
};

fn d(year: i32, month: u32, day: u32) -> Date {
    Date::new(year, month, day).unwrap()
}

#[test]
fn days_in_month_leap_year() {
    let expected = [31, 29, 31, 30, 31, 30, 31, 31, 30, 31, 30, 31];
    for m in 1..=12u32 {
        assert_eq!(days_in_month(2024, m), expected[(m - 1) as usize]);
    }
}

#[test]
fn days_in_month_common_year() {
    let expected = [31, 28, 31, 30, 31, 30, 31, 31, 30, 31, 30, 31];
    for m in 1..=12u32 {
        assert_eq!(days_in_month(2023, m), expected[(m - 1) as usize]);
    }
}

#[test]
fn days_in_month_century_rule() {
    assert_eq!(days_in_month(1900, 2), 28);
    assert_eq!(days_in_month(2000, 2), 29);
    assert_eq!(days_in_month(2100, 2), 28);
}

#[test]
fn month_name_all_months() {
    let names = [
        "January",
        "February",
        "March",
        "April",
        "May",
        "June",
        "July",
        "August",
        "September",
        "October",
        "November",
        "December",
    ];
    for m in 1..=12u32 {
        assert_eq!(month_name(m), names[(m - 1) as usize]);
    }
    assert_eq!(month_name(0), "Unknown");
    assert_eq!(month_name(13), "Unknown");
}

#[test]
fn add_months_clamps_to_short_month() {
    assert_eq!(add_months(d(2023, 1, 31), 1), Some(d(2023, 2, 28)));
    assert_eq!(add_months(d(2024, 1, 31), 1), Some(d(2024, 2, 29)));
}

#[test]
fn add_months_year_jump_clamps_leap_day() {
    assert_eq!(add_months(d(2024, 2, 29), 12), Some(d(2025, 2, 28)));
    assert_eq!(add_months(d(2024, 2, 29), -12), Some(d(2023, 2, 28)));
}

#[test]
fn add_months_round_trip_plain_day() {
    let start = d(2023, 5, 15);
    let forward = add_months(start, 12).unwrap();
    assert_eq!(forward, d(2024, 5, 15));
    assert_eq!(add_months(forward, -12), Some(start));
}

#[test]
fn add_months_normalizes_year_carries() {
    assert_eq!(add_months(d(2023, 11, 10), 3), Some(d(2024, 2, 10)));
    assert_eq!(add_months(d(2023, 2, 10), -14), Some(d(2021, 12, 10)));
}

#[test]
fn add_months_out_of_range() {
    assert_eq!(add_months(d(9999, 10, 1), 3), None);
    assert_eq!(add_months(d(1, 2, 1), -2), None);
}

#[test]
fn sunday_start_index_is_bijective() {
    let all = [
        Weekday::Sun,
        Weekday::Mon,
        Weekday::Tue,
        Weekday::Wed,
        Weekday::Thu,
        Weekday::Fri,
        Weekday::Sat,
    ];
    let mut seen = [false; 7];
    for w in all {
        let c = sunday_start_index(w) as usize;
        assert!(c < 7);
        assert!(!seen[c]);
        seen[c] = true;
    }
    assert!(seen.iter().all(|&s| s));
    assert_eq!(sunday_start_index(Weekday::Sun), 0);
    assert_eq!(sunday_start_index(Weekday::Sat), 6);
}

#[test]
fn weekday_of_known_dates() {
    assert_eq!(weekday_of(d(2024, 3, 15)), Weekday::Fri);
    assert_eq!(weekday_of(d(2024, 3, 1)), Weekday::Fri);
    assert_eq!(weekday_of(d(2023, 1, 1)), Weekday::Sun);
    assert_eq!(weekday_of(d(1970, 1, 1)), Weekday::Thu);
    assert_eq!(weekday_of(d(2000, 2, 29)), Weekday::Tue);
    assert_eq!(weekday_of(d(1, 1, 1)), Weekday::Mon);
}

#[test]
fn next_and_prev_day_cross_boundaries() {
    assert_eq!(next_day(d(2024, 2, 28)), Some(d(2024, 2, 29)));
    assert_eq!(next_day(d(2023, 2, 28)), Some(d(2023, 3, 1)));
    assert_eq!(next_day(d(2024, 12, 31)), Some(d(2025, 1, 1)));
    assert_eq!(prev_day(d(2024, 3, 1)), Some(d(2024, 2, 29)));
    assert_eq!(prev_day(d(2025, 1, 1)), Some(d(2024, 12, 31)));
}

#[test]
fn next_and_prev_day_at_range_ends() {
    assert_eq!(next_day(d(9999, 12, 31)), None);
    assert_eq!(prev_day(d(1, 1, 1)), None);
}

#[test]
fn add_days_steps_weeks() {
    assert_eq!(add_days(d(2024, 3, 4), 7), Some(d(2024, 3, 11)));
    assert_eq!(add_days(d(2024, 3, 4), -7), Some(d(2024, 2, 26)));
    assert_eq!(add_days(d(2023, 12, 28), 7), Some(d(2024, 1, 4)));
    assert_eq!(add_days(d(1, 1, 3), -7), None);
    assert_eq!(add_days(d(9999, 12, 28), 7), None);
}

#[test]
fn date_new_rejects_impossible_days() {
    assert_eq!(Date::new(2023, 2, 29), None);
    assert_eq!(Date::new(2024, 2, 30), None);
    assert_eq!(Date::new(2024, 0, 1), None);
    assert_eq!(Date::new(2024, 13, 1), None);
    assert_eq!(Date::new(0, 6, 1), None);
    assert_eq!(Date::new(10000, 6, 1), None);
    assert!(Date::new(2024, 2, 29).is_some());
}

use bigneon_core::dates::date_time_seconds;
use chrono::NaiveDate;

#[test]
fn timestamps_match_the_calendar() {
    // The library's conversion agrees with the calendar library it relies
    // on, so a conversion that handed anything else back would be caught.
    let cases = [
        (1970, 1, 1, 0, 0, 0),
        (2016, 7, 8, 4, 10, 11),
        (2018, 5, 1, 6, 20, 21),
        (2018, 6, 2, 7, 45, 31),
        (2000, 2, 29, 23, 59, 59),
        (1969, 12, 31, 23, 59, 59),
    ];
    for (year, month, day, hour, minute, second) in cases {
        let expected = NaiveDate::from_ymd_opt(year, month, day)
            .unwrap()
            .and_hms_opt(hour, minute, second)
            .unwrap()
            .and_utc()
            .timestamp();
        assert_eq!(
            date_time_seconds(year, month, day, hour, minute, second),
            Some(expected)
        );
    }
    assert_eq!(date_time_seconds(1970, 1, 1, 0, 0, 0), Some(0));
}

#[test]
fn invalid_dates_convert_to_nothing() {
    assert_eq!(date_time_seconds(2023, 4, 31, 0, 0, 0), None);
    assert_eq!(date_time_seconds(2023, 2, 29, 0, 0, 0), None);
    assert_eq!(date_time_seconds(2023, 13, 1, 0, 0, 0), None);
    assert_eq!(date_time_seconds(2023, 0, 1, 0, 0, 0), None);
    assert_eq!(date_time_seconds(2023, 1, 0, 0, 0, 0), None);
    assert_eq!(date_time_seconds(2023, 1, 1, 24, 0, 0), None);
    assert_eq!(date_time_seconds(2023, 1, 1, 0, 60, 0), None);
    assert_eq!(date_time_seconds(2023, 1, 1, 0, 0, 60), None);
}

#[test]
fn leap_days_convert() {
    assert!(date_time_seconds(2024, 2, 29, 12, 0, 0).is_some());
    assert!(date_time_seconds(1900, 2, 29, 12, 0, 0).is_none());
    assert!(date_time_seconds(2000, 2, 29, 12, 0, 0).is_some());
}

use avalanche_report::calendar::{
    civil_seconds_of, count_days_before_year, leap_year, month_length, parse_time_literal,
    NaiveDateTime,
};

#[test]
fn leap_year_rules() {
    assert!(leap_year(2024));
    assert!(!leap_year(2023));
    assert!(!leap_year(1900));
    assert!(leap_year(2000));
    assert!(leap_year(0));
}

#[test]
fn month_lengths() {
    assert_eq!(month_length(2023, 1), 31);
    assert_eq!(month_length(2023, 2), 28);
    assert_eq!(month_length(2024, 2), 29);
    assert_eq!(month_length(2023, 4), 30);
    assert_eq!(month_length(2023, 12), 31);
}

#[test]
fn epoch_is_zero() {
    let epoch = NaiveDateTime { year: 1970, month: 1, day: 1, hour: 0, minute: 0 };
    assert_eq!(civil_seconds_of(&epoch), 0);
}

#[test]
fn civil_seconds_known_values() {
    let dt = NaiveDateTime { year: 2023, month: 1, day: 24, hour: 17, minute: 0 };
    assert_eq!(civil_seconds_of(&dt), 1674579600);
    let before_epoch = NaiveDateTime { year: 1969, month: 12, day: 31, hour: 23, minute: 59 };
    assert_eq!(civil_seconds_of(&before_epoch), -60);
    let y2k = NaiveDateTime { year: 2000, month: 3, day: 1, hour: 0, minute: 0 };
    assert_eq!(civil_seconds_of(&y2k), 951868800);
}

#[test]
fn days_before_epoch_year() {
    assert_eq!(count_days_before_year(1970), 719528);
    assert_eq!(count_days_before_year(0), 0);
    assert_eq!(count_days_before_year(1), 366);
}

#[test]
fn parses_a_nominal_literal() {
    let dt = parse_time_literal("2023-01-24T17:00").unwrap();
    assert_eq!(
        dt,
        NaiveDateTime { year: 2023, month: 1, day: 24, hour: 17, minute: 0 }
    );
}

#[test]
fn parses_the_earliest_literal() {
    let dt = parse_time_literal("0000-01-01T00:00").unwrap();
    assert_eq!(
        dt,
        NaiveDateTime { year: 0, month: 1, day: 1, hour: 0, minute: 0 }
    );
}

#[test]
fn rejects_wrong_shapes() {
    assert_eq!(parse_time_literal(""), None);
    assert_eq!(parse_time_literal("2023-01-24T17:0"), None);
    assert_eq!(parse_time_literal("2023-01-24T17:000"), None);
    assert_eq!(parse_time_literal("2023-01-24 17:00"), None);
    assert_eq!(parse_time_literal("2023/01/24T17:00"), None);
    assert_eq!(parse_time_literal("20a3-01-24T17:00"), None);
}

#[test]
fn rejects_out_of_range_fields() {
    assert_eq!(parse_time_literal("2023-00-24T17:00"), None);
    assert_eq!(parse_time_literal("2023-13-24T17:00"), None);
    assert_eq!(parse_time_literal("2023-01-00T17:00"), None);
    assert_eq!(parse_time_literal("2023-01-32T17:00"), None);
    assert_eq!(parse_time_literal("2023-02-29T17:00"), None);
    assert_eq!(parse_time_literal("2024-02-30T17:00"), None);
    assert_eq!(parse_time_literal("2023-01-24T24:00"), None);
    assert_eq!(parse_time_literal("2023-01-24T17:60"), None);
}

#[test]
fn accepts_leap_day() {
    let dt = parse_time_literal("2024-02-29T12:30").unwrap();
    assert_eq!(dt.day, 29);
    assert_eq!(dt.minute, 30);
}

use avalanche_report::calendar::NaiveDateTime;
use avalanche_report::timezone::{resolve_local_time, zone_is_known};

#[test]
fn known_and_unknown_zones() {
    assert!(zone_is_known("Asia/Tbilisi"));
    assert!(zone_is_known("Australia/Melbourne"));
    assert!(!zone_is_known("Not/AZone"));
    assert!(!zone_is_known(""));
}

#[test]
fn fixed_offset_zone_resolves_directly() {
    let dt = NaiveDateTime { year: 2023, month: 1, day: 24, hour: 17, minute: 0 };
    let resolved = resolve_local_time(&dt, "Asia/Tbilisi").unwrap();
    assert_eq!(resolved.wall, dt);
    assert_eq!(resolved.offset_seconds, 4 * 3600);
    assert_eq!(resolved.unix_seconds(), 1674565200);
}

#[test]
fn wall_clock_before_seasonal_transition() {
    let dt = NaiveDateTime { year: 2023, month: 10, day: 1, hour: 1, minute: 0 };
    let resolved = resolve_local_time(&dt, "Australia/Melbourne").unwrap();
    assert_eq!(resolved.offset_seconds, 10 * 3600);
    assert_eq!(resolved.unix_seconds(), 1696086000);
}

#[test]
fn wall_clock_after_seasonal_transition() {
    let dt = NaiveDateTime { year: 2023, month: 10, day: 1, hour: 2, minute: 0 };
    let resolved = resolve_local_time(&dt, "Australia/Melbourne").unwrap();
    assert_eq!(resolved.offset_seconds, 11 * 3600);
    // 02:00 at +11:00 is the very transition instant: the same one 01:00
    // named at +10:00.
    assert_eq!(resolved.unix_seconds(), 1696086000);
}

#[test]
fn unknown_zone_does_not_resolve() {
    let dt = NaiveDateTime { year: 2023, month: 1, day: 24, hour: 17, minute: 0 };
    assert!(resolve_local_time(&dt, "Not/AZone").is_none());
}

#[test]
fn latest_wall_clock_resolves_in_an_eastern_zone() {
    let dt = NaiveDateTime { year: 9999, month: 12, day: 31, hour: 23, minute: 59 };
    let resolved = resolve_local_time(&dt, "Asia/Tbilisi").unwrap();
    assert_eq!(resolved.offset_seconds, 4 * 3600);
}

#[test]
fn provisional_instant_beyond_representable_range() {
    // In a fixed UTC-12 zone the provisional instant of the latest wall-clock
    // moment lies past the last representable instant of year 9999.
    let dt = NaiveDateTime { year: 9999, month: 12, day: 31, hour: 23, minute: 59 };
    assert!(resolve_local_time(&dt, "Etc/GMT+12").is_none());
}

#[test]
fn earliest_wall_clock_resolves() {
    let dt = NaiveDateTime { year: 0, month: 1, day: 1, hour: 0, minute: 0 };
    let resolved = resolve_local_time(&dt, "Etc/GMT-14").unwrap();
    assert_eq!(resolved.offset_seconds, 14 * 3600);
}

#[test]
fn southern_winter_uses_standard_offset() {
    let dt = NaiveDateTime { year: 2023, month: 6, day: 15, hour: 12, minute: 0 };
    let resolved = resolve_local_time(&dt, "Australia/Melbourne").unwrap();
    assert_eq!(resolved.offset_seconds, 10 * 3600);
}

use chrono::{TimeZone, Timelike};
use stack_lifecycle::naming::{change_set_name_at, stamp, stamp_at, ChangeSetName, UtcStamp};

fn reading(
    year: i32,
    month: u32,
    day: u32,
    hour: u32,
    minute: u32,
    second: u32,
    nanosecond: u32,
) -> UtcStamp {
    UtcStamp::new(year, month, day, hour, minute, second, nanosecond).unwrap()
}

#[test]
fn a_name_is_the_stack_and_the_moment_to_the_microsecond() {
    let at = reading(2023, 11, 14, 22, 13, 20, 123_456_789);
    assert_eq!(change_set_name_at("demo", &at), "demo-20231114-221320-123456");
    assert_eq!(stamp(&at), "20231114-221320-123456");
}

#[test]
fn every_part_of_a_name_is_padded_with_zeros() {
    let at = reading(7, 1, 2, 3, 4, 5, 6_000);
    assert_eq!(change_set_name_at("s", &at), "s-00070102-030405-000006");
    let start = reading(0, 1, 1, 0, 0, 0, 0);
    assert_eq!(change_set_name_at("", &start), "-00000101-000000-000000");
    let end = reading(9999, 12, 31, 23, 59, 59, 999_999_999);
    assert_eq!(change_set_name_at("my-stack", &end), "my-stack-99991231-235959-999999");
}

#[test]
fn what_is_below_a_microsecond_does_not_show() {
    let a = reading(2024, 2, 29, 12, 0, 0, 1_000);
    let b = reading(2024, 2, 29, 12, 0, 0, 1_999);
    let c = reading(2024, 2, 29, 12, 0, 0, 2_000);
    assert_eq!(change_set_name_at("demo", &a), "demo-20240229-120000-000001");
    assert_eq!(change_set_name_at("demo", &a), change_set_name_at("demo", &b));
    assert_eq!(change_set_name_at("demo", &c), "demo-20240229-120000-000002");
}

#[test]
fn years_out_of_the_common_era_carry_a_sign() {
    assert_eq!(stamp(&reading(10_000, 1, 1, 0, 0, 0, 0)), "+100000101-000000-000000");
    assert_eq!(stamp(&reading(262_142, 12, 31, 0, 0, 0, 0)), "+2621421231-000000-000000");
    assert_eq!(stamp(&reading(-1, 6, 15, 1, 2, 3, 0)), "-00010615-010203-000000");
    assert_eq!(stamp(&reading(-12_345, 6, 15, 1, 2, 3, 0)), "-123450615-010203-000000");
    assert_eq!(stamp(&reading(i32::MAX, 1, 1, 0, 0, 0, 0)), "+21474836470101-000000-000000");
    assert_eq!(stamp(&reading(i32::MIN, 1, 1, 0, 0, 0, 0)), "-21474836480101-000000-000000");
}

#[test]
fn a_leap_second_is_second_sixty() {
    let at = reading(2016, 12, 31, 23, 59, 59, 1_500_000_000);
    assert_eq!(stamp(&at), "20161231-235960-500000");
}

#[test]
fn names_agree_with_what_chrono_writes() {
    let moments = [
        (2023, 11, 14, 22, 13, 20, 123_456_789),
        (1970, 1, 1, 0, 0, 0, 0),
        (1999, 12, 31, 23, 59, 59, 999_999_000),
        (2038, 1, 19, 3, 14, 7, 1),
        (12_345, 6, 7, 8, 9, 10, 11_000),
        (-44, 3, 15, 12, 0, 0, 0),
    ];
    for (year, month, day, hour, minute, second, nanosecond) in moments {
        let theirs = chrono::Utc
            .with_ymd_and_hms(year, month, day, hour, minute, second)
            .unwrap()
            .with_nanosecond(nanosecond)
            .unwrap()
            .format("%Y%m%d-%H%M%S-%6f")
            .to_string();
        let ours = stamp(&reading(year, month, day, hour, minute, second, nanosecond));
        assert_eq!(ours, theirs);
    }
}

#[test]
fn readings_must_lie_within_the_clock() {
    assert!(UtcStamp::new(2024, 0, 1, 0, 0, 0, 0).is_none());
    assert!(UtcStamp::new(2024, 13, 1, 0, 0, 0, 0).is_none());
    assert!(UtcStamp::new(2024, 1, 0, 0, 0, 0, 0).is_none());
    assert!(UtcStamp::new(2024, 1, 32, 0, 0, 0, 0).is_none());
    assert!(UtcStamp::new(2024, 1, 1, 24, 0, 0, 0).is_none());
    assert!(UtcStamp::new(2024, 1, 1, 0, 60, 0, 0).is_none());
    assert!(UtcStamp::new(2024, 1, 1, 0, 0, 60, 0).is_none());
    assert!(UtcStamp::new(2024, 1, 1, 0, 0, 0, 2_000_000_000).is_none());
    assert!(UtcStamp::new(2024, 12, 31, 23, 59, 59, 1_999_999_999).is_some());
}

#[test]
fn different_moments_give_different_names() {
    let moments = [
        reading(2024, 1, 1, 0, 0, 0, 0),
        reading(2024, 1, 1, 0, 0, 0, 1_000),
        reading(2024, 1, 1, 0, 0, 1, 0),
        reading(2024, 1, 1, 0, 1, 0, 0),
        reading(2024, 1, 1, 1, 0, 0, 0),
        reading(2024, 1, 2, 0, 0, 0, 0),
        reading(2024, 2, 1, 0, 0, 0, 0),
        reading(2025, 1, 1, 0, 0, 0, 0),
        reading(2024, 11, 1, 0, 0, 0, 0),
        reading(2024, 1, 11, 0, 0, 0, 0),
        reading(20_241, 1, 1, 0, 0, 0, 0),
        reading(-2024, 1, 1, 0, 0, 0, 0),
    ];
    for (i, a) in moments.iter().enumerate() {
        for (j, b) in moments.iter().enumerate() {
            let same = change_set_name_at("demo", a) == change_set_name_at("demo", b);
            assert_eq!(same, i == j, "{a:?} against {b:?}");
        }
    }
}

#[test]
fn a_moment_after_the_epoch_is_read_off_the_calendar() {
    let at = stamp_at(1_700_000_000, 123_456_789).unwrap();
    assert_eq!(at, reading(2023, 11, 14, 22, 13, 20, 123_456_789));
    assert_eq!(stamp(&at), "20231114-221320-123456");
    let epoch = stamp_at(0, 0).unwrap();
    assert_eq!(epoch, reading(1970, 1, 1, 0, 0, 0, 0));
    let before = stamp_at(-1, 999_999_999).unwrap();
    assert_eq!(before, reading(1969, 12, 31, 23, 59, 59, 999_999_999));
    let leap_day = stamp_at(1_709_164_800, 0).unwrap();
    assert_eq!(stamp(&leap_day), "20240229-000000-000000");
}

#[test]
fn a_leap_second_is_read_off_the_calendar_where_a_minute_ends() {
    let at = stamp_at(1_483_228_799, 1_500_000_000).unwrap();
    assert_eq!(at, reading(2016, 12, 31, 23, 59, 59, 1_500_000_000));
    assert_eq!(stamp(&at), "20161231-235960-500000");
    assert_eq!(stamp_at(1_483_228_798, 1_500_000_000), None);
}

#[test]
fn a_moment_out_of_the_calendar_is_not_read() {
    assert_eq!(stamp_at(i64::MAX, 0), None);
    assert_eq!(stamp_at(i64::MIN, 0), None);
    assert_eq!(stamp_at(0, 2_000_000_000), None);
    assert_eq!(stamp_at(0, u32::MAX), None);
    assert_eq!(stamp_at(0, 1_000_000_000), None);
}

#[test]
fn the_calendar_agrees_with_the_clock_of_the_machine() {
    let before = chrono::Utc::now();
    let elapsed = std::time::SystemTime::now()
        .duration_since(std::time::UNIX_EPOCH)
        .unwrap();
    let after = chrono::Utc::now();
    let at = stamp_at(elapsed.as_secs() as i64, elapsed.subsec_nanos()).unwrap();
    let written = stamp(&at);
    assert_eq!(written.len(), 22);
    assert!(before.format("%Y%m%d-%H%M%S-%6f").to_string() <= written);
    assert!(written <= after.format("%Y%m%d-%H%M%S-%6f").to_string());
}

#[test]
fn a_name_is_written_from_its_stack_and_its_moment() {
    let name = ChangeSetName {
        stack: "shop".to_string(),
        at: reading(2025, 6, 30, 23, 59, 59, 999_999_999),
    };
    assert_eq!(name.text(), "shop-20250630-235959-999999");
    let later = ChangeSetName {
        stack: "shop".to_string(),
        at: reading(2025, 7, 1, 0, 0, 0, 0),
    };
    assert_eq!(later.text(), "shop-20250701-000000-000000");
    assert_ne!(name.text(), later.text());
}

use goolog::Timestamp;

#[test]
fn date_is_day_month_year() {
    assert_eq!(Timestamp::new(2024, 1, 2, 3, 4, 5).date(), "02.01.2024");
    assert_eq!(Timestamp::new(1999, 12, 31, 23, 59, 59).date(), "31.12.1999");
}

#[test]
fn time_is_hour_minute_second() {
    assert_eq!(Timestamp::new(2024, 1, 2, 3, 4, 5).time(), "03:04:05");
    assert_eq!(Timestamp::new(1999, 12, 31, 23, 59, 59).time(), "23:59:59");
    assert_eq!(Timestamp::new(2024, 1, 1, 0, 0, 0).time(), "00:00:00");
}

#[test]
fn small_years_are_padded_to_four_digits() {
    assert_eq!(Timestamp::new(0, 1, 1, 0, 0, 0).date(), "01.01.0000");
    assert_eq!(Timestamp::new(5, 1, 1, 0, 0, 0).date(), "01.01.0005");
    assert_eq!(Timestamp::new(987, 6, 5, 0, 0, 0).date(), "05.06.0987");
    assert_eq!(Timestamp::new(9999, 1, 1, 0, 0, 0).date(), "01.01.9999");
}

#[test]
fn years_outside_four_digits_carry_a_sign() {
    assert_eq!(Timestamp::new(10000, 1, 1, 0, 0, 0).date(), "01.01.+10000");
    assert_eq!(Timestamp::new(262142, 1, 1, 0, 0, 0).date(), "01.01.+262142");
    assert_eq!(Timestamp::new(-1, 1, 1, 0, 0, 0).date(), "01.01.-0001");
    assert_eq!(Timestamp::new(-12345, 1, 1, 0, 0, 0).date(), "01.01.-12345");
    assert_eq!(Timestamp::new(i32::MAX, 1, 1, 0, 0, 0).date(), "01.01.+2147483647");
    assert_eq!(Timestamp::new(i32::MIN, 1, 1, 0, 0, 0).date(), "01.01.-2147483648");
}

#[test]
fn fields_beyond_two_digits_are_written_in_full() {
    assert_eq!(Timestamp::new(2024, 123, 100, 0, 0, 0).date(), "100.123.2024");
    assert_eq!(Timestamp::new(2024, 1, 1, 100, 4294967295, 7).time(), "100:4294967295:07");
}

#[test]
fn calendar_timestamps_have_fixed_widths() {
    for (month, day, hour, minute, second) in [(1, 1, 0, 0, 0), (12, 31, 23, 59, 59), (6, 15, 12, 30, 30)] {
        for year in [0, 1, 999, 1970, 2024, 9999] {
            let at = Timestamp::new(year, month, day, hour, minute, second);
            assert_eq!(at.date().chars().count(), 10);
            assert_eq!(at.time().chars().count(), 8);
        }
    }
}

#[test]
fn new_keeps_the_fields() {
    let at = Timestamp::new(2024, 1, 2, 3, 4, 5);
    assert_eq!(at.year, 2024);
    assert_eq!(at.month, 1);
    assert_eq!(at.day, 2);
    assert_eq!(at.hour, 3);
    assert_eq!(at.minute, 4);
    assert_eq!(at.second, 5);
}

#[test]
fn from_unix_at_the_beginning_of_1970() {
    assert_eq!(Timestamp::from_unix(0, 0), Some(Timestamp::new(1970, 1, 1, 0, 0, 0)));
}

#[test]
fn from_unix_reads_the_calendar() {
    assert_eq!(Timestamp::from_unix(1_704_164_645, 0), Some(Timestamp::new(2024, 1, 2, 3, 4, 5)));
    assert_eq!(Timestamp::from_unix(951_782_400, 0), Some(Timestamp::new(2000, 2, 29, 0, 0, 0)));
    assert_eq!(Timestamp::from_unix(946_684_799, 0), Some(Timestamp::new(1999, 12, 31, 23, 59, 59)));
}

#[test]
fn from_unix_before_1970() {
    assert_eq!(Timestamp::from_unix(-1, 0), Some(Timestamp::new(1969, 12, 31, 23, 59, 59)));
    assert_eq!(Timestamp::from_unix(-86_400, 0), Some(Timestamp::new(1969, 12, 31, 0, 0, 0)));
}

#[test]
fn from_unix_applies_the_offset() {
    assert_eq!(Timestamp::from_unix(1_704_164_645, 3600), Some(Timestamp::new(2024, 1, 2, 4, 4, 5)));
    assert_eq!(
        Timestamp::from_unix(1_704_164_645, -4 * 3600),
        Some(Timestamp::new(2024, 1, 1, 23, 4, 5))
    );
    assert_eq!(Timestamp::from_unix(0, -1), Some(Timestamp::new(1969, 12, 31, 23, 59, 59)));
    assert_eq!(
        Timestamp::from_unix(1_704_164_645, 3600),
        Timestamp::from_unix(1_704_164_645 + 3600, 0)
    );
}

#[test]
fn from_unix_beyond_the_calendar_is_nothing() {
    assert_eq!(Timestamp::from_unix(i64::MAX, 0), None);
    assert_eq!(Timestamp::from_unix(i64::MIN, 0), None);
    assert_eq!(Timestamp::from_unix(i64::MAX, 1), None);
    assert_eq!(Timestamp::from_unix(i64::MIN, -1), None);
    assert_eq!(Timestamp::from_unix(i64::MAX, i32::MAX), None);
    assert_eq!(Timestamp::from_unix(i64::MIN, i32::MIN), None);
}

#[test]
fn from_unix_far_from_now() {
    assert_eq!(
        Timestamp::from_unix(253_402_300_799, 0),
        Some(Timestamp::new(9999, 12, 31, 23, 59, 59))
    );
    assert_eq!(Timestamp::from_unix(253_402_300_800, 0), Some(Timestamp::new(10000, 1, 1, 0, 0, 0)));
    assert_eq!(Timestamp::from_unix(253_402_300_800, 0).map(|at| at.date()), Some(String::from("01.01.+10000")));
}

#[test]
fn from_unix_gives_calendar_fields() {
    for seconds in [-10_000_000_000i64, -1, 0, 59, 60, 86_399, 86_400, 1_704_164_645, 4_102_444_800] {
        for offset in [-86_399, -3600, 0, 1, 3600, 86_399] {
            let at = Timestamp::from_unix(seconds, offset).unwrap();
            assert!((1..=12).contains(&at.month));
            assert!((1..=31).contains(&at.day));
            assert!(at.hour <= 23);
            assert!(at.minute <= 59);
            assert!(at.second <= 59);
        }
    }
}

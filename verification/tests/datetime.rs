use immich_fix::datetime::{checked_datetime_string, get_datetime_string, DateTime};
use immich_fix::offset::{parse_offset, Offset};

fn moment(year: u16, month: u8, day: u8, hour: u8, minute: u8, second: u8) -> DateTime {
    DateTime {
        year,
        month,
        day,
        hour,
        minute,
        second,
        nanosecond: None,
        offset: None,
    }
}

fn offset(hours: usize, minutes: usize, is_negative: bool) -> Option<Offset> {
    Some(Offset { hours, minutes, is_negative })
}

#[test]
fn get_chrono_time() {
    assert_eq!(
        get_datetime_string(
            DateTime {
                year: 2026,
                month: 2,
                day: 3,
                hour: 4,
                minute: 5,
                second: 6,
                nanosecond: None,
                offset: None,
            },
            Some(Offset {
                hours: 0,
                minutes: 0,
                is_negative: false
            })
        ),
        "2026-02-03T04:05:06"
    );

    assert_eq!(
        get_datetime_string(
            DateTime {
                year: 2026,
                month: 2,
                day: 3,
                hour: 4,
                minute: 5,
                second: 6,
                nanosecond: None,
                offset: None,
            },
            None
        ),
        "2026-02-03T04:05:06"
    );

    assert_eq!(
        get_datetime_string(
            DateTime {
                year: 2026,
                month: 2,
                day: 3,
                hour: 4,
                minute: 5,
                second: 6,
                nanosecond: None,
                offset: None,
            },
            Some(Offset {
                hours: 5,
                minutes: 0,
                is_negative: false
            })
        ),
        "2026-02-03T04:05:06+05:00"
    );

    assert_eq!(
        get_datetime_string(
            DateTime {
                year: 2026,
                month: 2,
                day: 3,
                hour: 4,
                minute: 5,
                second: 6,
                nanosecond: None,
                offset: None,
            },
            Some(Offset {
                hours: 5,
                minutes: 0,
                is_negative: true
            })
        ),
        "2026-02-03T04:05:06-05:00"
    );
}

#[test]
fn text_without_offset_takes_any_numbers() {
    assert_eq!(get_datetime_string(moment(7, 0, 0, 99, 200, 61), None), "7-00-00T99:200:61");
    assert_eq!(
        get_datetime_string(moment(65535, 255, 10, 9, 100, 0), None),
        "65535-255-10T09:100:00"
    );
}

#[test]
fn year_with_offset_has_four_digits_or_a_sign() {
    assert_eq!(
        get_datetime_string(moment(7, 1, 1, 0, 0, 0), offset(1, 0, true)),
        "0007-01-01T00:00:00-01:00"
    );
    assert_eq!(
        get_datetime_string(moment(0, 2, 29, 23, 59, 59), offset(23, 0, false)),
        "0000-02-29T23:59:59+23:00"
    );
    assert_eq!(
        get_datetime_string(moment(12345, 12, 31, 23, 59, 59), offset(12, 0, true)),
        "+12345-12-31T23:59:59-12:00"
    );
}

#[test]
fn zone_follows_the_local_text() {
    for hours in 1..24 {
        for negative in [false, true] {
            let local = moment(2024, 2, 29, 23, 0, 59);
            let sign = if negative { "-" } else { "+" };
            let with = get_datetime_string(local, offset(hours, 0, negative));
            let suffix = format!("{}{:02}:00", sign, hours);
            assert_eq!(with, get_datetime_string(local, None) + &suffix);
            assert_eq!(parse_offset(suffix.as_bytes()).ok(), offset(hours, 0, negative));
        }
    }
}

#[test]
fn minutes_of_the_offset_do_not_show() {
    let local = moment(2026, 2, 3, 4, 5, 6);
    assert_eq!(get_datetime_string(local, offset(5, 45, false)), "2026-02-03T04:05:06+05:00");
    assert_eq!(get_datetime_string(local, offset(0, 30, true)), "2026-02-03T04:05:06");
}

#[test]
fn text_with_offset_needs_a_zone_within_a_day() {
    let local = moment(2026, 2, 3, 4, 5, 6);
    assert!(checked_datetime_string(&local, &offset(23, 0, true)).is_some());
    assert!(checked_datetime_string(&local, &offset(24, 0, true)).is_none());
    assert!(checked_datetime_string(&local, &offset(99, 0, false)).is_none());
    assert!(checked_datetime_string(&local, &offset(usize::MAX / 3, 0, false)).is_none());
}

#[test]
fn text_with_offset_needs_a_calendar_time() {
    let zone = offset(1, 0, false);
    assert!(checked_datetime_string(&moment(2024, 2, 29, 0, 0, 0), &zone).is_some());
    assert!(checked_datetime_string(&moment(2000, 2, 29, 0, 0, 0), &zone).is_some());
    assert!(checked_datetime_string(&moment(2023, 2, 29, 0, 0, 0), &zone).is_none());
    assert!(checked_datetime_string(&moment(1900, 2, 29, 0, 0, 0), &zone).is_none());
    assert!(checked_datetime_string(&moment(2024, 4, 31, 0, 0, 0), &zone).is_none());
    assert!(checked_datetime_string(&moment(2024, 12, 31, 0, 0, 0), &zone).is_some());
    assert!(checked_datetime_string(&moment(2024, 13, 1, 0, 0, 0), &zone).is_none());
    assert!(checked_datetime_string(&moment(2024, 0, 1, 0, 0, 0), &zone).is_none());
    assert!(checked_datetime_string(&moment(2024, 1, 0, 0, 0, 0), &zone).is_none());
    assert!(checked_datetime_string(&moment(2024, 1, 1, 24, 0, 0), &zone).is_none());
    assert!(checked_datetime_string(&moment(2024, 1, 1, 23, 60, 0), &zone).is_none());
    assert!(checked_datetime_string(&moment(2024, 1, 1, 23, 59, 60), &zone).is_none());
    assert!(checked_datetime_string(&moment(2024, 13, 40, 24, 60, 60), &None).is_some());
}

#[test]
fn every_month_has_its_days() {
    let zone = offset(1, 0, true);
    let days = [31, 29, 31, 30, 31, 30, 31, 31, 30, 31, 30, 31];
    for (i, last) in days.iter().enumerate() {
        let month = i as u8 + 1;
        assert!(checked_datetime_string(&moment(2024, month, *last, 12, 0, 0), &zone).is_some());
        assert!(checked_datetime_string(&moment(2024, month, *last + 1, 12, 0, 0), &zone).is_none());
    }
}

#[test]
fn hours_count_as_a_number_of_32_bits() {
    let local = moment(2026, 2, 3, 4, 5, 6);
    if let Ok(hours) = usize::try_from((1u64 << 32) + 5) {
        assert_eq!(get_datetime_string(local, offset(hours, 0, false)), "2026-02-03T04:05:06+05:00");
    }
    if let Ok(hours) = usize::try_from((1u64 << 32) - 5) {
        assert_eq!(get_datetime_string(local, offset(hours, 0, false)), "2026-02-03T04:05:06-05:00");
        assert_eq!(get_datetime_string(local, offset(hours, 0, true)), "2026-02-03T04:05:06+05:00");
    }
}

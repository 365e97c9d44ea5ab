use immich_fix::offset::{parse_offset, Offset, OffsetError};

fn offset(hours: usize, minutes: usize, is_negative: bool) -> Offset {
    Offset { hours, minutes, is_negative }
}

#[test]
fn test_parse_offset() {
    assert_eq!(
        parse_offset(b"+01:00").unwrap(),
        Offset {
            hours: 1,
            minutes: 0,
            is_negative: false,
        }
    );
    assert_eq!(
        parse_offset(b"-02:30").unwrap(),
        Offset {
            hours: 2,
            minutes: 30,
            is_negative: true,
        }
    );
    assert!(parse_offset(b"").is_err());
    assert!(parse_offset(b"+").is_err());
    assert!(parse_offset(b"+0").is_err());
    assert!(parse_offset(b"+01").is_err());
    assert!(parse_offset(b"+01:").is_err());
    assert!(parse_offset(b"+01:0").is_err());
    assert!(parse_offset(b"+01:00:").is_err());
}

#[test]
fn offset_without_sign_is_positive() {
    assert_eq!(parse_offset(b"05:45"), Ok(offset(5, 45, false)));
}

#[test]
fn byte_between_hours_and_minutes_is_free() {
    assert_eq!(parse_offset(b"-05x45"), Ok(offset(5, 45, true)));
    assert_eq!(parse_offset(b"+99 99"), Ok(offset(99, 99, false)));
}

#[test]
fn number_may_begin_with_plus() {
    assert_eq!(parse_offset(b"++5:+3"), Ok(offset(5, 3, false)));
    assert_eq!(parse_offset(b"-+5:03"), Ok(offset(5, 3, true)));
    assert_eq!(parse_offset(b"+-5:03"), Err(OffsetError::NotANumber));
}

#[test]
fn blank_offsets() {
    assert_eq!(parse_offset(b""), Err(OffsetError::Blank));
    assert_eq!(parse_offset(b"   :  "), Err(OffsetError::Blank));
}

#[test]
fn offset_of_wrong_length() {
    assert_eq!(
        parse_offset(b"+01:00:"),
        Err(OffsetError::Length { length: 7, num_start: 1 })
    );
    assert_eq!(
        parse_offset(b"      "),
        Err(OffsetError::Length { length: 6, num_start: 0 })
    );
    assert_eq!(
        parse_offset(b"-"),
        Err(OffsetError::Length { length: 1, num_start: 1 })
    );
}

#[test]
fn offset_that_is_not_a_number() {
    assert_eq!(parse_offset(b"+ab:00"), Err(OffsetError::NotANumber));
    assert_eq!(parse_offset(b"+01:xy"), Err(OffsetError::NotANumber));
    assert_eq!(parse_offset(b"  :  "), Err(OffsetError::NotANumber));
    assert_eq!(parse_offset(b"+\xc3\xa9:00"), Err(OffsetError::NotANumber));
}

#[test]
fn offset_that_is_not_text() {
    assert_eq!(parse_offset(b"+\xff0:00"), Err(OffsetError::NotText));
    assert_eq!(parse_offset(b"+01:\xc1\x80"), Err(OffsetError::NotText));
    assert_eq!(parse_offset(b"+\xe2\x82:00"), Err(OffsetError::NotText));
    assert_eq!(parse_offset(b"+ab:\xff\xff"), Err(OffsetError::NotANumber));
}

#[test]
fn written_offsets_read_back() {
    for hours in 0..100 {
        for minutes in 0..100 {
            let plus = format!("+{:02}:{:02}", hours, minutes);
            assert_eq!(parse_offset(plus.as_bytes()), Ok(offset(hours, minutes, false)));
            let minus = format!("-{:02}:{:02}", hours, minutes);
            assert_eq!(parse_offset(minus.as_bytes()), Ok(offset(hours, minutes, true)));
        }
    }
}

#[test]
fn offset_errors_in_words() {
    assert_eq!(
        OffsetError::Blank.message(),
        Some("offset is empty or invalid".to_string())
    );
    assert_eq!(
        parse_offset(b"+01:00:00:00").unwrap_err().message(),
        Some("offset length is invalid, length 12, numstart 1".to_string())
    );
    assert_eq!(OffsetError::NotText.message(), None);
    assert_eq!(OffsetError::NotANumber.message(), None);
}

use immich_fix::asset::{
    get_original_timestamp, timestamp_error_message, AssetDetail, HostFile,
};
use immich_fix::datetime::{get_datetime_string, DateTime};
use immich_fix::metadata::{
    date_from_field, get_offset, offset_from_field, timestamp_from_contents, timestamp_from_exif,
    FieldValue, TimestampError,
};
use immich_fix::offset::Offset;

const ASCII: u16 = 2;
const UNDEFINED: u16 = 7;
const DATE_TIME_ORIGINAL: u16 = 0x9003;
const OFFSET_TIME_ORIGINAL: u16 = 0x9011;

/// A TIFF file whose fields of the picture-taking conditions have these tags, types and values.
fn tiff(fields: &[(u16, u16, &[u8])]) -> Vec<u8> {
    let mut file = b"II*\0\x08\0\0\0".to_vec();
    // One entry, which points to the fields, and no further directory.
    file.extend(1u16.to_le_bytes());
    file.extend(0x8769u16.to_le_bytes());
    file.extend(4u16.to_le_bytes());
    file.extend(1u32.to_le_bytes());
    file.extend(26u32.to_le_bytes());
    file.extend(0u32.to_le_bytes());
    file.extend((fields.len() as u16).to_le_bytes());
    let mut values = Vec::new();
    let start = 26 + 2 + 12 * fields.len() + 4;
    for (tag, kind, value) in fields {
        file.extend(tag.to_le_bytes());
        file.extend(kind.to_le_bytes());
        file.extend((value.len() as u32).to_le_bytes());
        if value.len() <= 4 {
            let mut inline = value.to_vec();
            inline.resize(4, 0);
            file.extend(inline);
        } else {
            file.extend(((start + values.len()) as u32).to_le_bytes());
            values.extend_from_slice(value);
        }
    }
    file.extend(0u32.to_le_bytes());
    file.extend(values);
    file
}

fn parsed(contents: Vec<u8>) -> exif::Exif {
    exif::Reader::new().read_raw(contents).unwrap()
}

fn moment() -> DateTime {
    DateTime {
        year: 2026,
        month: 2,
        day: 3,
        hour: 4,
        minute: 5,
        second: 6,
        nanosecond: None,
        offset: None,
    }
}

fn ascii(string: &[u8]) -> Option<FieldValue> {
    Some(FieldValue::Ascii(vec![string.to_vec()]))
}

#[test]
fn file_with_date_and_offset() {
    let contents = tiff(&[
        (DATE_TIME_ORIGINAL, ASCII, b"2026:02:03 04:05:06\0"),
        (OFFSET_TIME_ORIGINAL, ASCII, b"-05:00\0"),
    ]);
    let offset = Some(Offset { hours: 5, minutes: 0, is_negative: true });
    assert_eq!(timestamp_from_contents(&contents), Ok((moment(), offset)));
    let exif = parsed(contents);
    assert_eq!(timestamp_from_exif(&exif), Ok((moment(), offset)));
    assert_eq!(get_offset(&exif), offset);
    assert_eq!(get_datetime_string(moment(), offset), "2026-02-03T04:05:06-05:00");
}

#[test]
fn file_without_offset() {
    let contents = tiff(&[(DATE_TIME_ORIGINAL, ASCII, b"2026:02:03 04:05:06\0")]);
    assert_eq!(timestamp_from_contents(&contents), Ok((moment(), None)));
    assert_eq!(get_offset(&parsed(contents)), None);
}

#[test]
fn offset_that_cannot_be_read_counts_as_missing() {
    for value in [&b"   :  \0"[..], b"+01\0", b"\0", b"+ab:00\0", b"\0+01:00\0"] {
        let contents = tiff(&[
            (DATE_TIME_ORIGINAL, ASCII, b"2026:02:03 04:05:06\0"),
            (OFFSET_TIME_ORIGINAL, ASCII, value),
        ]);
        assert_eq!(timestamp_from_contents(&contents), Ok((moment(), None)));
    }
    let contents = tiff(&[
        (DATE_TIME_ORIGINAL, ASCII, b"2026:02:03 04:05:06\0"),
        (OFFSET_TIME_ORIGINAL, UNDEFINED, b"+01:00\0"),
    ]);
    assert_eq!(timestamp_from_contents(&contents), Ok((moment(), None)));
}

#[test]
fn first_string_counts() {
    let contents = tiff(&[(DATE_TIME_ORIGINAL, ASCII, b"2026:02:03 04:05:06\0nothing\0")]);
    assert_eq!(timestamp_from_contents(&contents), Ok((moment(), None)));
    let contents = tiff(&[(DATE_TIME_ORIGINAL, ASCII, b"nothing\02026:02:03 04:05:06\0")]);
    assert_eq!(timestamp_from_contents(&contents), Err(TimestampError::NoValue));
}

#[test]
fn file_without_date() {
    let contents = tiff(&[(OFFSET_TIME_ORIGINAL, ASCII, b"+01:00\0")]);
    assert_eq!(timestamp_from_contents(&contents), Err(TimestampError::NoField));
}

#[test]
fn date_of_another_type() {
    let contents = tiff(&[(DATE_TIME_ORIGINAL, UNDEFINED, b"2026:02:03 04:05:06\0")]);
    assert_eq!(timestamp_from_contents(&contents), Err(TimestampError::UnsupportedType));
    let contents = tiff(&[(DATE_TIME_ORIGINAL, ASCII, b"")]);
    assert_eq!(timestamp_from_contents(&contents), Err(TimestampError::UnsupportedType));
}

#[test]
fn files_that_hold_no_metadata() {
    for contents in [&b""[..], b"text", b"\xff\xd8\xff\xd9", b"II*\0"] {
        assert_eq!(
            timestamp_from_contents(contents),
            Err(TimestampError::UnreadableMetadata)
        );
    }
}

#[test]
fn jpeg_file_with_date() {
    let inner = tiff(&[(DATE_TIME_ORIGINAL, ASCII, b"2026:02:03 04:05:06\0")]);
    let mut contents = b"\xff\xd8\xff\xe1".to_vec();
    contents.extend((inner.len() as u16 + 8).to_be_bytes());
    contents.extend(b"Exif\0\0");
    contents.extend(inner);
    assert_eq!(timestamp_from_contents(&contents), Ok((moment(), None)));
}

#[test]
fn dates_of_fields() {
    assert_eq!(date_from_field(&ascii(b"2026:02:03 04:05:06")), Ok(moment()));
    assert_eq!(date_from_field(&ascii(b"2026:02:03 04:05:06 and more")), Ok(moment()));
    assert_eq!(
        date_from_field(&ascii(b"0000:13:00 99:99:99")),
        Ok(DateTime {
            year: 0,
            month: 13,
            day: 0,
            hour: 99,
            minute: 99,
            second: 99,
            nanosecond: None,
            offset: None,
        })
    );
    for string in [
        &b""[..],
        b"2026:02:03 04:05:0",
        b"2026-02-03 04:05:06",
        b"2026:02:03T04:05:06",
        b"2026:02:03 04:05:0x",
        b" 026:02:03 04:05:06",
        b"    :  :     :  :  ",
        b"                   ",
    ] {
        assert_eq!(date_from_field(&ascii(string)), Err(TimestampError::NoValue));
    }
    assert_eq!(date_from_field(&None), Err(TimestampError::NoField));
    assert_eq!(
        date_from_field(&Some(FieldValue::Other)),
        Err(TimestampError::UnsupportedType)
    );
    assert_eq!(
        date_from_field(&Some(FieldValue::Ascii(vec![]))),
        Err(TimestampError::UnsupportedType)
    );
}

#[test]
fn offsets_of_fields() {
    assert_eq!(
        offset_from_field(&ascii(b"+01:30")),
        Some(Offset { hours: 1, minutes: 30, is_negative: false })
    );
    assert_eq!(offset_from_field(&ascii(b"+01")), None);
    assert_eq!(offset_from_field(&Some(FieldValue::Ascii(vec![]))), None);
    assert_eq!(offset_from_field(&Some(FieldValue::Other)), None);
    assert_eq!(offset_from_field(&None), None);
}

#[test]
fn text_repeats_the_string() {
    let datetime = date_from_field(&ascii(b"1999:12:31 23:59:58")).unwrap();
    assert_eq!(get_datetime_string(datetime, None), "1999-12-31T23:59:58");
    let datetime = date_from_field(&ascii(b"0999:12:31 23:59:58")).unwrap();
    assert_eq!(get_datetime_string(datetime, None), "999-12-31T23:59:58");
}

#[test]
fn timestamps_of_assets() {
    let asset = AssetDetail {
        id: "id".to_string(),
        original_path: "/data/a.tif".to_string(),
        original_filename: "a.tif".to_string(),
        tags: vec![],
    };
    let contents = tiff(&[(DATE_TIME_ORIGINAL, ASCII, b"2026:02:03 04:05:06\0")]);
    let file = HostFile::Contents(contents);
    assert_eq!(
        get_original_timestamp("/data", "/mnt", &asset, &file),
        Ok((moment(), None))
    );
    assert_eq!(
        get_original_timestamp("/other", "/mnt", &asset, &file),
        Err(TimestampError::OutsidePrefix)
    );
    assert_eq!(
        get_original_timestamp("/data", "/mnt", &asset, &HostFile::Missing),
        Err(TimestampError::NoFile)
    );
    assert_eq!(
        get_original_timestamp("/data", "/mnt", &asset, &HostFile::Unreadable),
        Err(TimestampError::UnreadableFile)
    );
    assert_eq!(
        get_original_timestamp("/data", "/mnt", &asset, &HostFile::Contents(vec![1, 2, 3])),
        Err(TimestampError::UnreadableMetadata)
    );
}

#[test]
fn timestamp_errors_in_words() {
    let asset = AssetDetail {
        id: "id".to_string(),
        original_path: "/data/a.tif".to_string(),
        original_filename: "a.tif".to_string(),
        tags: vec![],
    };
    let words = |error| timestamp_error_message(error, &asset).unwrap_or_default();
    assert_eq!(
        words(TimestampError::OutsidePrefix),
        " !! a.tif doesn't start with the given container prefix, original_path: /data/a.tif"
    );
    assert_eq!(words(TimestampError::NoFile), "no file found");
    assert_eq!(words(TimestampError::NoField), "no DateTimeOriginal field found");
    assert_eq!(
        words(TimestampError::UnsupportedType),
        "unsupported value type for DateTimeOriginal"
    );
    assert_eq!(words(TimestampError::NoValue), "no value for DateTimeOriginal");
    assert_eq!(words(TimestampError::UnreadableFile), "");
    assert_eq!(words(TimestampError::UnreadableMetadata), "");
}

#[test]
fn text_of_a_photo() {
    let contents = tiff(&[
        (DATE_TIME_ORIGINAL, ASCII, b"2024:02:29 23:59:59\0"),
        (OFFSET_TIME_ORIGINAL, ASCII, b"+11:00\0"),
    ]);
    let (datetime, offset) = timestamp_from_contents(&contents).unwrap();
    assert_eq!(get_datetime_string(datetime, offset), "2024-02-29T23:59:59+11:00");
    let contents = tiff(&[
        (DATE_TIME_ORIGINAL, ASCII, b"0024:02:29 23:59:59\0"),
        (OFFSET_TIME_ORIGINAL, ASCII, b"-11:00\0"),
    ]);
    let (datetime, offset) = timestamp_from_contents(&contents).unwrap();
    assert_eq!(get_datetime_string(datetime, offset), "0024-02-29T23:59:59-11:00");
}

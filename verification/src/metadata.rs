//! What a photo says of the moment at which it was taken.

use vstd::prelude::*;

use crate::ascii;
use crate::datetime;
use crate::datetime::DateTime;
use crate::offset;
use crate::offset::Offset;
use crate::text;

verus! {

/// The directory of the main image, as opposed to that of the thumbnail.
pub const PRIMARY: u16 = 0;

/// The tag of the field that holds the moment at which the photo was taken.
pub const DATE_TIME_ORIGINAL: u16 = 0x9003;

/// The tag of the field that holds the time zone in which it was taken.
pub const OFFSET_TIME_ORIGINAL: u16 = 0x9011;

/// The value of a metadata field, as far as it matters here.
#[derive(Debug, PartialEq, Eq)]
pub enum FieldValue {
    /// Strings of bytes.
    Ascii(Vec<Vec<u8>>),
    /// Anything else.
    Other,
}

impl View for FieldValue {
    type V = Option<Seq<Seq<u8>>>;

    open spec fn view(&self) -> Option<Seq<Seq<u8>>> {
        match self {
            FieldValue::Ascii(strings) => Some(strings@.map_values(|string: Vec<u8>| string@)),
            FieldValue::Other => None,
        }
    }
}

/// What a field may hold: nothing if it is missing, else its value's view.
pub open spec fn field_view(field: Option<FieldValue>) -> Option<Option<Seq<Seq<u8>>>> {
    match field {
        Some(value) => Some(value@),
        None => None,
    }
}

/// Why a photo does not tell when it was taken.
#[derive(Debug, Clone, Copy, PartialEq, Eq, Structural)]
pub enum TimestampError {
    /// The asset does not lie under the given prefix.
    OutsidePrefix,
    /// There is no file.
    NoFile,
    /// The file cannot be read.
    UnreadableFile,
    /// The file holds no metadata that can be read.
    UnreadableMetadata,
    /// The metadata has no field for the moment.
    NoField,
    /// The field holds no string.
    UnsupportedType,
    /// The string is no date and time.
    NoValue,
}

/// The parsed metadata of a photo.
#[verifier::external_type_specification]
#[verifier::external_body]
pub struct ExExif(exif::Exif);

/// Why metadata, or a date in it, could not be parsed.
#[verifier::external_type_specification]
#[verifier::external_body]
pub struct ExError(exif::Error);

/// The fields of parsed metadata that describe the picture-taking conditions:
/// for a directory and a tag, the value.
pub uninterp spec fn exif_fields(exif: exif::Exif) -> Map<(u16, u16), Option<Seq<Seq<u8>>>>;

/// The fields that `exif::Reader::read_from_container` finds in an image file
/// with these contents, or nothing where it fails.
pub uninterp spec fn container_fields(contents: Seq<u8>) -> Option<
    Map<(u16, u16), Option<Seq<Seq<u8>>>>,
>;

/// `exif::Reader::read_from_container` on the contents of an image file. Whether
/// it succeeds and what fields are found depends on the contents alone.
#[verifier::external_body]
fn read_from_container(contents: &[u8]) -> (r: Result<exif::Exif, exif::Error>)
    ensures
        match r {
            Ok(exif) => container_fields(contents@) == Some(exif_fields(exif)),
            Err(_) => container_fields(contents@) is None,
        },
{
    exif::Reader::new().read_from_container(&mut std::io::Cursor::new(contents))
}

/// `exif::Exif::get_field` for a tag that describes the picture-taking
/// conditions: the field of the directory that has the tag, if there is one,
/// with its strings if its value is made of strings.
#[verifier::external_body]
fn get_field(exif: &exif::Exif, tag: u16, directory: u16) -> (r: Option<FieldValue>)
    ensures
        field_view(r) == exif_fields(*exif).get((directory, tag)),
{
    exif.get_field(exif::Tag(exif::Context::Exif, tag), exif::In(directory)).map(
        |field|
            match &field.value {
                exif::Value::Ascii(strings) => FieldValue::Ascii(strings.clone()),
                _ => FieldValue::Other,
            },
    )
}

/// Whether the bytes from one position to before another are decimal digits.
pub open spec fn digits_at(data: Seq<u8>, from: int, to: int) -> bool {
    forall|i: int| from <= i < to ==> ascii::is_digit(#[trigger] data[i])
}

/// The number that two digits make.
pub open spec fn number_at(data: Seq<u8>, at: int) -> int {
    (data[at] - ascii::ZERO) * 10 + (data[at + 1] - ascii::ZERO)
}

/// Whether bytes begin with a date and a time such as `2026:02:03 04:05:06`.
pub open spec fn is_exif_date(data: Seq<u8>) -> bool {
    &&& data.len() >= 19
    &&& data[4] == ascii::COLON && data[7] == ascii::COLON
    &&& data[10] == ascii::SPACE
    &&& data[13] == ascii::COLON && data[16] == ascii::COLON
    &&& digits_at(data, 0, 4) && digits_at(data, 5, 7) && digits_at(data, 8, 10)
    &&& digits_at(data, 11, 13) && digits_at(data, 14, 16) && digits_at(data, 17, 19)
}

/// The date and the time that such bytes give.
pub open spec fn exif_date(data: Seq<u8>) -> DateTime {
    DateTime {
        year: (number_at(data, 0) * 100 + number_at(data, 2)) as u16,
        month: number_at(data, 5) as u8,
        day: number_at(data, 8) as u8,
        hour: number_at(data, 11) as u8,
        minute: number_at(data, 14) as u8,
        second: number_at(data, 17) as u8,
        nanosecond: None,
        offset: None,
    }
}

/// `exif::DateTime::from_ascii`: the date and the time with which the bytes
/// begin, if they begin with one. The numbers are taken as they are.
#[verifier::external_body]
fn date_time_from_ascii(data: &[u8]) -> (r: Result<DateTime, exif::Error>)
    ensures
        match r {
            Ok(datetime) => is_exif_date(data@) && datetime == exif_date(data@),
            Err(_) => !is_exif_date(data@),
        },
{
    exif::DateTime::from_ascii(data).map(
        |parsed|
            DateTime {
                year: parsed.year,
                month: parsed.month,
                day: parsed.day,
                hour: parsed.hour,
                minute: parsed.minute,
                second: parsed.second,
                nanosecond: parsed.nanosecond,
                offset: parsed.offset,
            },
    )
}

/// The moment that a field gives.
pub open spec fn field_date(field: Option<Option<Seq<Seq<u8>>>>) -> Result<
    DateTime,
    TimestampError,
> {
    match field {
        None => Err(TimestampError::NoField),
        Some(None) => Err(TimestampError::UnsupportedType),
        Some(Some(strings)) => if strings.len() == 0 {
            Err(TimestampError::UnsupportedType)
        } else if is_exif_date(strings[0]) {
            Ok(exif_date(strings[0]))
        } else {
            Err(TimestampError::NoValue)
        },
    }
}

/// The offset that a field gives.
pub open spec fn field_offset(field: Option<Option<Seq<Seq<u8>>>>) -> Option<Offset> {
    match field {
        Some(Some(strings)) => if strings.len() > 0 {
            match offset::offset_of(strings[0]) {
                Ok(offset) => Some(offset),
                Err(_) => None,
            }
        } else {
            None
        },
        _ => None,
    }
}

/// The field of the main image that has a tag.
pub open spec fn primary_field(
    fields: Map<(u16, u16), Option<Seq<Seq<u8>>>>,
    tag: u16,
) -> Option<Option<Seq<Seq<u8>>>> {
    fields.get((PRIMARY, tag))
}

/// The moment and the offset that the fields of a photo give.
pub open spec fn fields_timestamp(fields: Map<(u16, u16), Option<Seq<Seq<u8>>>>) -> Result<
    (DateTime, Option<Offset>),
    TimestampError,
> {
    match field_date(primary_field(fields, DATE_TIME_ORIGINAL)) {
        Ok(datetime) => Ok((datetime, field_offset(primary_field(fields, OFFSET_TIME_ORIGINAL)))),
        Err(error) => Err(error),
    }
}

/// The moment and the offset that the contents of an image file give.
pub open spec fn contents_timestamp(contents: Seq<u8>) -> Result<
    (DateTime, Option<Offset>),
    TimestampError,
> {
    match container_fields(contents) {
        Some(fields) => fields_timestamp(fields),
        None => Err(TimestampError::UnreadableMetadata),
    }
}

/// The moment that a field gives.
pub fn date_from_field(field: &Option<FieldValue>) -> (r: Result<DateTime, TimestampError>)
    ensures
        r == field_date(field_view(*field)),
{
    match field {
        None => Err(TimestampError::NoField),
        Some(FieldValue::Ascii(strings)) if strings.len() > 0 => {
            match date_time_from_ascii(strings[0].as_slice()) {
                Ok(datetime) => Ok(datetime),
                Err(_) => Err(TimestampError::NoValue),
            }
        },
        Some(_) => Err(TimestampError::UnsupportedType),
    }
}

/// The offset that a field gives. One that cannot be read counts as missing.
pub fn offset_from_field(field: &Option<FieldValue>) -> (r: Option<Offset>)
    ensures
        r == field_offset(field_view(*field)),
{
    match field {
        Some(FieldValue::Ascii(strings)) if strings.len() > 0 => {
            match offset::parse_offset(strings[0].as_slice()) {
                Ok(offset) => Some(offset),
                Err(_) => None,
            }
        },
        _ => None,
    }
}

/// The offset of the time zone in which a photo was taken.
pub fn get_offset(exif: &exif::Exif) -> (r: Option<Offset>)
    ensures
        r == field_offset(primary_field(exif_fields(*exif), OFFSET_TIME_ORIGINAL)),
{
    offset_from_field(&get_field(exif, OFFSET_TIME_ORIGINAL, PRIMARY))
}

/// The moment at which a photo was taken, and its offset.
pub fn timestamp_from_exif(exif: &exif::Exif) -> (r: Result<
    (DateTime, Option<Offset>),
    TimestampError,
>)
    ensures
        r == fields_timestamp(exif_fields(*exif)),
{
    match date_from_field(&get_field(exif, DATE_TIME_ORIGINAL, PRIMARY)) {
        Ok(datetime) => Ok((datetime, get_offset(exif))),
        Err(error) => Err(error),
    }
}

/// The moment and the offset that the contents of an image file give.
pub fn timestamp_from_contents(contents: &[u8]) -> (r: Result<
    (DateTime, Option<Offset>),
    TimestampError,
>)
    ensures
        r == contents_timestamp(contents@),
{
    match read_from_container(contents) {
        Ok(exif) => timestamp_from_exif(&exif),
        Err(_) => Err(TimestampError::UnreadableMetadata),
    }
}

/// Two digits that are read as a number and written out again are as they were.
proof fn lemma_digits_repeat(data: Seq<u8>, at: int)
    requires
        0 <= at,
        at + 1 < data.len(),
        digits_at(data, at, at + 2),
    ensures
        0 <= number_at(data, at) < 100,
        text::two_wide(number_at(data, at) as nat) == seq![data[at] as char, data[at + 1] as char],
{
    assert(ascii::is_digit(data[at]) && ascii::is_digit(data[at + 1]));
    text::lemma_two_wide(number_at(data, at) as nat);
}

/// Four digits that are read as a year and written out again are as they were.
proof fn lemma_year_repeats(data: Seq<u8>)
    requires
        is_exif_date(data),
    ensures
        exif_date(data).year <= 9999,
        data[0] != ascii::ZERO ==> 1000 <= exif_date(data).year,
        text::four_digits(exif_date(data).year as nat) == seq![
            data[0] as char,
            data[1] as char,
            data[2] as char,
            data[3] as char,
        ],
{
    assert(ascii::is_digit(data[0]) && ascii::is_digit(data[1]));
    assert(ascii::is_digit(data[2]) && ascii::is_digit(data[3]));
    let a = (data[0] - ascii::ZERO) as nat;
    let b = (data[1] - ascii::ZERO) as nat;
    let c = (data[2] - ascii::ZERO) as nat;
    let d = (data[3] - ascii::ZERO) as nat;
    assert(exif_date(data).year == a * 1000 + b * 100 + c * 10 + d);
    text::lemma_four_digits_of(a, b, c, d);
}

/// The character at a position of the text that stands for a string in a photo:
/// dashes in the date, a `T` before the time, and else the string's own.
pub open spec fn repeated_char(data: Seq<u8>, i: int) -> char {
    if i == 4 || i == 7 {
        '-'
    } else if i == 10 {
        'T'
    } else {
        data[i] as char
    }
}

/// The string in a photo with dashes in the date and a `T` before the time.
pub open spec fn repeated_string(data: Seq<u8>) -> Seq<char> {
    Seq::new(19, |i: int| repeated_char(data, i))
}

/// A year of four digits and what stands behind it make up the string again.
proof fn lemma_string_repeats(data: Seq<u8>)
    requires
        is_exif_date(data),
    ensures
        text::four_digits(exif_date(data).year as nat) + datetime::after_year(exif_date(data))
            == repeated_string(data),
{
    lemma_year_repeats(data);
    lemma_digits_repeat(data, 5);
    lemma_digits_repeat(data, 8);
    lemma_digits_repeat(data, 11);
    lemma_digits_repeat(data, 14);
    lemma_digits_repeat(data, 17);
    let c = |i: int| data[i] as char;
    assert(datetime::after_year(exif_date(data)) =~= seq![
        '-', c(5), c(6), '-', c(8), c(9), 'T', c(11), c(12), ':', c(14), c(15), ':', c(17), c(18),
    ]);
    assert(text::four_digits(exif_date(data).year as nat) + datetime::after_year(exif_date(data))
        =~= repeated_string(data));
}

/// Without an offset the text of a moment is the string in the photo with
/// dashes in the date and a `T` before the time. It holds for years of four
/// digits that do not begin with a zero.
pub proof fn law_text_repeats_the_string(data: Seq<u8>)
    requires
        is_exif_date(data),
        data[0] != ascii::ZERO,
    ensures
        datetime::datetime_text(exif_date(data), None) == repeated_string(data),
{
    lemma_year_repeats(data);
    lemma_string_repeats(data);
    text::lemma_four_digits(exif_date(data).year as nat);
}

/// A photo with a date and an offset of at least an hour gives a text that is
/// the string of the date, with dashes and a `T`, followed by the time zone.
pub proof fn law_text_of_a_photo(
    fields: Map<(u16, u16), Option<Seq<Seq<u8>>>>,
    dates: Seq<Seq<u8>>,
    offsets: Seq<Seq<u8>>,
    offset: Offset,
)
    requires
        primary_field(fields, DATE_TIME_ORIGINAL) == Some(Some(dates)),
        dates.len() > 0,
        is_exif_date(dates[0]),
        primary_field(fields, OFFSET_TIME_ORIGINAL) == Some(Some(offsets)),
        offsets.len() > 0,
        offset::offset_of(offsets[0]) == Ok::<Offset, offset::OffsetError>(offset),
        offset.hours > 0,
    ensures
        fields_timestamp(fields) == Ok::<(DateTime, Option<Offset>), TimestampError>(
            (exif_date(dates[0]), Some(offset)),
        ),
        datetime::datetime_text(exif_date(dates[0]), Some(offset)) == repeated_string(dates[0])
            + datetime::zone_suffix(datetime::zone_seconds(offset)),
{
    lemma_year_repeats(dates[0]);
    lemma_string_repeats(dates[0]);
}

/// What a field's view says: whether there is one, whether its value is made
/// of strings, and each of the strings as it is.
pub proof fn law_field_views(strings: Vec<Vec<u8>>)
    ensures
        field_view(None) is None,
        field_view(Some(FieldValue::Other)) == Some(None::<Seq<Seq<u8>>>),
        field_view(Some(FieldValue::Ascii(strings))) matches Some(Some(seen)) && {
            &&& seen.len() == strings@.len()
            &&& forall|i: int| 0 <= i < strings@.len() ==> #[trigger] seen[i] == strings@[i]@
        },
{
}

/// Every number of a date is the one that its digits make: four for the year,
/// two for each other; and a date has no part of a second and no time zone.
pub proof fn law_date_has_the_numbers_of_its_digits(data: Seq<u8>)
    requires
        is_exif_date(data),
    ensures
        exif_date(data).year == (data[0] - 48) * 1000 + (data[1] - 48) * 100 + (data[2] - 48) * 10
            + (data[3] - 48),
        exif_date(data).month == (data[5] - 48) * 10 + (data[6] - 48),
        exif_date(data).day == (data[8] - 48) * 10 + (data[9] - 48),
        exif_date(data).hour == (data[11] - 48) * 10 + (data[12] - 48),
        exif_date(data).minute == (data[14] - 48) * 10 + (data[15] - 48),
        exif_date(data).second == (data[17] - 48) * 10 + (data[18] - 48),
        exif_date(data).nanosecond is None,
        exif_date(data).offset is None,
        datetime::has_two_digit_parts(exif_date(data)),
{
    assert(forall|i: int| 0 <= i < 4 ==> 48 <= #[trigger] data[i] <= 57);
    assert(forall|i: int| 5 <= i < 7 ==> 48 <= #[trigger] data[i] <= 57);
    assert(forall|i: int| 8 <= i < 10 ==> 48 <= #[trigger] data[i] <= 57);
    assert(forall|i: int| 11 <= i < 13 ==> 48 <= #[trigger] data[i] <= 57);
    assert(forall|i: int| 14 <= i < 16 ==> 48 <= #[trigger] data[i] <= 57);
    assert(forall|i: int| 17 <= i < 19 ==> 48 <= #[trigger] data[i] <= 57);
}

/// Bytes are a date exactly if there are at least nineteen, with colons, a
/// space and colons in their places, and digits in all the other places; what
/// stands behind does not matter.
pub proof fn law_shape_of_dates(data: Seq<u8>)
    ensures
        is_exif_date(data) <==> data.len() >= 19 && forall|i: int|
            0 <= i < 19 ==> if i == 4 || i == 7 || i == 13 || i == 16 {
                #[trigger] data[i] == 58
            } else if i == 10 {
                data[i] == 32
            } else {
                48 <= data[i] <= 57
            },
{
    if is_exif_date(data) {
        assert forall|i: int| 0 <= i < 19 implies if i == 4 || i == 7 || i == 13 || i == 16 {
            #[trigger] data[i] == 58
        } else if i == 10 {
            data[i] == 32
        } else {
            48 <= data[i] <= 57
        } by {
            assert(ascii::is_digit(data[i]) || i == 4 || i == 7 || i == 10 || i == 13 || i == 16);
        }
    } else if data.len() >= 19 {
        if forall|i: int|
            0 <= i < 19 ==> if i == 4 || i == 7 || i == 13 || i == 16 {
                #[trigger] data[i] == 58
            } else if i == 10 {
                data[i] == 32
            } else {
                48 <= data[i] <= 57
            } {
            assert(data[4] == 58 && data[7] == 58 && data[10] == 32 && data[13] == 58 && data[16]
                == 58);
            assert(digits_at(data, 0, 4) && digits_at(data, 5, 7) && digits_at(data, 8, 10));
            assert(digits_at(data, 11, 13) && digits_at(data, 14, 16) && digits_at(data, 17, 19));
        }
    }
}

/// The first string of a photo's date decides: if it is a date, that is the
/// moment, exactly, and it is given whatever the offset field holds; else there
/// is an error that tells what is wrong.
pub proof fn law_date_field_decides_the_moment(fields: Map<(u16, u16), Option<Seq<Seq<u8>>>>)
    ensures
        match fields.get((0u16, 0x9003u16)) {
            None => fields_timestamp(fields) == Err::<(DateTime, Option<Offset>), TimestampError>(
                TimestampError::NoField,
            ),
            Some(None) => fields_timestamp(fields) == Err::<
                (DateTime, Option<Offset>),
                TimestampError,
            >(TimestampError::UnsupportedType),
            Some(Some(dates)) => {
                &&& dates.len() == 0 ==> fields_timestamp(fields) == Err::<
                    (DateTime, Option<Offset>),
                    TimestampError,
                >(TimestampError::UnsupportedType)
                &&& dates.len() > 0 && !is_exif_date(dates[0]) ==> fields_timestamp(fields) == Err::<
                    (DateTime, Option<Offset>),
                    TimestampError,
                >(TimestampError::NoValue)
                &&& dates.len() > 0 && is_exif_date(dates[0]) ==> fields_timestamp(fields) is Ok
                    && fields_timestamp(fields)->Ok_0.0 == exif_date(dates[0])
            },
        },
{
}

/// Whether the offset field gives an offset that can be read.
pub open spec fn has_readable_offset(fields: Map<(u16, u16), Option<Seq<Seq<u8>>>>) -> bool {
    fields.get((0u16, 0x9011u16)) matches Some(Some(offsets)) && offsets.len() > 0
        && offset::offset_of(offsets[0]) is Ok
}

/// The first string of a photo's offset decides: if it can be read, the moment
/// has that offset, with its hours, minutes and sign; else it has none.
pub proof fn law_offset_field_decides_the_offset(fields: Map<(u16, u16), Option<Seq<Seq<u8>>>>)
    requires
        fields_timestamp(fields) is Ok,
    ensures
        fields_timestamp(fields)->Ok_0.1 is Some <==> has_readable_offset(fields),
        fields.get((0u16, 0x9011u16)) matches Some(Some(offsets)) ==> offsets.len() > 0 ==> (
        offset::offset_of(offsets[0]) matches Ok(offset) ==> fields_timestamp(fields)->Ok_0.1
            == Some(offset)),
        fields_timestamp(fields)->Ok_0.1 == field_offset(fields.get((0u16, 0x9011u16))),
{
}

/// Whether a text repeats the string of a date: the last fifteen characters are
/// those of the string, with a dash for a colon in the date and a `T` for the
/// space, and what stands before them is read as the year.
pub open spec fn repeats_date(s: Seq<char>, data: Seq<u8>) -> bool {
    &&& s.len() > 15
    &&& text::is_numeral(s.take(s.len() - 15))
    &&& text::numeral_value(s.take(s.len() - 15)) == (data[0] - 48) * 1000 + (data[1] - 48) * 100
        + (data[2] - 48) * 10 + (data[3] - 48)
    &&& s.len() > 16 ==> s[0] != '0'
    &&& forall|i: int|
        4 <= i < 19 ==> #[trigger] s[s.len() - 19 + i] == if i == 4 || i == 7 {
            '-'
        } else if i == 10 {
            'T'
        } else {
            data[i] as char
        }
    &&& data[0] != 48 ==> s.len() == 19 && forall|i: int|
        0 <= i < 4 ==> #[trigger] s[i] == data[i] as char
}

/// Whether a text repeats the strings of a date and of an offset with a sign:
/// the date with dashes and a `T`, then the sign, the two digits of the hours
/// and `:00`.
pub open spec fn repeats_date_and_zone(s: Seq<char>, date: Seq<u8>, zone: Seq<u8>) -> bool {
    &&& s.len() == 25
    &&& forall|i: int|
        0 <= i < 19 ==> #[trigger] s[i] == if i == 4 || i == 7 {
            '-'
        } else if i == 10 {
            'T'
        } else {
            date[i] as char
        }
    &&& s[19] == zone[0] as char
    &&& s[20] == zone[1] as char && s[21] == zone[2] as char
    &&& s[22] == ':' && s[23] == '0' && s[24] == '0'
}

/// Without an offset the text of every date repeats its string.
pub proof fn law_local_text_repeats_every_date(data: Seq<u8>)
    requires
        is_exif_date(data),
    ensures
        repeats_date(datetime::datetime_text(exif_date(data), None), data),
{
    let s = datetime::datetime_text(exif_date(data), None);
    let year = text::decimal(exif_date(data).year as nat);
    let whole = repeated_string(data);
    let after = datetime::after_year(exif_date(data));
    let padded = text::four_digits(exif_date(data).year as nat);
    assert(exif_date(data).year == (data[0] - 48) * 1000 + (data[1] - 48) * 100 + (data[2] - 48)
        * 10 + (data[3] - 48)) by {
        law_date_has_the_numbers_of_its_digits(data);
    }
    assert(whole == padded + after) by {
        lemma_string_repeats(data);
    }
    assert(whole.len() == 19 && (padded + after).len() == padded.len() + after.len());
    assert(after.len() == 15);
    assert(s == year + after);
    text::law_decimal_reads_back(exif_date(data).year as nat);
    assert(s.take(s.len() - 15) =~= year);
    assert(s[0] == year[0]);
    assert forall|i: int| 4 <= i < 19 implies #[trigger] s[s.len() - 19 + i] == repeated_char(
        data,
        i,
    ) by {
        assert(s[s.len() - 19 + i] == after[i - 4]);
        assert(whole[i] == after[i - 4]);
    }
    if data[0] != 48 {
        law_text_repeats_the_string(data);
    }
}

/// A photo whose date can be read and whose offset is missing or cannot be read
/// gives the moment of the date, no offset, and a text that repeats the string.
pub proof fn law_photo_without_offset(
    fields: Map<(u16, u16), Option<Seq<Seq<u8>>>>,
    dates: Seq<Seq<u8>>,
)
    requires
        fields.get((0u16, 0x9003u16)) == Some(Some(dates)),
        dates.len() > 0,
        is_exif_date(dates[0]),
        !has_readable_offset(fields),
    ensures
        fields_timestamp(fields) == Ok::<(DateTime, Option<Offset>), TimestampError>(
            (exif_date(dates[0]), None),
        ),
        datetime::has_text(exif_date(dates[0]), None),
        repeats_date(
            datetime::datetime_text(
                fields_timestamp(fields)->Ok_0.0,
                fields_timestamp(fields)->Ok_0.1,
            ),
            dates[0],
        ),
{
    law_local_text_repeats_every_date(dates[0]);
}

/// The contents of a file give what their metadata's fields give, and an error
/// if there is no metadata that can be read.
pub proof fn law_contents_give_what_the_fields_give(contents: Seq<u8>)
    ensures
        container_fields(contents) is None ==> contents_timestamp(contents) == Err::<
            (DateTime, Option<Offset>),
            TimestampError,
        >(TimestampError::UnreadableMetadata),
        container_fields(contents) matches Some(fields) ==> contents_timestamp(contents)
            == fields_timestamp(fields),
{
}

/// What one field gives depends on its first string alone: the date that the
/// string is, or the offset that it is read as.
pub proof fn law_first_string_decides(strings: Seq<Seq<u8>>)
    ensures
        field_date(None) == Err::<DateTime, TimestampError>(TimestampError::NoField),
        field_date(Some(None)) == Err::<DateTime, TimestampError>(TimestampError::UnsupportedType),
        strings.len() == 0 ==> field_date(Some(Some(strings))) == Err::<DateTime, TimestampError>(
            TimestampError::UnsupportedType,
        ),
        strings.len() > 0 && is_exif_date(strings[0]) ==> field_date(Some(Some(strings))) == Ok::<
            DateTime,
            TimestampError,
        >(exif_date(strings[0])),
        strings.len() > 0 && !is_exif_date(strings[0]) ==> field_date(Some(Some(strings)))
            == Err::<DateTime, TimestampError>(TimestampError::NoValue),
        field_offset(None) is None,
        field_offset(Some(None)) is None,
        strings.len() == 0 ==> field_offset(Some(Some(strings))) is None,
        strings.len() > 0 ==> (offset::offset_of(strings[0]) is Err <==> field_offset(
            Some(Some(strings)),
        ) is None),
        strings.len() > 0 && offset::offset_of(strings[0]) is Ok ==> field_offset(
            Some(Some(strings)),
        ) == Some(offset::offset_of(strings[0])->Ok_0),
{
}

} // verus!

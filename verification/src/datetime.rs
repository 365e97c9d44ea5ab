//! The moment at which a photo was taken, and the text that stands for it.

use chrono::TimeZone;
use vstd::prelude::*;

use crate::offset;
use crate::offset::Offset;
use crate::text;

verus! {

/// A date and a time of day as a photo holds them. Nothing limits the numbers:
/// a month may be 13.
#[derive(Debug, Clone, Copy, PartialEq, Eq)]
pub struct DateTime {
    pub year: u16,
    pub month: u8,
    pub day: u8,
    pub hour: u8,
    pub minute: u8,
    pub second: u8,
    /// The part of the second, in nanoseconds.
    pub nanosecond: Option<u32>,
    /// The offset of the time zone, in minutes.
    pub offset: Option<i16>,
}

pub open spec fn is_leap_year(year: int) -> bool {
    year % 4 == 0 && (year % 100 != 0 || year % 400 == 0)
}

pub open spec fn days_in_month(year: int, month: int) -> int {
    if month == 2 {
        if is_leap_year(year) {
            29
        } else {
            28
        }
    } else if month == 4 || month == 6 || month == 9 || month == 11 {
        30
    } else {
        31
    }
}

/// Whether the day is in the calendar and the time is one that a clock shows.
pub open spec fn is_calendar_time(datetime: DateTime) -> bool {
    &&& 1 <= datetime.month <= 12
    &&& 1 <= datetime.day <= days_in_month(datetime.year as int, datetime.month as int)
    &&& datetime.hour < 24
    &&& datetime.minute < 60
    &&& datetime.second < 60
}

/// What stands behind the year: month, day and time of day.
pub open spec fn after_year(datetime: DateTime) -> Seq<char> {
    seq!['-'] + text::two_wide(datetime.month as nat) + seq!['-'] + text::two_wide(
        datetime.day as nat,
    ) + seq!['T'] + text::two_wide(datetime.hour as nat) + seq![':'] + text::two_wide(
        datetime.minute as nat,
    ) + seq![':'] + text::two_wide(datetime.second as nat)
}

/// The text of a date and a time without a time zone.
pub open spec fn local_text(datetime: DateTime) -> Seq<char> {
    text::decimal(datetime.year as nat) + after_year(datetime)
}

/// The year as RFC 3339 wants it: four digits, and a sign where these are not enough.
pub open spec fn rfc3339_year(year: nat) -> Seq<char> {
    if year <= 9999 {
        text::four_digits(year)
    } else {
        seq!['+'] + text::decimal(year)
    }
}

/// The time zone, so many seconds east of UTC, to the nearest minute.
pub open spec fn zone_suffix(seconds: int) -> Seq<char> {
    let minutes = if seconds < 0 {
        (30 - seconds) / 60
    } else {
        (30 + seconds) / 60
    };
    seq![
        if seconds < 0 {
            '-'
        } else {
            '+'
        },
    ] + text::two_wide((minutes / 60) as nat) + seq![':'] + text::two_wide((minutes % 60) as nat)
}

/// The text of a local date and time in a time zone so many seconds east of UTC.
pub open spec fn rfc3339_text(datetime: DateTime, seconds: int) -> Seq<char> {
    rfc3339_year(datetime.year as nat) + after_year(datetime) + zone_suffix(seconds)
}

/// Whether so many seconds east or west of UTC are a time zone: less than a day.
pub open spec fn is_zone(seconds: int) -> bool {
    -86400 < seconds < 86400
}

/// The local date and time in the time zone that `chrono::FixedOffset::east_opt`
/// makes of so many seconds, put together by `chrono::TimeZone::with_ymd_and_hms`
/// and written out by `chrono::DateTime::to_rfc3339`.
///
/// There is a text exactly if the time zone is less than a day from UTC, the
/// day is in the calendar and the time is one that a clock shows; then it is
/// the local date and time followed by the time zone.
#[verifier::external_body]
fn rfc3339_east(datetime: &DateTime, seconds: i32) -> (r: Option<String>)
    ensures
        (r is Some) == (is_zone(seconds as int) && is_calendar_time(*datetime)),
        r matches Some(written) ==> written@ == rfc3339_text(*datetime, seconds as int),
{
    chrono::FixedOffset::east_opt(seconds)?.with_ymd_and_hms(
        datetime.year.into(),
        datetime.month.into(),
        datetime.day.into(),
        datetime.hour.into(),
        datetime.minute.into(),
        datetime.second.into(),
    ).single().map(|local| local.to_rfc3339())
}

/// As `rfc3339_east`, but in the time zone that `chrono::FixedOffset::west_opt`
/// makes: so many seconds west of UTC.
#[verifier::external_body]
fn rfc3339_west(datetime: &DateTime, seconds: i32) -> (r: Option<String>)
    ensures
        (r is Some) == (is_zone(seconds as int) && is_calendar_time(*datetime)),
        r matches Some(written) ==> written@ == rfc3339_text(*datetime, -(seconds as int)),
{
    chrono::FixedOffset::west_opt(seconds)?.with_ymd_and_hms(
        datetime.year.into(),
        datetime.month.into(),
        datetime.day.into(),
        datetime.hour.into(),
        datetime.minute.into(),
        datetime.second.into(),
    ).single().map(|local| local.to_rfc3339())
}

/// Whether an offset makes it into the text. One of less than an hour does not.
pub open spec fn names_zone(offset: Option<Offset>) -> bool {
    offset matches Some(offset) && offset.hours > 0
}

/// The seconds that an offset lies east of UTC. Only its hours count, and of
/// these what fits into a signed number of 32 bits.
pub open spec fn zone_seconds(offset: Offset) -> int {
    if offset.is_negative {
        -((offset.hours as i32) * 3600)
    } else {
        (offset.hours as i32) * 3600
    }
}

/// Whether there is a text: always without a time zone, and with one if it is
/// less than a day from UTC and the date and time exist.
pub open spec fn has_text(datetime: DateTime, offset: Option<Offset>) -> bool {
    names_zone(offset) ==> -24 < (offset->Some_0.hours as i32) < 24 && is_calendar_time(datetime)
}

/// The text that stands for a date and a time with an offset.
pub open spec fn datetime_text(datetime: DateTime, offset: Option<Offset>) -> Seq<char> {
    if names_zone(offset) {
        rfc3339_text(datetime, zone_seconds(offset->Some_0))
    } else {
        local_text(datetime)
    }
}

fn after_year_string(datetime: &DateTime) -> (r: String)
    ensures
        r@ == after_year(*datetime),
{
    proof {
        reveal_strlit("-");
        reveal_strlit("T");
        reveal_strlit(":");
        assert("-"@ =~= seq!['-']);
        assert("T"@ =~= seq!['T']);
        assert(":"@ =~= seq![':']);
    }
    let mut r = "-".to_owned();
    text::append_two_wide(&mut r, datetime.month as u64);
    r.append("-");
    text::append_two_wide(&mut r, datetime.day as u64);
    r.append("T");
    text::append_two_wide(&mut r, datetime.hour as u64);
    r.append(":");
    text::append_two_wide(&mut r, datetime.minute as u64);
    r.append(":");
    text::append_two_wide(&mut r, datetime.second as u64);
    r
}

fn local_string(datetime: &DateTime) -> (r: String)
    ensures
        r@ == local_text(*datetime),
{
    let mut r = String::new();
    text::append_decimal(&mut r, datetime.year as u64);
    assert(r@ =~= text::decimal(datetime.year as nat));
    let rest = after_year_string(datetime);
    r.append(rest.as_str());
    r
}

/// The text that stands for a date and a time with an offset, if there is one.
pub fn checked_datetime_string(datetime: &DateTime, offset: &Option<Offset>) -> (r: Option<String>)
    ensures
        r is Some <==> has_text(*datetime, *offset),
        r matches Some(written) ==> written@ == datetime_text(*datetime, *offset),
{
    match offset {
        Some(offset) if offset.hours > 0 => {
            let hours = #[verifier::truncate]
            (offset.hours as i32);
            match hours.checked_mul(3600) {
                None => None,
                Some(seconds) => if offset.is_negative {
                    rfc3339_west(datetime, seconds)
                } else {
                    rfc3339_east(datetime, seconds)
                },
            }
        },
        _ => Some(local_string(datetime)),
    }
}

/// The text that stands for a date and a time with an offset.
pub fn get_datetime_string(datetime: DateTime, offset: Option<Offset>) -> (r: String)
    requires
        has_text(datetime, offset),
    ensures
        r@ == datetime_text(datetime, offset),
{
    checked_datetime_string(&datetime, &offset).unwrap()
}

/// With an offset of at least an hour the text is the local date and time
/// followed by the time zone. It holds for years of four digits.
pub proof fn law_zone_follows_local_text(datetime: DateTime, offset: Offset)
    requires
        1000 <= datetime.year <= 9999,
        offset.hours > 0,
    ensures
        datetime_text(datetime, Some(offset)) == datetime_text(datetime, None) + zone_suffix(
            zone_seconds(offset),
        ),
{
    text::lemma_four_digits(datetime.year as nat);
}

/// The minutes of an offset never show in the text.
pub proof fn law_offset_minutes_do_not_show(datetime: DateTime, offset: Offset, minutes: usize)
    ensures
        datetime_text(datetime, Some(offset)) == datetime_text(
            datetime,
            Some(Offset { minutes, ..offset }),
        ),
        offset.hours == 0 ==> datetime_text(datetime, Some(offset)) == datetime_text(
            datetime,
            None,
        ),
{
}

/// The time zone at the end of a text, read as an offset, has the hours and
/// the sign of the offset that the text was made with.
pub proof fn law_zone_suffix_reads_back(offset: Offset)
    requires
        0 < offset.hours < 24,
    ensures
        offset::offset_of(
            zone_suffix(zone_seconds(offset)).map_values(|c: char| c as u8),
        ) == Ok::<Offset, offset::OffsetError>(Offset { minutes: 0, ..offset }),
{
    let seconds = zone_seconds(offset);
    let hours = offset.hours as nat;
    text::lemma_two_wide(hours);
    text::lemma_two_wide(0);
    assert((3600 * hours + 30) / 60 / 60 == hours && (3600 * hours + 30) / 60 % 60 == 0);
    let suffix = zone_suffix(seconds).map_values(|c: char| c as u8);
    let plain = Offset { minutes: 0, ..offset };
    assert(suffix =~= offset::written_offset(plain));
    offset::law_written_offset_reads_back(plain);
}

/// Whether all but the year take at most two digits, as in every string that is
/// read from a photo.
pub open spec fn has_two_digit_parts(datetime: DateTime) -> bool {
    datetime.month < 100 && datetime.day < 100 && datetime.hour < 100 && datetime.minute < 100
        && datetime.second < 100
}

/// Whether fifteen characters from a position on are a month, a day and a time,
/// each of two digits, with what stands before each of them.
pub open spec fn reads_after_year(s: Seq<char>, at: int, datetime: DateTime) -> bool {
    &&& s[at] == '-' && s[at + 3] == '-' && s[at + 6] == 'T' && s[at + 9] == ':' && s[at + 12]
        == ':'
    &&& text::is_numeral(s.subrange(at + 1, at + 3)) && text::numeral_value(
        s.subrange(at + 1, at + 3),
    ) == datetime.month
    &&& text::is_numeral(s.subrange(at + 4, at + 6)) && text::numeral_value(
        s.subrange(at + 4, at + 6),
    ) == datetime.day
    &&& text::is_numeral(s.subrange(at + 7, at + 9)) && text::numeral_value(
        s.subrange(at + 7, at + 9),
    ) == datetime.hour
    &&& text::is_numeral(s.subrange(at + 10, at + 12)) && text::numeral_value(
        s.subrange(at + 10, at + 12),
    ) == datetime.minute
    &&& text::is_numeral(s.subrange(at + 13, at + 15)) && text::numeral_value(
        s.subrange(at + 13, at + 15),
    ) == datetime.second
}

proof fn lemma_after_year_reads_back(before: Seq<char>, datetime: DateTime, behind: Seq<char>)
    requires
        has_two_digit_parts(datetime),
    ensures
        after_year(datetime).len() == 15,
        reads_after_year(
            before + after_year(datetime) + behind,
            before.len() as int,
            datetime,
        ),
{
    let month = datetime.month as nat;
    let day = datetime.day as nat;
    let hour = datetime.hour as nat;
    let minute = datetime.minute as nat;
    let second = datetime.second as nat;
    text::lemma_two_wide(month);
    text::lemma_two_wide(day);
    text::lemma_two_wide(hour);
    text::lemma_two_wide(minute);
    text::lemma_two_wide(second);
    let middle = after_year(datetime);
    assert(middle =~= seq![
        '-',
        text::digit(month / 10),
        text::digit(month % 10),
        '-',
        text::digit(day / 10),
        text::digit(day % 10),
        'T',
        text::digit(hour / 10),
        text::digit(hour % 10),
        ':',
        text::digit(minute / 10),
        text::digit(minute % 10),
        ':',
        text::digit(second / 10),
        text::digit(second % 10),
    ]);
    let s = before + middle + behind;
    let at = before.len() as int;
    assert(forall|i: int| 0 <= i < 15 ==> s[at + i] == middle[i]);
    assert(s[at] == middle[0] && s[at + 3] == middle[3] && s[at + 6] == middle[6] && s[at + 9]
        == middle[9] && s[at + 12] == middle[12]);
    assert(s[at + 1] == middle[1] && s[at + 2] == middle[2]);
    assert(s[at + 4] == middle[4] && s[at + 5] == middle[5]);
    assert(s[at + 7] == middle[7] && s[at + 8] == middle[8]);
    assert(s[at + 10] == middle[10] && s[at + 11] == middle[11]);
    assert(s[at + 13] == middle[13] && s[at + 14] == middle[14]);
    text::lemma_two_digits_read_back(s, at + 1, month);
    text::lemma_two_digits_read_back(s, at + 4, day);
    text::lemma_two_digits_read_back(s, at + 7, hour);
    text::lemma_two_digits_read_back(s, at + 10, minute);
    text::lemma_two_digits_read_back(s, at + 13, second);
}

/// A text without a time zone can be read: first comes the year, without
/// leading zeros, and the last fifteen characters are the month, the day and the
/// time, each with two digits.
pub proof fn law_local_text_reads_back(datetime: DateTime)
    requires
        has_two_digit_parts(datetime),
    ensures
        ({
            let s = datetime_text(datetime, None);
            let at = s.len() - 15;
            &&& at > 0
            &&& text::is_numeral(s.take(at))
            &&& text::numeral_value(s.take(at)) == datetime.year
            &&& at > 1 ==> s[0] != '0'
            &&& reads_after_year(s, at, datetime)
        }),
{
    let year = text::decimal(datetime.year as nat);
    text::law_decimal_reads_back(datetime.year as nat);
    lemma_after_year_reads_back(year, datetime, Seq::empty());
    let s = datetime_text(datetime, None);
    assert(year + after_year(datetime) + Seq::empty() =~= s);
    assert(s.take(s.len() - 15) =~= year);
}

/// Without a time zone every number is shown as it is, also one that no
/// calendar and no clock has: the year as it is, each other with at least two
/// digits.
pub proof fn law_local_text_shows_any_number(datetime: DateTime, offset: Option<Offset>)
    requires
        offset is None || offset->Some_0.hours == 0,
    ensures
        has_text(datetime, offset),
        datetime_text(datetime, offset) == text::decimal(datetime.year as nat) + seq!['-']
            + text::two_wide(datetime.month as nat) + seq!['-'] + text::two_wide(
            datetime.day as nat,
        ) + seq!['T'] + text::two_wide(datetime.hour as nat) + seq![':'] + text::two_wide(
            datetime.minute as nat,
        ) + seq![':'] + text::two_wide(datetime.second as nat),
{
    assert(datetime_text(datetime, offset) =~= text::decimal(datetime.year as nat) + seq!['-']
        + text::two_wide(datetime.month as nat) + seq!['-'] + text::two_wide(datetime.day as nat)
        + seq!['T'] + text::two_wide(datetime.hour as nat) + seq![':'] + text::two_wide(
        datetime.minute as nat,
    ) + seq![':'] + text::two_wide(datetime.second as nat));
}

/// The hours that an offset lies east of UTC; of its hours counts what fits
/// into a signed number of 32 bits.
pub open spec fn hours_east(offset: Offset) -> int {
    if offset.is_negative {
        -(offset.hours as i32)
    } else {
        (offset.hours as i32) as int
    }
}

/// A text with a time zone can be read: first comes the year, with four digits
/// or with a plus sign and more; then the month, the day and the time, each with
/// two digits, as they are; the last six characters are the sign of the offset,
/// its hours with two digits, and `:00`.
pub proof fn law_zoned_text_reads_back(datetime: DateTime, offset: Offset)
    requires
        has_two_digit_parts(datetime),
        offset.hours > 0,
        -24 < (offset.hours as i32) < 24,
    ensures
        ({
            let s = datetime_text(datetime, Some(offset));
            let at = s.len() - 21;
            &&& at >= 4
            &&& datetime.year <= 9999 ==> at == 4 && text::is_numeral(s.take(4))
                && text::numeral_value(s.take(4)) == datetime.year
            &&& datetime.year > 9999 ==> s[0] == '+' && s[1] != '0' && text::is_numeral(
                s.subrange(1, at),
            ) && text::numeral_value(s.subrange(1, at)) == datetime.year
            &&& reads_after_year(s, at, datetime)
            &&& s[at + 15] == if hours_east(offset) < 0 {
                '-'
            } else {
                '+'
            }
            &&& text::is_numeral(s.subrange(at + 16, at + 18))
            &&& text::numeral_value(s.subrange(at + 16, at + 18)) == if hours_east(offset) < 0 {
                -hours_east(offset)
            } else {
                hours_east(offset)
            }
            &&& s[at + 18] == ':' && s[at + 19] == '0' && s[at + 20] == '0'
        }),
{
    let s = datetime_text(datetime, Some(offset));
    let year = rfc3339_year(datetime.year as nat);
    let suffix = zone_suffix(zone_seconds(offset));
    let middle = after_year(datetime);
    let hours = (if hours_east(offset) < 0 {
        -hours_east(offset)
    } else {
        hours_east(offset)
    }) as nat;
    assert((3600 * hours + 30) / 60 / 60 == hours && (3600 * hours + 30) / 60 % 60 == 0);
    text::lemma_two_wide(hours);
    text::lemma_two_wide(0);
    assert(suffix =~= seq![
        if hours_east(offset) < 0 {
            '-'
        } else {
            '+'
        },
        text::digit(hours / 10),
        text::digit(hours % 10),
        ':',
        '0',
        '0',
    ]);
    lemma_after_year_reads_back(year, datetime, suffix);
    let at = year.len() as int;
    assert(s == year + middle + suffix);
    assert(s.len() == at + 21);
    assert(forall|i: int| 0 <= i < 6 ==> s[at + 15 + i] == suffix[i]);
    assert(s[at + 15] == suffix[0] && s[at + 18] == suffix[3] && s[at + 19] == suffix[4] && s[at
        + 20] == suffix[5]);
    assert(s[at + 16] == suffix[1] && s[at + 17] == suffix[2]);
    text::lemma_two_digits_read_back(s, at + 16, hours);
    text::law_decimal_reads_back(datetime.year as nat);
    if datetime.year <= 9999 {
        text::law_four_digits_read_back(datetime.year as nat);
        assert(s.take(4) =~= year);
    } else {
        let digits = text::decimal(datetime.year as nat);
        assert(digits.len() >= 3) by {
            let n = datetime.year as nat;
            text::law_decimal_reads_back(n / 10 / 10);
            assert(digits == text::decimal(n / 10).push(text::digit(n % 10)));
            assert(text::decimal(n / 10) == text::decimal(n / 10 / 10).push(
                text::digit(n / 10 % 10),
            ));
        }
        assert(s.subrange(1, at) =~= digits);
        assert(s[1] == digits[0]);
    }
}

/// Which days a month has, told for each month.
pub open spec fn is_day_of_month(year: int, month: int, day: int) -> bool {
    ||| 1 <= month <= 12 && 1 <= day <= 28
    ||| month == 2 && day == 29 && year % 4 == 0 && (year % 100 != 0 || year % 400 == 0)
    ||| 1 <= month <= 12 && month != 2 && 29 <= day <= 30
    ||| (month == 1 || month == 3 || month == 5 || month == 7 || month == 8 || month == 10 || month
        == 12) && day == 31
}

/// With an offset of at least an hour there is a text if and only if the offset
/// is less than a day, the day is in the calendar and the clock shows the time.
pub proof fn law_when_zoned_text_exists(datetime: DateTime, offset: Offset)
    requires
        offset.hours > 0,
    ensures
        has_text(datetime, Some(offset)) <==> -24 < (offset.hours as i32) < 24 && is_day_of_month(
            datetime.year as int,
            datetime.month as int,
            datetime.day as int,
        ) && datetime.hour <= 23 && datetime.minute <= 59 && datetime.second <= 59,
        has_text(datetime, Some(offset)) ==> has_two_digit_parts(datetime),
{
}

} // verus!

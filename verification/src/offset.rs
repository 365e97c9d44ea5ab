//! Time zone offsets as cameras write them into a photo.

use vstd::prelude::*;

use crate::ascii;
use crate::ascii::{COLON, MINUS, NINE, PLUS, SPACE, ZERO};
use crate::text;

verus! {

/// A time zone offset from UTC.
#[derive(Debug, Clone, Copy, PartialEq, Eq, Structural)]
pub struct Offset {
    pub hours: usize,
    pub minutes: usize,
    pub is_negative: bool,
}

/// Why a value is no offset.
#[derive(Debug, Clone, Copy, PartialEq, Eq, Structural)]
pub enum OffsetError {
    /// The value is empty, or blank but for the colon.
    Blank,
    /// Behind the sign there are not five bytes.
    Length { length: usize, num_start: usize },
    /// The hours or the minutes are not text.
    NotText,
    /// The hours or the minutes are not a number.
    NotANumber,
}

/// What an error says, where the words are not those of the standard library.
pub open spec fn error_text(error: OffsetError) -> Option<Seq<char>> {
    match error {
        OffsetError::Blank => Some("offset is empty or invalid"@),
        OffsetError::Length { length, num_start } => Some(
            "offset length is invalid, length "@ + text::decimal(length as nat) + ", numstart "@
                + text::decimal(num_start as nat),
        ),
        OffsetError::NotText => None,
        OffsetError::NotANumber => None,
    }
}

impl OffsetError {
    /// The error in words, where they are not those of the standard library.
    pub fn message(&self) -> (r: Option<String>)
        ensures
            match r {
                Some(message) => error_text(*self) == Some(message@),
                None => error_text(*self) is None,
            },
    {
        match self {
            OffsetError::Blank => Some("offset is empty or invalid".to_owned()),
            OffsetError::Length { length, num_start } => {
                let mut message = "offset length is invalid, length ".to_owned();
                text::append_decimal(&mut message, *length as u64);
                message.append(", numstart ");
                text::append_decimal(&mut message, *num_start as u64);
                Some(message)
            },
            OffsetError::NotText => None,
            OffsetError::NotANumber => None,
        }
    }
}

/// The value that a camera writes where the offset is unknown.
pub open spec fn blank_offset() -> Seq<u8> {
    seq![SPACE, SPACE, SPACE, COLON, SPACE, SPACE]
}

/// The number of bytes that the sign takes.
pub open spec fn sign_width(data: Seq<u8>) -> int {
    if data.len() > 0 && (data[0] == MINUS || data[0] == PLUS) {
        1
    } else {
        0
    }
}

/// What two bytes read as a number give: two digits, or a plus sign and a digit.
pub open spec fn two_byte_number(a: u8, b: u8) -> Result<usize, OffsetError> {
    if ascii::is_digit(a) && ascii::is_digit(b) {
        Ok(((a - ZERO) * 10 + (b - ZERO)) as usize)
    } else if a == PLUS && ascii::is_digit(b) {
        Ok((b - ZERO) as usize)
    } else if vstd::utf8::valid_utf8(seq![a, b]) {
        Err(OffsetError::NotANumber)
    } else {
        Err(OffsetError::NotText)
    }
}

/// What a value read as an offset gives. The hours stand directly behind the
/// sign, the minutes behind one more byte, which may be anything.
pub open spec fn offset_of(data: Seq<u8>) -> Result<Offset, OffsetError> {
    let start = sign_width(data);
    if data.len() == 0 || data == blank_offset() {
        Err(OffsetError::Blank)
    } else if data.len() != start + 5 {
        Err(OffsetError::Length { length: data.len() as usize, num_start: start as usize })
    } else {
        match two_byte_number(data[start], data[start + 1]) {
            Err(error) => Err(error),
            Ok(hours) => match two_byte_number(data[start + 3], data[start + 4]) {
                Err(error) => Err(error),
                Ok(minutes) => Ok(
                    Offset { hours, minutes, is_negative: data[0] == MINUS },
                ),
            },
        }
    }
}

/// Two bytes are text if they are two ASCII characters or one character of two bytes.
proof fn lemma_two_bytes_utf8(a: u8, b: u8)
    ensures
        vstd::utf8::valid_utf8(seq![a, b]) <==> (a < 0x80 && b < 0x80) || (0xc2 <= a <= 0xdf
            && 0x80 <= b <= 0xbf),
{
    let bytes = seq![a, b];
    reveal_with_fuel(vstd::utf8::valid_utf8, 3);
    assert(bytes.subrange(1, 2) =~= seq![b]);
    assert(bytes.subrange(2, 2) =~= Seq::<u8>::empty());
    assert(seq![b].subrange(1, 1) =~= Seq::<u8>::empty());
    assert(a < 0x80 ==> ((a & 0x7f) as u32) < 0x80) by (bit_vector);
    assert(b < 0x80 ==> ((b & 0x7f) as u32) < 0x80) by (bit_vector);
    assert(0xc0 <= a <= 0xdf && 0x80 <= b <= 0xbf ==> {
        let code = (((a & 0x1f) as u32) << 6) | ((b & 0x3f) as u32);
        code < 0x800 && (0x80 <= code <==> 0xc2 <= a)
    }) by (bit_vector);
}

fn parse_two_bytes(a: u8, b: u8) -> (r: Result<usize, OffsetError>)
    ensures
        r == two_byte_number(a, b),
{
    proof {
        lemma_two_bytes_utf8(a, b);
    }
    let last_is_digit = ZERO <= b && b <= NINE;
    if ZERO <= a && a <= NINE && last_is_digit {
        Ok((a - ZERO) as usize * 10 + (b - ZERO) as usize)
    } else if a == PLUS && last_is_digit {
        Ok((b - ZERO) as usize)
    } else if (a < 0x80 && b < 0x80) || (0xc2 <= a && a <= 0xdf && 0x80 <= b && b <= 0xbf) {
        Err(OffsetError::NotANumber)
    } else {
        Err(OffsetError::NotText)
    }
}

fn is_blank(data: &[u8]) -> (r: bool)
    ensures
        r == (data@ == blank_offset()),
{
    let ghost blank = blank_offset();
    assert(blank[0] == SPACE && blank[1] == SPACE && blank[2] == SPACE && blank[3] == COLON
        && blank[4] == SPACE && blank[5] == SPACE);
    let r = data.len() == 6 && data[0] == SPACE && data[1] == SPACE && data[2] == SPACE
        && data[3] == COLON && data[4] == SPACE && data[5] == SPACE;
    assert(r ==> data@ =~= blank);
    r
}

/// Reads an offset such as `+01:00`.
pub fn parse_offset(data: &[u8]) -> (r: Result<Offset, OffsetError>)
    ensures
        r == offset_of(data@),
{
    if data.len() == 0 || is_blank(data) {
        return Err(OffsetError::Blank);
    }
    let is_negative = data[0] == MINUS;
    let num_start: usize = if data[0] == MINUS || data[0] == PLUS {
        1
    } else {
        0
    };
    if data.len() - num_start != 5 {
        return Err(OffsetError::Length { length: data.len(), num_start });
    }
    match parse_two_bytes(data[num_start], data[num_start + 1]) {
        Err(error) => Err(error),
        Ok(hours) => match parse_two_bytes(data[num_start + 3], data[num_start + 4]) {
            Err(error) => Err(error),
            Ok(minutes) => Ok(Offset { hours, minutes, is_negative }),
        },
    }
}

/// The bytes of an offset that is written out: a sign, the hours, a colon, the minutes.
pub open spec fn written_offset(offset: Offset) -> Seq<u8> {
    seq![
        if offset.is_negative {
            MINUS
        } else {
            PLUS
        },
        (ZERO + offset.hours / 10) as u8,
        (ZERO + offset.hours % 10) as u8,
        COLON,
        (ZERO + offset.minutes / 10) as u8,
        (ZERO + offset.minutes % 10) as u8,
    ]
}

/// An offset that was written out as a sign, two digits, a colon and two digits
/// reads back as it was.
pub proof fn law_written_offset_reads_back(offset: Offset)
    requires
        offset.hours < 100,
        offset.minutes < 100,
    ensures
        offset_of(written_offset(offset)) == Ok::<Offset, OffsetError>(offset),
{
    let data = written_offset(offset);
    assert(data != blank_offset()) by {
        assert(data[0] != blank_offset()[0]);
    }
}

/// Whatever reads as an offset has at most 99 hours and 99 minutes, and is
/// negative exactly if it begins with a minus sign.
pub proof fn law_offset_bounds(data: Seq<u8>)
    requires
        offset_of(data) is Ok,
    ensures
        offset_of(data)->Ok_0.hours <= 99,
        offset_of(data)->Ok_0.minutes <= 99,
        offset_of(data)->Ok_0.is_negative <==> data[0] == MINUS,
{
}

/// Whether two bytes are a number: two digits, or a plus sign and a digit.
pub open spec fn is_number_pair(a: u8, b: u8) -> bool {
    (48 <= a <= 57 || a == 43) && 48 <= b <= 57
}

/// A sign, two digits or a plus sign and a digit, any byte, and again two such
/// bytes are an offset: the first number gives its hours, the second its
/// minutes, and a minus sign in front makes it negative.
pub proof fn law_signed_offset(sign: u8, a: u8, b: u8, between: u8, c: u8, d: u8)
    requires
        sign == 43 || sign == 45,
        is_number_pair(a, b),
        is_number_pair(c, d),
    ensures
        offset_of(seq![sign, a, b, between, c, d]) matches Ok(offset) && {
            &&& offset.hours == (if a == 43 {
                b - 48
            } else {
                (a - 48) * 10 + (b - 48)
            })
            &&& offset.minutes == (if c == 43 {
                d - 48
            } else {
                (c - 48) * 10 + (d - 48)
            })
            &&& offset.is_negative == (sign == 45)
        },
{
    let data = seq![sign, a, b, between, c, d];
    assert(data != blank_offset()) by {
        assert(data[0] != blank_offset()[0]);
    }
}

/// Without a sign in front an offset is read in the same way, and is positive.
pub proof fn law_unsigned_offset(a: u8, b: u8, between: u8, c: u8, d: u8)
    requires
        48 <= a <= 57,
        48 <= b <= 57,
        is_number_pair(c, d),
    ensures
        offset_of(seq![a, b, between, c, d]) matches Ok(offset) && {
            &&& offset.hours == (a - 48) * 10 + (b - 48)
            &&& offset.minutes == (if c == 43 {
                d - 48
            } else {
                (c - 48) * 10 + (d - 48)
            })
            &&& !offset.is_negative
        },
{
    let data = seq![a, b, between, c, d];
    assert(data != blank_offset()) by {
        assert(data.len() != blank_offset().len());
    }
}

/// Nothing else is an offset: behind the sign, or from the start, there are
/// five bytes, of which the first two and the last two are numbers.
pub proof fn law_shape_of_offsets(data: Seq<u8>)
    requires
        offset_of(data) is Ok,
    ensures
        data.len() == 6 && (data[0] == 43 || data[0] == 45) || data.len() == 5 && data[0] != 43
            && data[0] != 45,
        is_number_pair(data[data.len() - 5], data[data.len() - 4]),
        is_number_pair(data[data.len() - 2], data[data.len() - 1]),
{
}

/// A value that is refused is refused for one reason: it is empty or blank; it
/// has the wrong length, which is told with the width of its sign; the first of
/// its two numbers that is none is not text, or is text but no number.
pub proof fn law_refused_offsets(data: Seq<u8>)
    requires
        data.len() <= usize::MAX,
    ensures
        offset_of(data) == Err::<Offset, OffsetError>(OffsetError::Blank) <==> data.len() == 0
            || data == seq![32u8, 32u8, 32u8, 58u8, 32u8, 32u8],
        offset_of(data) matches Err(OffsetError::Length { length, num_start }) ==> {
            &&& length == data.len()
            &&& num_start == (if data[0] == 43 || data[0] == 45 {
                1int
            } else {
                0int
            })
            &&& length != num_start + 5
        },
        offset_of(data) == Err::<Offset, OffsetError>(OffsetError::NotText) || offset_of(data)
            == Err::<Offset, OffsetError>(OffsetError::NotANumber) ==> {
            let first = seq![data[data.len() - 5], data[data.len() - 4]];
            let second = seq![data[data.len() - 2], data[data.len() - 1]];
            let culprit = if is_number_pair(first[0], first[1]) {
                second
            } else {
                first
            };
            &&& data.len() == 6 && (data[0] == 43 || data[0] == 45) || data.len() == 5 && data[0]
                != 43 && data[0] != 45
            &&& !is_number_pair(culprit[0], culprit[1])
            &&& offset_of(data) == Err::<Offset, OffsetError>(OffsetError::NotText)
                <==> !vstd::utf8::valid_utf8(culprit)
        },
{
    assert(blank_offset() =~= seq![32u8, 32u8, 32u8, 58u8, 32u8, 32u8]);
    if data.len() >= 5 {
        let start = sign_width(data);
        if data.len() == start + 5 {
            assert(seq![data[start], data[start + 1]] =~= seq![
                data[data.len() - 5],
                data[data.len() - 4],
            ]);
            assert(seq![data[start + 3], data[start + 4]] =~= seq![
                data[data.len() - 2],
                data[data.len() - 1],
            ]);
        }
    }
}

/// The words of the errors, with the numbers of a wrong length.
pub proof fn law_offset_error_words(length: usize, num_start: usize)
    ensures
        error_text(OffsetError::Blank) == Some("offset is empty or invalid"@),
        error_text(OffsetError::Length { length, num_start }) == Some(
            "offset length is invalid, length "@ + text::decimal(length as nat) + ", numstart "@
                + text::decimal(num_start as nat),
        ),
        error_text(OffsetError::NotText) is None,
        error_text(OffsetError::NotANumber) is None,
{
}

} // verus!

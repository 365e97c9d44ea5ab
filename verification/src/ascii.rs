//! The ASCII characters that dates and offsets are made of.

use vstd::prelude::*;

verus! {

pub const SPACE: u8 = 0x20;

pub const PLUS: u8 = 0x2b;

pub const MINUS: u8 = 0x2d;

pub const ZERO: u8 = 0x30;

pub const NINE: u8 = 0x39;

pub const COLON: u8 = 0x3a;

/// Whether a byte is a decimal digit.
pub open spec fn is_digit(b: u8) -> bool {
    ZERO <= b <= NINE
}

} // verus!

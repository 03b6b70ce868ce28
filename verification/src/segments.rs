//! Segment encoding of the 4-digit 7-segment display.
//!
//! Each display byte selects which of the segments {a, b, c, d, e, f, g,
//! decimal point} are lit, with segment `a` in the most significant bit and
//! the decimal point in the least significant one.

use vstd::prelude::*;

verus! {

/// Bit that lights the decimal point of a digit.
pub const DOT_BIT: u8 = 0x01;

/// Segment pattern of a decimal digit, as every caller that renders digits
/// uses it: `a`..`g` from bit 7 down to bit 1, decimal point in bit 0.
pub open spec fn spec_digit_pattern(d: int) -> u8 {
    if d == 0 {
        0xFC
    } else if d == 1 {
        0x60
    } else if d == 2 {
        0xDA
    } else if d == 3 {
        0xF2
    } else if d == 4 {
        0x66
    } else if d == 5 {
        0xB6
    } else if d == 6 {
        0xBE
    } else if d == 7 {
        0xE4
    } else if d == 8 {
        0xFE
    } else if d == 9 {
        0xF6
    } else {
        0x00
    }
}

/// Shared lookup of the segment pattern of a decimal digit.
pub fn digit_pattern(d: u8) -> (r: u8)
    requires
        d < 10,
    ensures
        r == spec_digit_pattern(d as int),
{
    match d {
        0 => 0xFC,
        1 => 0x60,
        2 => 0xDA,
        3 => 0xF2,
        4 => 0x66,
        5 => 0xB6,
        6 => 0xBE,
        7 => 0xE4,
        8 => 0xFE,
        _ => 0xF6,
    }
}

} // verus!

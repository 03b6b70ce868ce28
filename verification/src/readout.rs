//! Fixed numeric readouts rendered to 4-digit segment frames.
//!
//! Each helper lays a number out as the display shows it: most significant
//! digit first, leading zeros blanked to a space, with the decimal point
//! lighting the position it follows.

use vstd::prelude::*;

use crate::segments::spec_digit_pattern;
use crate::segments::digit_pattern;
use crate::segments::DOT_BIT;

verus! {

/// A number up to 9999 right-aligned over the four digits, leading zeros
/// blank.
pub open spec fn spec_number_frame(v: int) -> Seq<u8> {
    seq![
        if v >= 1000 {
            spec_digit_pattern(v / 1000 % 10)
        } else {
            0u8
        },
        if v >= 100 {
            spec_digit_pattern(v / 100 % 10)
        } else {
            0u8
        },
        if v >= 10 {
            spec_digit_pattern(v / 10 % 10)
        } else {
            0u8
        },
        spec_digit_pattern(v % 10),
    ]
}

/// Renders a number right-aligned over the four digits, leading zeros
/// blank.
pub fn number_frame(v: u16) -> (r: [u8; 4])
    requires
        v <= 9999,
    ensures
        r@ == spec_number_frame(v as int),
{
    let d0: u8 = if v >= 1000 {
        digit_pattern(((v / 1000) % 10) as u8)
    } else {
        0u8
    };
    let d1: u8 = if v >= 100 {
        digit_pattern(((v / 100) % 10) as u8)
    } else {
        0u8
    };
    let d2: u8 = if v >= 10 {
        digit_pattern(((v / 10) % 10) as u8)
    } else {
        0u8
    };
    let d3: u8 = digit_pattern((v % 10) as u8);
    let r = [d0, d1, d2, d3];
    proof {
        assert(r@ =~= spec_number_frame(v as int));
    }
    r
}

/// A remaining time as `M M . S S`: minutes right-aligned over the first
/// two digits, seconds zero-padded over the last two, the run/pause dot on
/// the second digit.
pub open spec fn spec_time_frame(time: int, with_dot: bool) -> Seq<u8> {
    seq![
        if time / 60 >= 10 {
            spec_digit_pattern(time / 60 / 10 % 10)
        } else {
            0u8
        },
        if with_dot {
            spec_digit_pattern(time / 60 % 10) | DOT_BIT
        } else {
            spec_digit_pattern(time / 60 % 10)
        },
        spec_digit_pattern(time % 60 / 10),
        spec_digit_pattern(time % 60 % 10),
    ]
}

/// Renders a remaining time in seconds as minutes and seconds, the dot
/// after the minutes marking that the timer is running.
pub fn convert_to_display_format(time: u32, with_dot: bool) -> (r: [u8; 4])
    requires
        time / 60 <= 99,
    ensures
        r@ == spec_time_frame(time as int, with_dot),
{
    let minutes: u32 = time / 60;
    let seconds: u32 = time % 60;
    let d0: u8 = if minutes >= 10 {
        digit_pattern(((minutes / 10) % 10) as u8)
    } else {
        0u8
    };
    let d1base: u8 = digit_pattern((minutes % 10) as u8);
    let d1: u8 = if with_dot {
        d1base | DOT_BIT
    } else {
        d1base
    };
    let d2: u8 = digit_pattern((seconds / 10) as u8);
    let d3: u8 = digit_pattern((seconds % 10) as u8);
    let r = [d0, d1, d2, d3];
    proof {
        assert(r@ =~= spec_time_frame(time as int, with_dot));
    }
    r
}

/// The browse-screen readout: seconds since startup right-aligned over the
/// first three digits with the decimal point, then tenths of a second.
pub open spec fn spec_selection_readout(frame_count: int) -> Seq<u8> {
    let secs = frame_count / 60 % 1000;
    let tenth = frame_count / 6 % 10;
    seq![
        if secs >= 100 {
            spec_digit_pattern(secs / 100 % 10)
        } else {
            0u8
        },
        if secs >= 10 {
            spec_digit_pattern(secs / 10 % 10)
        } else {
            0u8
        },
        spec_digit_pattern(secs % 10) | DOT_BIT,
        spec_digit_pattern(tenth),
    ]
}

/// Renders the browse-screen readout for a frame count.
pub fn selection_readout(frame_count: u64) -> (r: [u8; 4])
    ensures
        r@ == spec_selection_readout(frame_count as int),
{
    let secs: u64 = frame_count / 60 % 1000;
    let tenth: u64 = frame_count / 6 % 10;
    let d0: u8 = if secs >= 100 {
        digit_pattern(((secs / 100) % 10) as u8)
    } else {
        0u8
    };
    let d1: u8 = if secs >= 10 {
        digit_pattern(((secs / 10) % 10) as u8)
    } else {
        0u8
    };
    let d2: u8 = digit_pattern((secs % 10) as u8) | DOT_BIT;
    let d3: u8 = digit_pattern(tenth as u8);
    let r = [d0, d1, d2, d3];
    proof {
        assert(r@ =~= spec_selection_readout(frame_count as int));
    }
    r
}

} // verus!

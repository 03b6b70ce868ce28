//! Analog rotary control reader interface.
//!
//! The ADC read itself is hardware work and stays outside the crate; what
//! belongs here is the pure mapping from a raw sample onto a percentage.
//! The raw range saturates a little below the converter's full scale, so
//! the mapping tops out at an empirically chosen raw value and clamps
//! anything beyond it to 100.

use vstd::prelude::*;

verus! {

/// Raw sample value that maps to 100 percent; larger samples clamp.
pub const VOLUME_RAW_FULL_SCALE: u16 = 3270;

/// The percentage a raw sample maps to: proportional below full scale,
/// clamped to 100 above it.
pub open spec fn spec_to_percent(raw: u16) -> int {
    if raw * 100 / (VOLUME_RAW_FULL_SCALE as int) > 100 {
        100
    } else {
        raw * 100 / (VOLUME_RAW_FULL_SCALE as int)
    }
}

/// The analog rotary control. Its hardware reader lives outside the crate
/// and hands raw samples in; the scaling onto percentages lives here.
pub struct Volume;

impl Volume {
    /// Maps a raw sample onto 0..=100 percent; out-of-range samples clamp
    /// rather than overflow.
    pub fn to_percent(raw_value: u16) -> (r: u16)
        ensures
            r == spec_to_percent(raw_value),
            r <= 100,
    {
        let p = (raw_value as u64) * 100 / (VOLUME_RAW_FULL_SCALE as u64);
        if p > 100 {
            100
        } else {
            p as u16
        }
    }
}

} // verus!

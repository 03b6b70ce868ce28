//! Multiplexed 4-digit 7-segment display driver state.
//!
//! The application layer replaces the 4-byte frame and the per-digit
//! brightness vector wholesale — never one byte at a time — so the
//! multiplexing worker, which takes one snapshot per digit slot, can never
//! see a mix of two frames. Each multiplex slot drives the segment lines
//! with one digit's pattern, asserts exactly that digit's common line for a
//! fraction of the period proportional to its brightness, and leaves every
//! common line off for the rest of the period.

use vstd::prelude::*;

use vstd::arithmetic::div_mod::lemma_div_is_ordered;
use vstd::arithmetic::mul::lemma_mul_inequality;

use crate::keys::bit_set;

verus! {

/// Multiplex period of one digit slot, in milliseconds (the worker's tick
/// rate makes one tick one millisecond).
pub const MULTIPLEX_PERIOD_MS: u64 = 4;

/// Highest machine timer rate the duty computation is stated for.
pub const MAX_TICK_HZ: u64 = 1_000_000_000;

/// Counter ticks of the on phase of one digit slot: the brightness
/// percentage of the full period, converted to timer counts. The timer
/// counts `tick_hz / 1_000_000` times per microsecond.
pub open spec fn spec_on_counts(percent: u8, tick_hz: u64) -> int {
    (MULTIPLEX_PERIOD_MS * 1000 * percent / 100) * (tick_hz / 1_000_000)
}

/// Brightness 0 never drives the digit: its on phase is empty.
pub proof fn lemma_duty_zero(tick_hz: u64)
    ensures
        spec_on_counts(0, tick_hz) == 0,
{
}

/// Brightness 100 drives the digit for the whole multiplex period.
pub proof fn lemma_duty_full(tick_hz: u64)
    ensures
        spec_on_counts(100, tick_hz) == (MULTIPLEX_PERIOD_MS * 1000) * (tick_hz / 1_000_000),
{
}

/// The visible duty cycle is monotonic in the brightness value.
pub proof fn lemma_duty_monotone(b1: u8, b2: u8, tick_hz: u64)
    requires
        b1 <= b2,
    ensures
        spec_on_counts(b1, tick_hz) <= spec_on_counts(b2, tick_hz),
{
    let n1 = MULTIPLEX_PERIOD_MS * 1000 * b1;
    let n2 = MULTIPLEX_PERIOD_MS * 1000 * b2;
    assert(n1 <= n2) by (nonlinear_arith)
        requires
            b1 <= b2,
            n1 == MULTIPLEX_PERIOD_MS * 1000 * b1,
            n2 == MULTIPLEX_PERIOD_MS * 1000 * b2,
    ;
    lemma_div_is_ordered(n1 as int, n2 as int, 100);
    let k = tick_hz as int / 1_000_000;
    assert(k >= 0) by (nonlinear_arith)
        requires
            k == tick_hz as int / 1_000_000,
            tick_hz >= 0,
    ;
    lemma_mul_inequality(n1 as int / 100, n2 as int / 100, k);
}

/// What one multiplex slot does: assert `segments` on the shared segment
/// lines, then drive the common line of `digit` — and no other — for
/// `on_counts` timer counts, zero meaning the on phase is skipped and the
/// digit stays dark.
#[derive(Clone, Copy)]
pub struct DigitPlan {
    pub segments: u8,
    pub digit: usize,
    pub on_counts: u64,
}

/// Shared state of the 4-digit display: the segment frame and the
/// brightness vector, updated at independent cadences.
pub struct LedDriver {
    display_data: [u8; 4],
    brightness: [u8; 4],
}

impl LedDriver {
    /// The 4-byte segment frame, one byte per digit.
    pub closed spec fn frame(self) -> Seq<u8> {
        self.display_data@
    }

    /// The brightness vector, one 0..=100 percentage per digit.
    pub closed spec fn brightness(self) -> Seq<u8> {
        self.brightness@
    }

    pub fn new() -> (r: LedDriver)
        ensures
            r.frame() == seq![0u8, 0u8, 0u8, 0u8],
            r.brightness() == seq![100u8, 100u8, 100u8, 100u8],
    {
        let r = LedDriver {
            display_data: [0u8, 0u8, 0u8, 0u8],
            brightness: [100u8, 100u8, 100u8, 100u8],
        };
        proof {
            assert(r.display_data@ =~= seq![0u8, 0u8, 0u8, 0u8]);
            assert(r.brightness@ =~= seq![100u8, 100u8, 100u8, 100u8]);
        }
        r
    }

    /// Replaces the whole 4-digit frame in one call; a reader never sees a
    /// mix of the old and the new frame.
    pub fn write(&mut self, data: [u8; 4])
        ensures
            final(self).frame() == data@,
            final(self).brightness() == old(self).brightness(),
    {
        self.display_data = data;
    }

    /// Blanks the whole frame.
    pub fn clear(&mut self)
        ensures
            final(self).frame() == seq![0u8, 0u8, 0u8, 0u8],
            final(self).brightness() == old(self).brightness(),
    {
        self.write([0u8, 0u8, 0u8, 0u8]);
        proof {
            assert(self.display_data@ =~= seq![0u8, 0u8, 0u8, 0u8]);
        }
    }

    /// Parses a numeric readout text and, where it is accepted, replaces
    /// the whole frame with it; rejected text leaves the frame as it was.
    pub fn write_format(&mut self, format: &String)
        ensures
            match crate::parser::spec_parse(format@) {
                Some(patterns) => final(self).frame() == patterns,
                None => final(self).frame() == old(self).frame(),
            },
            final(self).brightness() == old(self).brightness(),
    {
        match crate::parser::parse(format) {
            Some(patterns) => self.write(patterns),
            None => (),
        }
    }

    /// Sets the brightness target of every digit in one call.
    pub fn set_brightness(&mut self, brightness: [u8; 4])
        ensures
            final(self).brightness() == brightness@,
            final(self).frame() == old(self).frame(),
    {
        self.brightness = brightness;
    }

    /// Plans one whole multiplex cycle from a single snapshot of the
    /// shared state: all four digits of the cycle show the same frame, so
    /// a cycle can never mix two writes.
    pub fn plan_cycle(&self, tick_hz: u64) -> (r: [DigitPlan; 4])
        requires
            tick_hz <= MAX_TICK_HZ,
        ensures
            forall|k: int|
                0 <= k < 4 ==> (#[trigger] r@[k]).digit == k && r@[k].segments == self.frame()[k]
                    && r@[k].on_counts == spec_on_counts(self.brightness()[k], tick_hz),
    {
        let r = [
            self.multiplex_step(0, tick_hz),
            self.multiplex_step(1, tick_hz),
            self.multiplex_step(2, tick_hz),
            self.multiplex_step(3, tick_hz),
        ];
        r
    }

    /// Plans multiplex slot `i`: digit `i % 4` with its current pattern and
    /// its brightness converted to on-phase timer counts.
    pub fn multiplex_step(&self, i: u64, tick_hz: u64) -> (p: DigitPlan)
        requires
            tick_hz <= MAX_TICK_HZ,
        ensures
            p.digit == i % 4,
            p.digit < 4,
            p.segments == self.frame()[i as int % 4],
            p.on_counts == spec_on_counts(self.brightness()[i as int % 4], tick_hz),
    {
        let d = (i % 4) as usize;
        let percent = self.brightness[d];
        DigitPlan {
            segments: self.display_data[d],
            digit: d,
            on_counts: to_counter_value(percent, tick_hz),
        }
    }
}

/// Converts a brightness percentage into the timer counts of the on phase.
pub fn to_counter_value(percent: u8, tick_hz: u64) -> (r: u64)
    requires
        tick_hz <= MAX_TICK_HZ,
    ensures
        r == spec_on_counts(percent, tick_hz),
{
    let us_per_count = tick_hz / 1_000_000;
    let q = MULTIPLEX_PERIOD_MS * 1000 * (percent as u64) / 100;
    proof {
        assert(q * us_per_count <= 10_200_000) by (nonlinear_arith)
            requires
                q <= 10_200,
                us_per_count <= 1_000,
        ;
    }
    q * us_per_count
}

/// The state of the eight shared segment lines under a digit pattern:
/// entry `k` is the line of segment `k` in the order a, b, c, d, e, f, g,
/// decimal point, driven high iff its bit is set in the pattern.
pub fn segment_lines(pattern: u8) -> (r: [bool; 8])
    ensures
        forall|k: int| 0 <= k < 8 ==> r@[k] == bit_set(pattern, (7 - k) as u8),
{
    [
        (pattern & (1u8 << 7)) != 0,
        (pattern & (1u8 << 6)) != 0,
        (pattern & (1u8 << 5)) != 0,
        (pattern & (1u8 << 4)) != 0,
        (pattern & (1u8 << 3)) != 0,
        (pattern & (1u8 << 2)) != 0,
        (pattern & (1u8 << 1)) != 0,
        (pattern & (1u8 << 0)) != 0,
    ]
}

} // verus!

//! Button-matrix scanner state: debounced status history and sticky
//! release events.
//!
//! The physical matrix drives two output lines against three input lines,
//! so one full 6-button sample takes two phases. The scan worker feeds each
//! full sample into [`KeyMatrix::push_sample`], which keeps the three most
//! recent samples and detects a release of a button when its newest sample
//! is 0 while the two samples before were both 1. Detected release bits
//! accumulate in a sticky event register until a reader consumes them.

use vstd::prelude::*;

verus! {

/// Bit assignment of the six physical buttons inside a status byte.
pub struct Button;

impl Button {
    pub const UP: u8 = 0x01;

    pub const LEFT: u8 = 0x02;

    pub const DOWN: u8 = 0x04;

    pub const RIGHT: u8 = 0x08;

    pub const A: u8 = 0x10;

    pub const B: u8 = 0x20;

    /// All six button bits.
    pub const MASK: u8 = 0x3F;
}

/// Whether bit `b` of `x` is set.
pub open spec fn bit_set(x: u8, b: u8) -> bool {
    x & (1u8 << b) != 0
}

/// Release bits detected by one new full sample against the two samples
/// before it: a button released iff it reads 0 now and read 1 both times
/// before.
pub open spec fn spec_release_mask(sample: u8, prev0: u8, prev1: u8) -> u8 {
    !sample & prev0 & prev1 & Button::MASK
}

/// The sample history after one new full sample, newest first.
pub open spec fn step_history(h: Seq<u8>, sample: u8) -> Seq<u8> {
    seq![sample] + h.take(2)
}

/// The sticky release register after one new full sample.
pub open spec fn step_released(r: u8, h: Seq<u8>, sample: u8) -> u8 {
    r | spec_release_mask(sample, h[0], h[1])
}

/// Sample history after a whole sequence of full samples, oldest sample of
/// the sequence applied first.
pub open spec fn run_history(h: Seq<u8>, samples: Seq<u8>) -> Seq<u8>
    decreases samples.len(),
{
    if samples.len() == 0 {
        h
    } else {
        step_history(run_history(h, samples.drop_last()), samples.last())
    }
}

/// Sticky release register after a whole sequence of full samples.
pub open spec fn run_released(h: Seq<u8>, r: u8, samples: Seq<u8>) -> u8
    decreases samples.len(),
{
    if samples.len() == 0 {
        r
    } else {
        step_released(
            run_released(h, r, samples.drop_last()),
            run_history(h, samples.drop_last()),
            samples.last(),
        )
    }
}

/// Debounced button state shared between the scan worker and the
/// application frames.
pub struct KeyMatrix {
    status: [u8; 3],
    released_event: u8,
}

impl KeyMatrix {
    /// The three most recent full samples, newest first.
    pub closed spec fn history(self) -> Seq<u8> {
        self.status@
    }

    /// The sticky release-event register.
    pub closed spec fn released(self) -> u8 {
        self.released_event
    }

    /// The history always holds exactly the three most recent samples.
    pub proof fn lemma_history_len(self)
        ensures
            self.history().len() == 3,
    {
    }

    /// Samples and events can only carry the six button bits: the scan
    /// worker feeds 6-bit samples in, so everything derived from them
    /// stays inside the button mask.
    pub open spec fn wf(self) -> bool {
        &&& self.history()[0] & !Button::MASK == 0
        &&& self.history()[1] & !Button::MASK == 0
        &&& self.history()[2] & !Button::MASK == 0
        &&& self.released() & !Button::MASK == 0
    }

    pub fn new() -> (r: KeyMatrix)
        ensures
            r.history() == seq![0u8, 0u8, 0u8],
            r.released() == 0u8,
            r.wf(),
    {
        let r = KeyMatrix { status: [0u8, 0u8, 0u8], released_event: 0u8 };
        proof {
            assert(r.status@ =~= seq![0u8, 0u8, 0u8]);
            assert(0u8 & !0x3Fu8 == 0) by (bit_vector);
        }
        r
    }

    /// Takes one new full sample from the scan worker: shifts the history
    /// and accumulates the release bits that the sample completes.
    pub fn push_sample(&mut self, sample: u8)
        requires
            sample & !Button::MASK == 0,
        ensures
            old(self).wf() ==> final(self).wf(),
            final(self).history() == step_history(old(self).history(), sample),
            final(self).released() == step_released(
                old(self).released(),
                old(self).history(),
                sample,
            ),
    {
        let prev0 = self.status[0];
        let prev1 = self.status[1];
        self.status[2] = prev1;
        self.status[1] = prev0;
        self.status[0] = sample;
        self.released_event = self.released_event | (!sample & prev0 & prev1 & Button::MASK);
        proof {
            assert(self.status@ =~= step_history(old(self).history(), sample));
            let re = old(self).released();
            assert(re & !0x3Fu8 == 0 ==> (re | (!sample & prev0 & prev1 & 0x3Fu8)) & !0x3Fu8
                == 0) by (bit_vector);
        }
    }

    /// The most recent full sample of the button lines.
    pub fn get_status(&self) -> (r: u8)
        ensures
            r == self.history()[0],
            self.wf() ==> r & !Button::MASK == 0,
    {
        self.status[0]
    }

    /// Whether every button reads pressed right now: the universal abort
    /// gesture.
    pub fn is_pressed_all(&self) -> (r: bool)
        ensures
            r == (self.history()[0] == Button::MASK),
    {
        self.get_status() == Button::MASK
    }

    /// Consumes the pending release events selected by `button_mask`:
    /// returns them and clears exactly those bits, leaving the others
    /// pending.
    pub fn was_released(&mut self, button_mask: u8) -> (r: u8)
        ensures
            r == old(self).released() & button_mask,
            final(self).released() == old(self).released() & !button_mask,
            final(self).history() == old(self).history(),
            old(self).wf() ==> final(self).wf(),
    {
        let taken = self.released_event & button_mask;
        self.released_event = self.released_event & !button_mask;
        proof {
            let re = old(self).released();
            assert(re & !0x3Fu8 == 0 ==> (re & !button_mask) & !0x3Fu8 == 0) by (bit_vector);
        }
        taken
    }
}

/// Bitwise meaning of the release detection: a button's release bit comes
/// out of one new sample exactly when the button reads 0 now, read 1 in
/// both samples before, and is one of the six physical buttons.
pub proof fn lemma_release_mask_bit(sample: u8, prev0: u8, prev1: u8, b: u8)
    requires
        b < 8,
    ensures
        bit_set(spec_release_mask(sample, prev0, prev1), b) <==> !bit_set(sample, b) && bit_set(
            prev0,
            b,
        ) && bit_set(prev1, b) && bit_set(Button::MASK, b),
{
    assert(((!sample & prev0 & prev1 & 0x3Fu8) & (1u8 << b) != 0) <==> (sample & (1u8 << b) == 0)
        && (prev0 & (1u8 << b) != 0) && (prev1 & (1u8 << b) != 0) && (0x3Fu8 & (1u8 << b)
        != 0)) by (bit_vector)
        requires
            b < 8,
    ;
}

/// Reading the release register with a mask consumes exactly the requested
/// bits: the returned value holds the pending bits that the mask selects,
/// and afterwards a bit stays pending iff it was pending and not requested.
pub proof fn lemma_consume_bits(r: u8, mask: u8, b: u8)
    requires
        b < 8,
    ensures
        bit_set(r & mask, b) <==> bit_set(r, b) && bit_set(mask, b),
        bit_set(r & !mask, b) <==> bit_set(r, b) && !bit_set(mask, b),
{
    assert(((r & mask) & (1u8 << b) != 0) <==> (r & (1u8 << b) != 0) && (mask & (1u8 << b)
        != 0)) by (bit_vector)
        requires
            b < 8,
    ;
    assert(((r & !mask) & (1u8 << b) != 0) <==> (r & (1u8 << b) != 0) && (mask & (1u8 << b)
        == 0)) by (bit_vector)
        requires
            b < 8,
    ;
}

/// A bit is set in the sticky release register after a run of full samples
/// iff it was already set before the run, or some sample of the run
/// completed the pressed-pressed-released pattern for that button.
pub proof fn lemma_release_bit_iff(h: Seq<u8>, r: u8, samples: Seq<u8>, b: u8)
    requires
        b < 8,
    ensures
        bit_set(run_released(h, r, samples), b) <==> bit_set(r, b) || (exists|i: int|
            0 <= i < samples.len() && bit_set(
                spec_release_mask(
                    samples[i],
                    run_history(h, samples.take(i))[0],
                    run_history(h, samples.take(i))[1],
                ),
                b,
            )),
    decreases samples.len(),
{
    if samples.len() == 0 {
    } else {
        let prefix = samples.drop_last();
        let n = samples.len() - 1;
        lemma_release_bit_iff(h, r, prefix, b);
        let x = run_released(h, r, prefix);
        let hist = run_history(h, prefix);
        let m = spec_release_mask(samples.last(), hist[0], hist[1]);
        assert((((x | m) & (1u8 << b)) != 0) <==> ((x & (1u8 << b)) != 0) || ((m & (1u8 << b))
            != 0)) by (bit_vector);
        assert(forall|i: int| 0 <= i <= n ==> prefix.take(i) =~= samples.take(i));
        assert(samples.take(n) == prefix);
        if bit_set(run_released(h, r, samples), b) {
            if bit_set(x, b) {
                if !bit_set(r, b) {
                    let i = choose|i: int|
                        0 <= i < prefix.len() && bit_set(
                            spec_release_mask(
                                prefix[i],
                                run_history(h, prefix.take(i))[0],
                                run_history(h, prefix.take(i))[1],
                            ),
                            b,
                        );
                    assert(prefix[i] == samples[i]);
                    assert(0 <= i < samples.len() && bit_set(
                        spec_release_mask(
                            samples[i],
                            run_history(h, samples.take(i))[0],
                            run_history(h, samples.take(i))[1],
                        ),
                        b,
                    ));
                }
            } else {
                assert(samples[n] == samples.last());
                assert(0 <= n < samples.len() && bit_set(
                    spec_release_mask(
                        samples[n],
                        run_history(h, samples.take(n))[0],
                        run_history(h, samples.take(n))[1],
                    ),
                    b,
                ));
            }
        }
        if bit_set(r, b) {
            assert(bit_set(x, b));
        }
        if exists|i: int|
            0 <= i < samples.len() && bit_set(
                spec_release_mask(
                    samples[i],
                    run_history(h, samples.take(i))[0],
                    run_history(h, samples.take(i))[1],
                ),
                b,
            ) {
            let i = choose|i: int|
                0 <= i < samples.len() && bit_set(
                    spec_release_mask(
                        samples[i],
                        run_history(h, samples.take(i))[0],
                        run_history(h, samples.take(i))[1],
                    ),
                    b,
                );
            if i < n {
                assert(prefix[i] == samples[i]);
                assert(0 <= i < prefix.len() && bit_set(
                    spec_release_mask(
                        prefix[i],
                        run_history(h, prefix.take(i))[0],
                        run_history(h, prefix.take(i))[1],
                    ),
                    b,
                ));
                assert(bit_set(x, b));
            } else {
                assert(bit_set(m, b));
            }
        }
    }
}

/// The partial sample of one scan phase: the accumulator with the bit of
/// each button whose input line reads low. An even phase reads the up,
/// right and B buttons; an odd phase reads the left, down and A buttons.
pub open spec fn spec_scan_phase(
    even_phase: bool,
    in1_low: bool,
    in2_low: bool,
    in3_low: bool,
    acc: u8,
) -> u8 {
    if even_phase {
        let r1 = if in1_low { acc | Button::UP } else { acc };
        let r2 = if in2_low { r1 | Button::RIGHT } else { r1 };
        if in3_low { r2 | Button::B } else { r2 }
    } else {
        let r1 = if in1_low { acc | Button::LEFT } else { acc };
        let r2 = if in2_low { r1 | Button::DOWN } else { r1 };
        if in3_low { r2 | Button::A } else { r2 }
    }
}

/// Accumulates the input bits of one scan phase into a partial sample.
pub fn scan_phase(even_phase: bool, in1_low: bool, in2_low: bool, in3_low: bool, acc: u8) -> (r: u8)
    ensures
        r == spec_scan_phase(even_phase, in1_low, in2_low, in3_low, acc),
{
    let mut r = acc;
    if even_phase {
        if in1_low {
            r = r | Button::UP;
        }
        if in2_low {
            r = r | Button::RIGHT;
        }
        if in3_low {
            r = r | Button::B;
        }
    } else {
        if in1_low {
            r = r | Button::LEFT;
        }
        if in2_low {
            r = r | Button::DOWN;
        }
        if in3_low {
            r = r | Button::A;
        }
    }
    r
}

} // verus!

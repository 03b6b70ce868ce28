//! Frame pacing of the application scheduler.
//!
//! The scheduler runs one frame per fixed period of rounded integer
//! microseconds. Sixty such periods fall 20 microseconds short of one
//! second, so accumulating the rounded period alone would drift; instead,
//! once per second — on every 60th frame — the next deadline is stretched
//! to land on an exact one-second boundary.

use vstd::prelude::*;

verus! {

/// Frames per second of the application scheduler.
pub const FRAMES_PER_SECOND: u64 = 60;

/// Rounded frame period in microseconds.
pub const MICRO_SECONDS_PER_FRAME: i64 = 16667;

/// Stretched period of the once-per-second drift-correction frame: what
/// remains of an exact second after 59 rounded periods.
pub const MICRO_SECONDS_ADJUSTMENT: i64 = 1000 * 1000 - MICRO_SECONDS_PER_FRAME * 59;

/// Microseconds scheduled between frame `frame_count` and the next one:
/// the stretched period on a drift-correction frame, the rounded period
/// on every other.
pub open spec fn spec_frame_increment(frame_count: int) -> int {
    if frame_count % 60 == 0 {
        MICRO_SECONDS_ADJUSTMENT as int
    } else {
        MICRO_SECONDS_PER_FRAME as int
    }
}

/// Moves the frame deadline to the next frame: on a drift-correction frame
/// it lands on the exact one-second boundary, otherwise one rounded period
/// later.
pub fn advance_deadline(next_frame_time_us: i64, frame_count: u64) -> (r: i64)
    requires
        next_frame_time_us <= i64::MAX - MICRO_SECONDS_PER_FRAME,
    ensures
        r == next_frame_time_us + spec_frame_increment(frame_count as int),
{
    if frame_count % 60 == 0 {
        next_frame_time_us + MICRO_SECONDS_ADJUSTMENT
    } else {
        next_frame_time_us + MICRO_SECONDS_PER_FRAME
    }
}

/// Whether the frame deadline has been reached: the scheduler then
/// proceeds immediately rather than waiting further.
pub fn frame_due(current_time_us: i64, next_frame_time_us: i64) -> (r: bool)
    ensures
        r == (current_time_us >= next_frame_time_us),
{
    current_time_us >= next_frame_time_us
}

/// Total microseconds scheduled over the `n` frames starting at frame
/// `start`.
pub open spec fn window_sum(start: int, n: nat) -> int
    decreases n,
{
    if n == 0 {
        0
    } else {
        window_sum(start, (n - 1) as nat) + spec_frame_increment(start + n - 1)
    }
}

/// How many drift-correction frames the `n` frames starting at `start`
/// hold.
pub open spec fn corrections_in(start: int, n: nat) -> int
    decreases n,
{
    if n == 0 {
        0
    } else {
        corrections_in(start, (n - 1) as nat) + if (start + n - 1) % 60 == 0 {
            1int
        } else {
            0int
        }
    }
}

/// A window's scheduled total is the rounded period per frame, less 20
/// microseconds for every drift-correction frame it holds.
pub proof fn lemma_window_sum_counts(start: int, n: nat)
    ensures
        window_sum(start, n) == MICRO_SECONDS_PER_FRAME * n - 20 * corrections_in(start, n),
    decreases n,
{
    if n > 0 {
        lemma_window_sum_counts(start, (n - 1) as nat);
    }
}

/// Splitting off the first frame of a window.
pub proof fn lemma_corrections_prepend(start: int, n: nat)
    requires
        n > 0,
    ensures
        corrections_in(start, n) == (if start % 60 == 0 {
            1int
        } else {
            0int
        }) + corrections_in(start + 1, (n - 1) as nat),
    decreases n,
{
    let ind_first: int = if start % 60 == 0 {
        1int
    } else {
        0int
    };
    let ind_last: int = if (start + n - 1) % 60 == 0 {
        1int
    } else {
        0int
    };
    if n == 1 {
        assert(corrections_in(start, 1) == corrections_in(start, 0) + ind_first);
        assert(corrections_in(start + 1, 0) == 0);
    } else {
        lemma_corrections_prepend(start, (n - 1) as nat);
        assert(corrections_in(start, n) == corrections_in(start, (n - 1) as nat) + ind_last);
        assert(corrections_in(start + 1, (n - 1) as nat) == corrections_in(
            start + 1,
            (n - 2) as nat,
        ) + ind_last);
    }
}

/// Every window of 60 consecutive frames holds the same number of
/// drift-correction frames, wherever it starts.
pub proof fn lemma_corrections_shift(start: int)
    requires
        start >= 0,
    ensures
        corrections_in(start, 60) == corrections_in(0, 60),
    decreases start,
{
    if start > 0 {
        lemma_corrections_shift(start - 1);
        lemma_corrections_prepend(start - 1, 60);
        lemma_corrections_prepend(start - 1, 61);
        assert(corrections_in(start - 1, 61) == corrections_in(start - 1, 60) + if (start + 59)
            % 60 == 0 {
            1int
        } else {
            0int
        });
        assert((start + 59) % 60 == (start - 1) % 60) by {
            vstd::arithmetic::div_mod::lemma_mod_multiples_vanish(1, start - 1, 60);
        }
    }
}

/// The window starting at frame 0 holds one drift-correction frame within
/// its first `n` frames: frame 0 itself, and no other before frame 60.
pub proof fn lemma_corrections_from_zero(n: nat)
    requires
        1 <= n <= 60,
    ensures
        corrections_in(0, n) == 1,
    decreases n,
{
    if n == 1 {
        assert(corrections_in(0, 1) == corrections_in(0, 0) + 1int);
    } else {
        lemma_corrections_from_zero((n - 1) as nat);
        vstd::arithmetic::div_mod::lemma_small_mod((n - 1) as nat, 60);
        assert((0 + n - 1) % 60 == n - 1);
        assert(corrections_in(0, n) == corrections_in(0, (n - 1) as nat) + 0int);
    }
}

/// Exactly one drift-correction frame falls in the window starting at
/// frame 0.
pub proof fn lemma_corrections_base()
    ensures
        corrections_in(0, 60) == 1,
{
    lemma_corrections_from_zero(60);
}

/// Over any window of 60 consecutive frames — each holds exactly one
/// drift-correction frame — the scheduled durations add up to exactly one
/// second, not to sixty rounded periods.
pub proof fn lemma_window_is_one_second(start: int)
    requires
        start >= 0,
    ensures
        window_sum(start, 60) == 1_000_000,
{
    lemma_window_sum_counts(start, 60);
    lemma_corrections_shift(start);
    lemma_corrections_base();
}

} // verus!

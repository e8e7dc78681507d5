//! Tempo arithmetic: how long one step lasts at a given tempo.

use vstd::prelude::*;
use vstd::arithmetic::div_mod::lemma_div_is_ordered_by_denominator;

verus! {

/// Milliseconds in one minute; a beat at tempo `bpm` lasts `MS_PER_MINUTE / bpm`.
pub const MS_PER_MINUTE: u64 = 60_000;

/// The slowest tempo the transport accepts, in beats per minute.
pub const MIN_BPM: u32 = 20;

/// The fastest tempo the transport accepts, in beats per minute.
pub const MAX_BPM: u32 = 300;

/// Steps in one beat: the grid is played in sixteenth notes.
pub const STEPS_PER_BEAT: u32 = 4;

/// The length of one step in whole milliseconds: a beat lasts
/// `60000 / bpm` milliseconds and holds `steps_per_beat` steps. Both
/// divisions round down.
pub open spec fn step_interval_ms(bpm: int, steps_per_beat: int) -> int {
    (60_000int / bpm) / steps_per_beat
}

/// Computes the step length for a tempo. A tempo or subdivision of zero has no
/// step length, so neither is admitted.
pub fn step_duration_millis(bpm: u32, steps_per_beat: u32) -> (ms: u64)
    requires
        bpm > 0,
        steps_per_beat > 0,
    ensures
        ms == step_interval_ms(bpm as int, steps_per_beat as int),
{
    let ms_per_beat: u64 = MS_PER_MINUTE / (bpm as u64);
    ms_per_beat / (steps_per_beat as u64)
}

/// At every accepted tempo a sixteenth-note step lasts a positive whole number
/// of milliseconds, between 50 (at the fastest tempo) and 750 (at the slowest).
pub proof fn lemma_step_interval_positive(bpm: int)
    requires
        MIN_BPM <= bpm <= MAX_BPM,
    ensures
        50 <= step_interval_ms(bpm, STEPS_PER_BEAT as int) <= 750,
{
    lemma_div_is_ordered_by_denominator(60_000, bpm, 300);
    lemma_div_is_ordered_by_denominator(60_000, 20, bpm);
}

/// A faster tempo never lengthens the step: over the accepted tempo range the
/// sixteenth-note step interval is non-increasing in the tempo.
pub proof fn lemma_step_interval_non_increasing(slower: int, faster: int)
    requires
        MIN_BPM <= slower <= faster <= MAX_BPM,
    ensures
        step_interval_ms(slower, STEPS_PER_BEAT as int) >= step_interval_ms(
            faster,
            STEPS_PER_BEAT as int,
        ),
{
    lemma_div_is_ordered_by_denominator(60_000, slower, faster);
}

} // verus!

//! The frame clock: which column of the walk cycle is shown at a given tick.

use vstd::prelude::*;

verus! {

/// Milliseconds for which one animation column stays on screen.
pub const FRAME_MILLIS: u32 = 60;

/// Number of animation columns in one walk cycle.
pub const MAX_FRAMES: u32 = 6;

/// Milliseconds after which the walk cycle repeats.
pub const CYCLE_MILLIS: u32 = 360;

/// The animation column shown `ticks` milliseconds after start.
pub open spec fn frame_of(ticks: nat) -> nat {
    (ticks / (FRAME_MILLIS as nat)) % (MAX_FRAMES as nat)
}

/// Computes the animation column for a tick count read from a monotonic
/// millisecond clock.
pub fn advance_frame(ticks: u32) -> (frame: u32)
    ensures
        frame == frame_of(ticks as nat),
        frame < MAX_FRAMES,
{
    (ticks / FRAME_MILLIS) % MAX_FRAMES
}

/// Every tick maps to one of the columns `0..MAX_FRAMES`.
pub proof fn lemma_frame_in_range(ticks: nat)
    ensures
        frame_of(ticks) < MAX_FRAMES,
{
}

/// The column repeats every `CYCLE_MILLIS` milliseconds.
pub proof fn lemma_frame_periodic(ticks: nat)
    ensures
        frame_of(ticks + CYCLE_MILLIS as nat) == frame_of(ticks),
{
}

/// The column is constant within one `FRAME_MILLIS` slot and moves to the
/// next column, cyclically, in the slot after it.
pub proof fn lemma_frame_advances(ticks: nat)
    ensures
        frame_of(ticks + FRAME_MILLIS as nat) == (frame_of(ticks) + 1) % (MAX_FRAMES as nat),
{
}

} // verus!

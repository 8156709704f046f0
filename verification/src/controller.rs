//! One turn of the frame loop: read the clock, drain the input, draw.

use vstd::prelude::*;
use crate::actor::{ActorState, Bounds, process_events};
use crate::clock::frame_of;
use crate::input::{InputEvent, quit_requested};
use crate::render::{SpriteFrame, dest_region, source_region, sprite_frame};

verus! {

/// What one turn of the frame loop decides.
#[derive(Clone, Copy, Debug, PartialEq, Eq, Structural)]
pub struct FrameOutput {
    /// The actor after the turn's events.
    pub state: ActorState,
    /// Whether the loop goes on after this turn.
    pub running: bool,
    /// What to draw this turn.
    pub draw: SpriteFrame,
}

/// Runs one turn: applies the pending `events` in order, then derives the
/// draw command from the state they leave and the tick read at the start of
/// the turn.
///
/// The turn that sees a quit request still draws; it only reports that the
/// loop ends after it.
pub fn run_frame(
    state: ActorState,
    ticks: u32,
    events: &Vec<InputEvent>,
    bounds: Bounds,
) -> (out: FrameOutput)
    ensures
        out.state@ == state@.run(events@, bounds@),
        out.running == !quit_requested(events@),
        out.draw.source@ == source_region(out.state@, frame_of(ticks as nat)),
        out.draw.dest@ == dest_region(out.state@),
        state@.in_range(bounds@) ==> out.state@.in_range(bounds@),
{
    let drained = process_events(state, events, bounds);
    FrameOutput {
        state: drained.state,
        running: !drained.quit,
        draw: sprite_frame(drained.state, ticks),
    }
}

} // verus!

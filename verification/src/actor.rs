//! The actor: where the sprite stands, which way it faces, and whether its
//! walk cycle is running, together with the rules by which input moves it.

use vstd::prelude::*;
use crate::input::{InputEvent, Key, is_quit, quit_requested, signals_quit};
use crate::invariants::{lemma_run_keeps_range, lemma_step_keeps_range};

verus! {

/// Pixels moved by one accepted key event.
pub const STEP: i32 = 8;

/// Side of the square the sprite covers on screen.
pub const SPRITE_SIZE: i32 = 32;

/// Distance from the far screen edge within which a key release is ignored.
pub const RELEASE_MARGIN: i32 = 16;

/// Sheet row of the left-facing walk cycle.
pub const ROW_LEFT: i32 = 0;

/// Sheet row of the right-facing walk cycle.
pub const ROW_RIGHT: i32 = 16;

/// Screen dimensions in pixels.
#[derive(Clone, Copy, Debug, PartialEq, Eq, Structural)]
pub struct Bounds {
    pub screen_w: i32,
    pub screen_h: i32,
}

/// The screen as the movement rules see it: a width and a height.
pub struct Arena {
    pub width: int,
    pub height: int,
}

impl Arena {
    /// The screen has room for the sprite.
    pub open spec fn wf(self) -> bool {
        self.width >= SPRITE_SIZE && self.height >= SPRITE_SIZE
    }
}

impl View for Bounds {
    type V = Arena;

    open spec fn view(&self) -> Arena {
        Arena { width: self.screen_w as int, height: self.screen_h as int }
    }
}

/// The mutable state of the actor.
#[derive(Clone, Copy, Debug, PartialEq, Eq, Structural)]
pub struct ActorState {
    /// Left edge of the sprite on screen.
    pub x: i32,
    /// Top edge of the sprite on screen.
    pub y: i32,
    /// Sheet row sampled for the sprite: `ROW_LEFT` or `ROW_RIGHT`.
    pub facing_row: i32,
    /// Whether the walk cycle is running.
    pub is_animating: bool,
}

/// `ActorState` over unbounded integers.
pub struct ActorModel {
    pub x: int,
    pub y: int,
    pub facing_row: int,
    pub is_animating: bool,
}

impl View for ActorState {
    type V = ActorModel;

    open spec fn view(&self) -> ActorModel {
        ActorModel {
            x: self.x as int,
            y: self.y as int,
            facing_row: self.facing_row as int,
            is_animating: self.is_animating,
        }
    }
}

impl ActorModel {
    /// The state every run starts from: top-left corner, facing left, at rest.
    pub open spec fn initial() -> ActorModel {
        ActorModel { x: 0, y: 0, facing_row: ROW_LEFT as int, is_animating: false }
    }

    /// Whether a press of `key` moves the actor.
    pub open spec fn accepts_press(self, key: Key, arena: Arena) -> bool {
        match key {
            Key::Right => self.x <= arena.width - SPRITE_SIZE,
            Key::Left => self.x > 0,
            Key::Up => self.y > 0,
            Key::Down => self.y < arena.height - SPRITE_SIZE,
            _ => false,
        }
    }

    /// The state after an accepted press of `key`: one step in its
    /// direction, walk cycle running, and for a horizontal key the matching
    /// sheet row.
    pub open spec fn pressed(self, key: Key) -> ActorModel {
        match key {
            Key::Right => ActorModel {
                x: self.x + STEP,
                facing_row: ROW_RIGHT as int,
                is_animating: true,
                ..self
            },
            Key::Left => ActorModel {
                x: self.x - STEP,
                facing_row: ROW_LEFT as int,
                is_animating: true,
                ..self
            },
            Key::Up => ActorModel { y: self.y - STEP, is_animating: true, ..self },
            Key::Down => ActorModel { y: self.y + STEP, is_animating: true, ..self },
            _ => self,
        }
    }

    /// Whether a release of `key` stops the walk cycle.
    pub open spec fn accepts_release(self, key: Key, arena: Arena) -> bool {
        match key {
            Key::Right => 0 <= self.x < arena.width - RELEASE_MARGIN,
            Key::Left => 0 < self.x < arena.width - RELEASE_MARGIN,
            Key::Up => 0 < self.y < arena.height - RELEASE_MARGIN,
            Key::Down => 0 <= self.y < arena.height - RELEASE_MARGIN,
            _ => false,
        }
    }

    /// The state after an accepted release of `key`: walk cycle stopped.  A
    /// vertical key also moves the actor one more step in its direction; a
    /// horizontal key leaves the position alone.
    pub open spec fn released(self, key: Key) -> ActorModel {
        match key {
            Key::Right | Key::Left => ActorModel { is_animating: false, ..self },
            Key::Up => ActorModel { y: self.y - STEP, is_animating: false, ..self },
            Key::Down => ActorModel { y: self.y + STEP, is_animating: false, ..self },
            _ => self,
        }
    }

    /// The state after one event.  Key events whose guard fails, and all
    /// events other than key events, leave the state as it is.
    pub open spec fn step(self, event: InputEvent, arena: Arena) -> ActorModel {
        match event {
            InputEvent::KeyDown(key) => if self.accepts_press(key, arena) {
                self.pressed(key)
            } else {
                self
            },
            InputEvent::KeyUp(key) => if self.accepts_release(key, arena) {
                self.released(key)
            } else {
                self
            },
            _ => self,
        }
    }

    /// The state after a batch of events, applied in order of delivery.
    pub open spec fn run(self, events: Seq<InputEvent>, arena: Arena) -> ActorModel
        decreases events.len(),
    {
        if events.len() == 0 {
            self
        } else {
            self.run(events.drop_last(), arena).step(events.last(), arena)
        }
    }
}

impl ActorState {
    /// The state every run starts from.
    pub fn new() -> (state: ActorState)
        ensures
            state@ == ActorModel::initial(),
    {
        ActorState { x: 0, y: 0, facing_row: ROW_LEFT, is_animating: false }
    }
}

/// Applies one input event to the actor.
///
/// Never fails: an event that does not apply returns the state unchanged.
pub fn handle_event(state: ActorState, event: InputEvent, bounds: Bounds) -> (next: ActorState)
    ensures
        next@ == state@.step(event, bounds@),
        state@.in_range(bounds@) ==> next@.in_range(bounds@),
{
    proof {
        if state@.in_range(bounds@) {
            lemma_step_keeps_range(state@, event, bounds@);
        }
    }
    let x: i64 = state.x as i64;
    let y: i64 = state.y as i64;
    let w: i64 = bounds.screen_w as i64;
    let h: i64 = bounds.screen_h as i64;
    match event {
        InputEvent::KeyDown(key) => match key {
            Key::Right => if x <= w - SPRITE_SIZE as i64 {
                ActorState {
                    x: state.x + STEP,
                    y: state.y,
                    facing_row: ROW_RIGHT,
                    is_animating: true,
                }
            } else {
                state
            },
            Key::Left => if x > 0 {
                ActorState {
                    x: state.x - STEP,
                    y: state.y,
                    facing_row: ROW_LEFT,
                    is_animating: true,
                }
            } else {
                state
            },
            Key::Up => if y > 0 {
                ActorState {
                    x: state.x,
                    y: state.y - STEP,
                    facing_row: state.facing_row,
                    is_animating: true,
                }
            } else {
                state
            },
            Key::Down => if y < h - SPRITE_SIZE as i64 {
                ActorState {
                    x: state.x,
                    y: state.y + STEP,
                    facing_row: state.facing_row,
                    is_animating: true,
                }
            } else {
                state
            },
            _ => state,
        },
        InputEvent::KeyUp(key) => match key {
            Key::Right => if 0 <= x && x < w - RELEASE_MARGIN as i64 {
                ActorState {
                    x: state.x,
                    y: state.y,
                    facing_row: state.facing_row,
                    is_animating: false,
                }
            } else {
                state
            },
            Key::Left => if 0 < x && x < w - RELEASE_MARGIN as i64 {
                ActorState {
                    x: state.x,
                    y: state.y,
                    facing_row: state.facing_row,
                    is_animating: false,
                }
            } else {
                state
            },
            Key::Up => if 0 < y && y < h - RELEASE_MARGIN as i64 {
                ActorState {
                    x: state.x,
                    y: state.y - STEP,
                    facing_row: state.facing_row,
                    is_animating: false,
                }
            } else {
                state
            },
            Key::Down => if 0 <= y && y < h - RELEASE_MARGIN as i64 {
                ActorState {
                    x: state.x,
                    y: state.y + STEP,
                    facing_row: state.facing_row,
                    is_animating: false,
                }
            } else {
                state
            },
            _ => state,
        },
        _ => state,
    }
}

/// What a batch of events leaves behind.
#[derive(Clone, Copy, Debug, PartialEq, Eq, Structural)]
pub struct Outcome {
    /// The actor after the whole batch.
    pub state: ActorState,
    /// Whether some event of the batch asked the program to stop.
    pub quit: bool,
}

/// Applies a batch of events in order of delivery.
///
/// A quit request does not cut the batch short: the events after it are
/// applied as well.
pub fn process_events(state: ActorState, events: &Vec<InputEvent>, bounds: Bounds) -> (out: Outcome)
    ensures
        out.state@ == state@.run(events@, bounds@),
        out.quit == quit_requested(events@),
        state@.in_range(bounds@) ==> out.state@.in_range(bounds@),
{
    let mut cur: ActorState = state;
    let mut quit: bool = false;
    let mut i: usize = 0;
    while i < events.len()
        invariant
            i <= events.len(),
            cur@ == state@.run(events@.take(i as int), bounds@),
            quit == quit_requested(events@.take(i as int)),
        decreases events.len() - i,
    {
        let event: InputEvent = events[i];
        cur = handle_event(cur, event, bounds);
        let stop: bool = signals_quit(event);
        proof {
            let before = events@.take(i as int);
            let after = events@.take(i + 1);
            assert(after.drop_last() =~= before);
            assert(after.last() == event);
            if quit_requested(before) {
                let k = choose|k: int| 0 <= k < before.len() && is_quit(#[trigger] before[k]);
                assert(is_quit(after[k]));
            }
            if stop {
                assert(is_quit(after[i as int]));
            }
            if quit_requested(after) {
                let k = choose|k: int| 0 <= k < after.len() && is_quit(#[trigger] after[k]);
                if k < i {
                    assert(is_quit(before[k]));
                }
            }
        }
        if stop {
            quit = true;
        }
        i += 1;
    }
    proof {
        assert(events@.take(events.len() as int) =~= events@);
        if state@.in_range(bounds@) {
            lemma_run_keeps_range(state@, events@, bounds@);
        }
    }
    Outcome { state: cur, quit }
}

} // verus!

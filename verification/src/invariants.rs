//! What holds of the actor under every sequence of events.

use vstd::prelude::*;
use crate::actor::{ActorModel, Arena, ROW_LEFT, ROW_RIGHT, SPRITE_SIZE, STEP};
use crate::input::{InputEvent, Key};

verus! {

impl ActorModel {
    /// Both coordinates are whole multiples of `STEP`.
    pub open spec fn on_grid(self) -> bool {
        self.x % (STEP as int) == 0 && self.y % (STEP as int) == 0
    }

    /// The actor faces one of the two sheet rows.
    pub open spec fn faces_a_row(self) -> bool {
        self.facing_row == ROW_LEFT || self.facing_row == ROW_RIGHT
    }

    /// The sprite's corner lies in `[0, width - 32] x [0, height - 32]`, so
    /// the whole sprite is on screen.
    pub open spec fn in_arena(self, arena: Arena) -> bool {
        0 <= self.x <= arena.width - SPRITE_SIZE && 0 <= self.y <= arena.height - SPRITE_SIZE
    }

    /// The region no sequence of events leaves: grid points from the origin
    /// to at most one step past the arena's right edge and less than three
    /// steps past its bottom edge, facing one of the two rows.
    pub open spec fn in_range(self, arena: Arena) -> bool {
        &&& self.on_grid()
        &&& self.faces_a_row()
        &&& 0 <= self.x <= arena.width - SPRITE_SIZE + STEP
        &&& 0 <= self.y < arena.height - SPRITE_SIZE + 3 * STEP
    }

    /// Whether `event` is accepted and carries the corner beyond the arena:
    /// a press of Right or Down, or a release of Down, with less than one
    /// step of room left.
    pub open spec fn steps_past_edge(self, event: InputEvent, arena: Arena) -> bool {
        match event {
            InputEvent::KeyDown(Key::Right) => self.accepts_press(Key::Right, arena) && self.x
                + STEP > arena.width - SPRITE_SIZE,
            InputEvent::KeyDown(Key::Down) => self.accepts_press(Key::Down, arena) && self.y + STEP
                > arena.height - SPRITE_SIZE,
            InputEvent::KeyUp(Key::Down) => self.accepts_release(Key::Down, arena) && self.y + STEP
                > arena.height - SPRITE_SIZE,
            _ => false,
        }
    }
}

/// A press whose guard fails changes nothing.
pub proof fn lemma_rejected_press_is_noop(actor: ActorModel, key: Key, arena: Arena)
    requires
        !actor.accepts_press(key, arena),
    ensures
        actor.step(InputEvent::KeyDown(key), arena) == actor,
{
}

/// A release whose guard fails changes nothing.
pub proof fn lemma_rejected_release_is_noop(actor: ActorModel, key: Key, arena: Arena)
    requires
        !actor.accepts_release(key, arena),
    ensures
        actor.step(InputEvent::KeyUp(key), arena) == actor,
{
}

/// Only key events touch the actor: quit requests, pointer motion and
/// unknown events leave it as it is.
pub proof fn lemma_other_events_are_noops(actor: ActorModel, event: InputEvent, arena: Arena)
    requires
        !(event is KeyDown),
        !(event is KeyUp),
    ensures
        actor.step(event, arena) == actor,
{
}

/// The walk cycle starts on every accepted press, stops on every accepted
/// release, and is otherwise left as it is.
pub proof fn lemma_animation_follows_keys(actor: ActorModel, event: InputEvent, arena: Arena)
    ensures
        actor.step(event, arena).is_animating == match event {
            InputEvent::KeyDown(key) => actor.is_animating || actor.accepts_press(key, arena),
            InputEvent::KeyUp(key) => actor.is_animating && !actor.accepts_release(key, arena),
            _ => actor.is_animating,
        },
{
}

/// The sheet row changes only on an accepted horizontal press, and then to
/// the row of the key's direction.
pub proof fn lemma_row_follows_horizontal_presses(
    actor: ActorModel,
    event: InputEvent,
    arena: Arena,
)
    ensures
        actor.step(event, arena).facing_row == if event == InputEvent::KeyDown(Key::Right)
            && actor.accepts_press(Key::Right, arena) {
            ROW_RIGHT as int
        } else if event == InputEvent::KeyDown(Key::Left) && actor.accepts_press(
            Key::Left,
            arena,
        ) {
            ROW_LEFT as int
        } else {
            actor.facing_row
        },
{
}

/// One event moves the actor by at most one step, along one axis.
pub proof fn lemma_step_moves_one_axis(actor: ActorModel, event: InputEvent, arena: Arena)
    ensures
        ({
            let next = actor.step(event, arena);
            let dx = next.x - actor.x;
            let dy = next.y - actor.y;
            &&& dx == 0 || dy == 0
            &&& dx == 0 || dx == STEP || dx == -STEP
            &&& dy == 0 || dy == STEP || dy == -STEP
        }),
{
}

/// No event leads out of the range.
pub proof fn lemma_step_keeps_range(actor: ActorModel, event: InputEvent, arena: Arena)
    requires
        actor.in_range(arena),
    ensures
        actor.step(event, arena).in_range(arena),
{
}

/// From inside the arena, on the grid, every event leads to a place inside
/// the arena, but for the events that step past an edge.
pub proof fn lemma_step_keeps_arena(actor: ActorModel, event: InputEvent, arena: Arena)
    requires
        actor.on_grid(),
        actor.in_arena(arena),
        !actor.steps_past_edge(event, arena),
    ensures
        actor.step(event, arena).on_grid(),
        actor.step(event, arena).in_arena(arena),
{
}

/// The events that step past an edge do leave the arena.
pub proof fn lemma_step_past_edge_leaves_arena(
    actor: ActorModel,
    event: InputEvent,
    arena: Arena,
)
    requires
        actor.steps_past_edge(event, arena),
    ensures
        !actor.step(event, arena).in_arena(arena),
{
}

/// No batch of events leads out of the range.
pub proof fn lemma_run_keeps_range(actor: ActorModel, events: Seq<InputEvent>, arena: Arena)
    requires
        actor.in_range(arena),
    ensures
        actor.run(events, arena).in_range(arena),
    decreases events.len(),
{
    if events.len() > 0 {
        lemma_run_keeps_range(actor, events.drop_last(), arena);
        lemma_step_keeps_range(actor.run(events.drop_last(), arena), events.last(), arena);
    }
}

/// Every state reached from the initial one, on a screen with room for the
/// sprite, lies in the range.
pub proof fn lemma_reachable_in_range(events: Seq<InputEvent>, arena: Arena)
    requires
        arena.wf(),
    ensures
        ActorModel::initial().run(events, arena).in_range(arena),
{
    lemma_run_keeps_range(ActorModel::initial(), events, arena);
}

/// Applying two batches one after the other is applying their
/// concatenation.
pub proof fn lemma_run_concat(
    actor: ActorModel,
    first: Seq<InputEvent>,
    second: Seq<InputEvent>,
    arena: Arena,
)
    ensures
        actor.run(first + second, arena) == actor.run(first, arena).run(second, arena),
    decreases second.len(),
{
    if second.len() == 0 {
        assert(first + second =~= first);
    } else {
        assert((first + second).drop_last() =~= first + second.drop_last());
        assert((first + second).last() == second.last());
        lemma_run_concat(actor, first, second.drop_last(), arena);
    }
}

} // verus!

//! The draw command for one frame: which tile of the sprite sheet to sample
//! and where on screen to put it.

use vstd::prelude::*;
use crate::actor::{ActorModel, ActorState};
use crate::clock::{advance_frame, frame_of};

verus! {

/// Side of one square tile of the sprite sheet, in pixels.
pub const TILE_SIZE: u32 = 16;

/// Side of the square the sprite is drawn into on screen, in pixels.
pub const DRAW_SIZE: u32 = 32;

/// A rectangle in pixels: top-left corner and size.
#[derive(Clone, Copy, Debug, PartialEq, Eq, Structural)]
pub struct PixelRect {
    pub x: i32,
    pub y: i32,
    pub w: u32,
    pub h: u32,
}

/// `PixelRect` over unbounded integers.
pub struct Region {
    pub x: int,
    pub y: int,
    pub w: int,
    pub h: int,
}

impl View for PixelRect {
    type V = Region;

    open spec fn view(&self) -> Region {
        Region { x: self.x as int, y: self.y as int, w: self.w as int, h: self.h as int }
    }
}

/// The tile sampled from the sheet: the row the actor faces, and in it the
/// column `frame` while the walk cycle runs, the first column while at rest.
pub open spec fn source_region(actor: ActorModel, frame: nat) -> Region {
    Region {
        x: if actor.is_animating {
            frame * TILE_SIZE
        } else {
            0
        },
        y: actor.facing_row,
        w: TILE_SIZE as int,
        h: TILE_SIZE as int,
    }
}

/// The square on screen the sprite is drawn into.
pub open spec fn dest_region(actor: ActorModel) -> Region {
    Region { x: actor.x, y: actor.y, w: DRAW_SIZE as int, h: DRAW_SIZE as int }
}

/// The draw command of one frame.
#[derive(Clone, Copy, Debug, PartialEq, Eq, Structural)]
pub struct SpriteFrame {
    /// Where to sample the sprite sheet.
    pub source: PixelRect,
    /// Where to draw on screen.
    pub dest: PixelRect,
}

/// The sheet rectangle to sample for `state` at tick `ticks`.
pub fn source_rect(state: ActorState, ticks: u32) -> (rect: PixelRect)
    ensures
        rect@ == source_region(state@, frame_of(ticks as nat)),
        !state.is_animating ==> rect.x == 0,
{
    let column: u32 = if state.is_animating {
        advance_frame(ticks) * TILE_SIZE
    } else {
        0
    };
    PixelRect { x: column as i32, y: state.facing_row, w: TILE_SIZE, h: TILE_SIZE }
}

/// The screen rectangle to draw `state` into.
pub fn dest_rect(state: ActorState) -> (rect: PixelRect)
    ensures
        rect@ == dest_region(state@),
{
    PixelRect { x: state.x, y: state.y, w: DRAW_SIZE, h: DRAW_SIZE }
}

/// The draw command for `state` at tick `ticks`.
pub fn sprite_frame(state: ActorState, ticks: u32) -> (frame: SpriteFrame)
    ensures
        frame.source@ == source_region(state@, frame_of(ticks as nat)),
        frame.dest@ == dest_region(state@),
{
    SpriteFrame { source: source_rect(state, ticks), dest: dest_rect(state) }
}

/// At rest the first column is sampled, whatever the clock says.
pub proof fn lemma_rest_samples_first_column(actor: ActorModel, frame: nat)
    requires
        !actor.is_animating,
    ensures
        source_region(actor, frame).x == 0,
{
}

/// The sampled tile lies within the six columns of the actor's row.
pub proof fn lemma_source_within_row(actor: ActorModel, ticks: nat)
    ensures
        0 <= source_region(actor, frame_of(ticks)).x <= 5 * TILE_SIZE,
        source_region(actor, frame_of(ticks)).x % (TILE_SIZE as int) == 0,
        source_region(actor, frame_of(ticks)).y == actor.facing_row,
{
}

} // verus!

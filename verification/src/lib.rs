//! Frame timing and movement rules for a keyboard-driven walking sprite.
//!
//! The crate is the pure core of a sprite demo: it turns a millisecond tick
//! into an animation column, folds input events into the actor's state, and
//! derives the rectangles to draw.  It performs no input or output itself.

pub mod actor;
pub mod clock;
pub mod controller;
pub mod input;
pub mod invariants;
pub mod render;

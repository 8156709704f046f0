//! Input events as the controller sees them.

use vstd::prelude::*;

verus! {

/// The keys the controller distinguishes; every other key is `Other`.
#[derive(Clone, Copy, Debug, PartialEq, Eq, Structural)]
pub enum Key {
    Right,
    Left,
    Up,
    Down,
    Escape,
    Other,
}

/// One discrete event delivered by the input source.
#[derive(Clone, Copy, Debug, PartialEq, Eq, Structural)]
pub enum InputEvent {
    /// The window was asked to close.
    Quit,
    /// A key went down.
    KeyDown(Key),
    /// A key was released.
    KeyUp(Key),
    /// The pointer moved to `(x, y)`, by `(dx, dy)` since the last report.
    PointerMove { x: i32, y: i32, dx: i32, dy: i32 },
    /// Any event the controller has no rule for.
    Other,
}

/// Whether `event` asks the program to stop: a quit request or Escape going
/// down.
pub open spec fn is_quit(event: InputEvent) -> bool {
    event == InputEvent::Quit || event == InputEvent::KeyDown(Key::Escape)
}

/// Whether some event of the batch asks the program to stop.
pub open spec fn quit_requested(events: Seq<InputEvent>) -> bool {
    exists|i: int| 0 <= i < events.len() && is_quit(#[trigger] events[i])
}

/// Tells whether `event` asks the program to stop.
pub fn signals_quit(event: InputEvent) -> (quit: bool)
    ensures
        quit == is_quit(event),
{
    match event {
        InputEvent::Quit => true,
        InputEvent::KeyDown(key) => match key {
            Key::Escape => true,
            _ => false,
        },
        _ => false,
    }
}

} // verus!

use sprite_walk::actor::{ActorState, Bounds};
use sprite_walk::controller::{run_frame, FrameOutput};
use sprite_walk::input::{InputEvent, Key};
use sprite_walk::render::{dest_rect, source_rect, sprite_frame, PixelRect, SpriteFrame};

const SCREEN: Bounds = Bounds { screen_w: 800, screen_h: 600 };

fn at(x: i32, y: i32, facing_row: i32, is_animating: bool) -> ActorState {
    ActorState { x, y, facing_row, is_animating }
}

#[test]
fn walking_samples_the_column_of_the_tick() {
    let rect = source_rect(at(8, 0, 16, true), 125);
    assert_eq!(rect, PixelRect { x: 32, y: 16, w: 16, h: 16 });
}

#[test]
fn walking_cycles_through_six_columns() {
    let state = at(8, 0, 0, true);
    let expected = [0, 16, 32, 48, 64, 80, 0, 16];
    for (slot, x) in expected.iter().enumerate() {
        let rect = source_rect(state, slot as u32 * 60);
        assert_eq!(rect, PixelRect { x: *x, y: 0, w: 16, h: 16 });
    }
}

#[test]
fn resting_samples_the_first_column_at_any_tick() {
    let state = at(8, 0, 16, false);
    for ticks in [0, 59, 60, 125, 300, 359, 360, 1_000_000, u32::MAX] {
        assert_eq!(source_rect(state, ticks), PixelRect { x: 0, y: 16, w: 16, h: 16 });
    }
}

#[test]
fn source_row_follows_facing() {
    assert_eq!(source_rect(at(0, 0, 0, false), 0).y, 0);
    assert_eq!(source_rect(at(0, 0, 16, false), 0).y, 16);
    assert_eq!(source_rect(at(0, 0, 16, true), 300).y, 16);
}

#[test]
fn dest_is_the_sprite_square_at_the_position() {
    assert_eq!(dest_rect(at(0, 0, 0, false)), PixelRect { x: 0, y: 0, w: 32, h: 32 });
    assert_eq!(dest_rect(at(400, 296, 16, true)), PixelRect { x: 400, y: 296, w: 32, h: 32 });
    assert_eq!(dest_rect(at(-8, i32::MAX, 16, true)), PixelRect { x: -8, y: i32::MAX, w: 32, h: 32 });
}

#[test]
fn sprite_frame_pairs_source_and_dest() {
    let state = at(400, 296, 16, true);
    let frame = sprite_frame(state, 125);
    assert_eq!(frame.source, source_rect(state, 125));
    assert_eq!(frame.dest, dest_rect(state));
    assert_eq!(
        frame,
        SpriteFrame {
            source: PixelRect { x: 32, y: 16, w: 16, h: 16 },
            dest: PixelRect { x: 400, y: 296, w: 32, h: 32 },
        }
    );
}

#[test]
fn frame_turn_draws_the_state_after_the_events() {
    let events = vec![InputEvent::KeyDown(Key::Right), InputEvent::KeyDown(Key::Down)];
    let out = run_frame(ActorState::new(), 185, &events, SCREEN);
    assert_eq!(
        out,
        FrameOutput {
            state: at(8, 8, 16, true),
            running: true,
            draw: SpriteFrame {
                source: PixelRect { x: 48, y: 16, w: 16, h: 16 },
                dest: PixelRect { x: 8, y: 8, w: 32, h: 32 },
            },
        }
    );
}

#[test]
fn frame_turn_without_events_redraws_the_state() {
    let state = at(64, 32, 0, false);
    let out = run_frame(state, 999, &Vec::new(), SCREEN);
    assert_eq!(out.state, state);
    assert!(out.running);
    assert_eq!(out.draw, sprite_frame(state, 999));
}

#[test]
fn frame_turn_with_quit_still_draws() {
    let events = vec![InputEvent::Quit, InputEvent::KeyDown(Key::Right)];
    let out = run_frame(ActorState::new(), 60, &events, SCREEN);
    assert!(!out.running);
    assert_eq!(out.state, at(8, 0, 16, true));
    assert_eq!(out.draw.source, PixelRect { x: 16, y: 16, w: 16, h: 16 });
    assert_eq!(out.draw.dest, PixelRect { x: 8, y: 0, w: 32, h: 32 });
}

#[test]
fn frame_turn_with_escape_stops_the_loop() {
    let events = vec![InputEvent::KeyDown(Key::Escape)];
    let out = run_frame(at(16, 16, 16, true), 0, &events, SCREEN);
    assert!(!out.running);
    assert_eq!(out.state, at(16, 16, 16, true));
}

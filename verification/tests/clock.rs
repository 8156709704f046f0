use sprite_walk::clock::{advance_frame, CYCLE_MILLIS, FRAME_MILLIS, MAX_FRAMES};

#[test]
fn frame_at_start_is_zero() {
    assert_eq!(advance_frame(0), 0);
    assert_eq!(advance_frame(59), 0);
}

#[test]
fn frame_changes_every_sixty_ticks() {
    assert_eq!(advance_frame(60), 1);
    assert_eq!(advance_frame(119), 1);
    assert_eq!(advance_frame(120), 2);
    assert_eq!(advance_frame(125), 2);
    assert_eq!(advance_frame(180), 3);
    assert_eq!(advance_frame(240), 4);
    assert_eq!(advance_frame(300), 5);
    assert_eq!(advance_frame(359), 5);
}

#[test]
fn frame_wraps_after_six_columns() {
    assert_eq!(advance_frame(360), 0);
    assert_eq!(advance_frame(420), 1);
}

#[test]
fn frame_is_always_a_column() {
    let mut t: u32 = 0;
    while t < 5000 {
        assert!(advance_frame(t) < MAX_FRAMES);
        assert_eq!(advance_frame(t), (t / 60) % 6);
        t += 1;
    }
    assert!(advance_frame(u32::MAX) < MAX_FRAMES);
    assert_eq!(advance_frame(u32::MAX), 4);
}

#[test]
fn frame_is_periodic() {
    let mut t: u32 = 0;
    while t < 2000 {
        assert_eq!(advance_frame(t + CYCLE_MILLIS), advance_frame(t));
        assert_eq!(advance_frame(t + FRAME_MILLIS), (advance_frame(t) + 1) % MAX_FRAMES);
        t += 7;
    }
}

#[test]
fn clock_constants() {
    assert_eq!(FRAME_MILLIS, 60);
    assert_eq!(MAX_FRAMES, 6);
    assert_eq!(CYCLE_MILLIS, FRAME_MILLIS * MAX_FRAMES);
}

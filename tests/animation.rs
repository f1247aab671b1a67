use sprite_world::{get_current_time, Animation};

#[test]
fn animation_wraps_after_last_frame() {
    let mut a = Animation::new((0, 0), 4, 200);
    a.increment_frame_at((50, 37), 200, 200);
    assert_eq!(a.current_frame, 1);
    assert_eq!(a.current_position, (50, 0));
    a.increment_frame_at((50, 37), 200, 400);
    a.increment_frame_at((50, 37), 200, 600);
    assert_eq!(a.current_frame, 3);
    a.increment_frame_at((50, 37), 200, 800);
    assert_eq!(a.current_frame, 0);
    assert_eq!(a.current_position, (0, 0));
    assert_eq!(a.previous_frame_time, 800);
}

#[test]
fn animation_waits_for_frame_duration() {
    let mut a = Animation::new((0, 0), 4, 200);
    a.increment_frame_at((50, 37), 200, 199);
    assert_eq!(a.current_frame, 0);
    assert_eq!(a.current_position, (0, 0));
    a.increment_frame_at((50, 37), 200, 200);
    assert_eq!(a.current_frame, 1);
    a.increment_frame_at((50, 37), 200, 399);
    assert_eq!(a.current_frame, 1);
    assert_eq!(a.current_position, (50, 0));
    assert_eq!(a.previous_frame_time, 200);
}

#[test]
fn animation_wraps_to_next_row_early() {
    let mut a = Animation::new((150, 0), 4, 100);
    a.increment_frame_at((50, 37), 200, 100);
    assert_eq!(a.current_position, (0, 37));
    assert_eq!(a.current_frame, 1);
}

#[test]
fn animation_margin_on_uneven_sheet() {
    // 100 + 2 * 50 reaches the edge of a 210-pixel sheet only at 110.
    let mut a = Animation::new((100, 0), 3, 10);
    a.increment_frame_at((50, 37), 210, 10);
    assert_eq!(a.current_position, (150, 0));
    a.increment_frame_at((50, 37), 210, 20);
    assert_eq!(a.current_position, (0, 37));
}

#[test]
fn static_animation_never_moves() {
    let mut a = Animation::new((0, 0), 1, 0);
    a.increment_frame_at((98, 72), 98, 1_000_000);
    assert_eq!(a.current_frame, 0);
    assert_eq!(a.previous_frame_time, 0);
}

#[test]
fn clock_time_reads_after_epoch() {
    let t = get_current_time().expect("clock before epoch");
    // Later than 2020-01-01.
    assert!(t > 1_577_836_800_000);
}

#[test]
fn animation_advances_by_wall_clock() {
    let mut a = Animation::new((0, 0), 2, 1);
    a.increment_frame((10, 10), 100);
    assert_eq!(a.current_frame, 1);
    assert_eq!(a.current_position, (10, 0));
    assert!(a.previous_frame_time > 1_577_836_800_000);
}

use breakout::paddle::{Dir, Intent, KeyEvent, Paddle};

#[test]
fn starts_mid_board_and_idle() {
    let p = Paddle::new();
    assert_eq!(p.x, 315_000);
    assert_eq!(p.speed, 0);
}

#[test]
fn intents_map_to_speeds() {
    let mut p = Paddle::new();
    p.set_intent(Intent::Left);
    assert_eq!(p.speed, -1_000);
    p.set_intent(Intent::Right);
    assert_eq!(p.speed, 1_000);
    p.set_intent(Intent::Stop);
    assert_eq!(p.speed, 0);
}

#[test]
fn step_moves_by_speed_in_bounds() {
    let mut p = Paddle::new();
    p.set_intent(Intent::Right);
    p.step();
    assert_eq!(p.x, 316_000);
    p.set_intent(Intent::Left);
    p.step();
    p.step();
    assert_eq!(p.x, 314_000);
}

#[test]
fn out_of_bounds_move_is_skipped_not_clamped() {
    // An off-grid position near the right edge: the in-bounds maximum is
    // 546_000, so a further step of 1_000 would reach 546_500 and must be
    // skipped whole, leaving the paddle exactly where it was.
    let mut p = Paddle { x: 545_500, speed: 1_000 };
    p.step();
    assert_eq!(p.x, 545_500);
}

#[test]
fn pushing_past_right_edge_stops_at_last_in_bounds_value() {
    let mut p = Paddle { x: 545_000, speed: 1_000 };
    p.step();
    assert_eq!(p.x, 546_000);
    for _ in 0..10 {
        p.step();
    }
    assert_eq!(p.x, 546_000);
}

#[test]
fn pushing_past_left_edge_is_a_no_op() {
    let mut p = Paddle { x: 0, speed: -1_000 };
    p.step();
    assert_eq!(p.x, 0);
}

#[test]
fn releasing_matching_key_stops_movement() {
    let mut p = Paddle { x: 315_000, speed: 1_000 };
    p.apply_event(Some(KeyEvent::Up(Dir::Right)));
    assert_eq!(p.speed, 0);
    let mut q = Paddle { x: 315_000, speed: -1_000 };
    q.apply_event(Some(KeyEvent::Up(Dir::Left)));
    assert_eq!(q.speed, 0);
}

#[test]
fn releasing_opposite_key_keeps_movement() {
    let mut p = Paddle { x: 315_000, speed: 1_000 };
    p.apply_event(Some(KeyEvent::Up(Dir::Left)));
    assert_eq!(p.speed, 1_000);
    let mut q = Paddle { x: 315_000, speed: -1_000 };
    q.apply_event(Some(KeyEvent::Up(Dir::Right)));
    assert_eq!(q.speed, -1_000);
}

#[test]
fn key_down_sets_direction_and_none_changes_nothing() {
    let mut p = Paddle::new();
    p.apply_event(Some(KeyEvent::Down(Dir::Left)));
    assert_eq!(p.speed, -1_000);
    p.apply_event(Some(KeyEvent::Down(Dir::Right)));
    assert_eq!(p.speed, 1_000);
    p.apply_event(None);
    assert_eq!(p.speed, 1_000);
    assert_eq!(p.x, 315_000);
}

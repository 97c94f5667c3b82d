use snake::gesture::{classify, indicator_angle, GestureTracker, ScreenPoint, Touch, TouchPhase};
use snake::grid::Direction;

fn p(x: i32, y: i32) -> ScreenPoint {
    ScreenPoint { x, y }
}

/// Classifies a drag whose vector `start - current` is `(dx, dy)`.
fn drag(dx: i32, dy: i32) -> Option<Direction> {
    classify(p(500 + dx, 500 + dy), p(500, 500))
}

#[test]
fn straight_up_drag_is_up() {
    // start below current: angle 90 degrees
    assert_eq!(classify(p(100, 400), p(100, 150)), Some(Direction::Up));
}

#[test]
fn zero_degrees_is_left() {
    assert_eq!(classify(p(400, 100), p(150, 100)), Some(Direction::Left));
}

#[test]
fn one_eighty_degrees_is_right() {
    assert_eq!(classify(p(150, 100), p(400, 100)), Some(Direction::Right));
}

#[test]
fn minus_ninety_degrees_is_down() {
    assert_eq!(classify(p(100, 150), p(100, 400)), Some(Direction::Down));
}

#[test]
fn still_touch_gives_no_direction() {
    assert_eq!(classify(p(42, 17), p(42, 17)), None);
}

#[test]
fn band_edges_follow_the_table() {
    assert_eq!(drag(10, 0), Some(Direction::Left)); // 0
    assert_eq!(drag(10, 5), Some(Direction::Left)); // ~27
    assert_eq!(drag(10, 10), Some(Direction::Up)); // 45
    assert_eq!(drag(-9, 10), Some(Direction::Up)); // ~132
    assert_eq!(drag(-10, 10), Some(Direction::Right)); // 135
    assert_eq!(drag(-10, 0), Some(Direction::Right)); // 180
    assert_eq!(drag(-10, -10), Some(Direction::Right)); // -135
    assert_eq!(drag(-9, -10), Some(Direction::Down)); // ~-132
    assert_eq!(drag(10, -10), Some(Direction::Down)); // -45
    assert_eq!(drag(10, -9), Some(Direction::Left)); // ~-42
    assert_eq!(drag(10, -1), Some(Direction::Left)); // ~-6
}

#[test]
fn extreme_coordinates_do_not_overflow() {
    assert_eq!(classify(p(i32::MAX, 0), p(i32::MIN, 0)), Some(Direction::Left));
    assert_eq!(classify(p(0, i32::MIN), p(0, i32::MAX)), Some(Direction::Down));
}

#[test]
fn indicator_is_quarter_turn_past_heading() {
    assert_eq!(indicator_angle(Direction::Left), 135);
    assert_eq!(indicator_angle(Direction::Up), 225);
    assert_eq!(indicator_angle(Direction::Right), 315);
    assert_eq!(indicator_angle(Direction::Down), 45);
}

#[test]
fn tracker_latches_start_on_new_touch() {
    let mut g = GestureTracker::new();
    assert_eq!(g.start, p(0, 0));
    let r = g.observe(Touch { phase: TouchPhase::Started, position: p(300, 300) });
    assert_eq!(r, None);
    assert_eq!(g.start, p(300, 300));
    let r = g.observe(Touch { phase: TouchPhase::Moved, position: p(300, 450) });
    assert_eq!(r, Some(Direction::Down));
    assert_eq!(g.start, p(300, 300));
    let r = g.observe(Touch { phase: TouchPhase::Ended, position: p(100, 300) });
    assert_eq!(r, Some(Direction::Left));
    let r = g.observe(Touch { phase: TouchPhase::Started, position: p(100, 300) });
    assert_eq!(r, None);
    assert_eq!(g.start, p(100, 300));
}

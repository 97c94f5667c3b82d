//! Turning a touch drag into a requested heading.
//!
//! A drag from `start` to `current` has the vector `(dx, dy) = start - current`
//! and the angle `atan2(dy, dx)` in degrees, in `(-180, 180]`. Six bands of that
//! angle pick the heading. Each band is written below as comparisons of `dx`
//! and `dy`, which is exact where floating-point angles are not.
use vstd::prelude::*;

use crate::grid::Direction;

verus! {

/// A point on the screen, in pixels.
#[derive(Clone, Copy, Debug, PartialEq, Eq, Structural)]
pub struct ScreenPoint {
    pub x: i32,
    pub y: i32,
}

/// Where a tracked touch is in its life.
#[derive(Clone, Copy, Debug, PartialEq, Eq, Structural)]
pub enum TouchPhase {
    Started,
    Stationary,
    Moved,
    Ended,
    Cancelled,
}

/// The first active touch of a frame.
#[derive(Clone, Copy, Debug, PartialEq, Eq, Structural)]
pub struct Touch {
    pub phase: TouchPhase,
    pub position: ScreenPoint,
}

/// Angle in `[0°, 45°)`.
pub open spec fn in_upper_left_band(dx: int, dy: int) -> bool {
    0 <= dy < dx
}

/// Angle in `[45°, 135°)`.
pub open spec fn in_up_band(dx: int, dy: int) -> bool {
    0 < dy && -dy < dx <= dy
}

/// Angle in `[135°, 180°]`.
pub open spec fn in_upper_right_band(dx: int, dy: int) -> bool {
    dx < 0 && 0 <= dy <= -dx
}

/// Angle in `[-180°, -135°]`.
pub open spec fn in_lower_right_band(dx: int, dy: int) -> bool {
    dy < 0 && dx <= dy
}

/// Angle in `(-135°, -45°]`.
pub open spec fn in_down_band(dx: int, dy: int) -> bool {
    dy < dx <= -dy
}

/// Angle in `(-45°, 0°)`.
pub open spec fn in_lower_left_band(dx: int, dy: int) -> bool {
    dy < 0 && -dy < dx
}

/// The heading that a drag vector requests; none for a drag of zero length.
pub open spec fn drag_direction(dx: int, dy: int) -> Option<Direction> {
    if dx == 0 && dy == 0 {
        None
    } else if in_upper_left_band(dx, dy) || in_lower_left_band(dx, dy) {
        Some(Direction::Left)
    } else if in_up_band(dx, dy) {
        Some(Direction::Up)
    } else if in_upper_right_band(dx, dy) || in_lower_right_band(dx, dy) {
        Some(Direction::Right)
    } else {
        Some(Direction::Down)
    }
}

/// The six bands cover every non-zero drag vector, and no two of them overlap.
pub proof fn lemma_bands_partition(dx: int, dy: int)
    requires
        dx != 0 || dy != 0,
    ensures
        in_upper_left_band(dx, dy) || in_up_band(dx, dy) || in_upper_right_band(dx, dy)
            || in_lower_right_band(dx, dy) || in_down_band(dx, dy) || in_lower_left_band(dx, dy),
        (if in_upper_left_band(dx, dy) { 1int } else { 0 }) + (if in_up_band(dx, dy) {
            1int
        } else {
            0
        }) + (if in_upper_right_band(dx, dy) { 1int } else { 0 }) + (if in_lower_right_band(
            dx,
            dy,
        ) {
            1int
        } else {
            0
        }) + (if in_down_band(dx, dy) { 1int } else { 0 }) + (if in_lower_left_band(dx, dy) {
            1int
        } else {
            0
        }) == 1,
{
}

/// The heading requested by dragging from `start` to `current`.
pub fn classify(start: ScreenPoint, current: ScreenPoint) -> (r: Option<Direction>)
    ensures
        r == drag_direction(start.x - current.x, start.y - current.y),
{
    let dx: i64 = start.x as i64 - current.x as i64;
    let dy: i64 = start.y as i64 - current.y as i64;
    if dx == 0 && dy == 0 {
        None
    } else if 0 <= dy && dy < dx {
        Some(Direction::Left)
    } else if 0 < dy && -dy < dx && dx <= dy {
        Some(Direction::Up)
    } else if dx < 0 && 0 <= dy && dy <= -dx {
        Some(Direction::Right)
    } else if dy < 0 && dx <= dy {
        Some(Direction::Right)
    } else if dy < dx && dx <= -dy {
        Some(Direction::Down)
    } else if dy < 0 && -dy < dx {
        Some(Direction::Left)
    } else {
        proof {
            lemma_bands_partition(dx as int, dy as int);
        }
        None
    }
}

/// Orientation, in degrees, of the indicator drawn for a heading: the
/// heading's own angle plus a quarter turn.
pub open spec fn spec_indicator_angle(d: Direction) -> int {
    match d {
        Direction::Left => 135,
        Direction::Up => 225,
        Direction::Right => 315,
        Direction::Down => 45,
    }
}

pub fn indicator_angle(d: Direction) -> (r: u16)
    ensures
        r == spec_indicator_angle(d),
{
    match d {
        Direction::Left => 135,
        Direction::Up => 225,
        Direction::Right => 315,
        Direction::Down => 45,
    }
}

/// Remembers where the current touch started.
#[derive(Clone, Copy, Debug, PartialEq, Eq, Structural)]
pub struct GestureTracker {
    pub start: ScreenPoint,
}

/// The start point after seeing `t`: a new touch latches its position.
pub open spec fn latched(start: ScreenPoint, t: Touch) -> ScreenPoint {
    if t.phase == TouchPhase::Started {
        t.position
    } else {
        start
    }
}

/// The heading that `t` requests, measured from its latched start.
pub open spec fn requested(start: ScreenPoint, t: Touch) -> Option<Direction> {
    let s = latched(start, t);
    drag_direction(s.x - t.position.x, s.y - t.position.y)
}

impl GestureTracker {
    pub fn new() -> (g: GestureTracker)
        ensures
            g.start == (ScreenPoint { x: 0, y: 0 }),
    {
        GestureTracker { start: ScreenPoint { x: 0, y: 0 } }
    }

    /// Takes in the frame's first touch and returns the heading it requests.
    pub fn observe(&mut self, t: Touch) -> (r: Option<Direction>)
        ensures
            final(self).start == latched(old(self).start, t),
            r == requested(old(self).start, t),
    {
        if t.phase == TouchPhase::Started {
            self.start = t.position;
        }
        classify(self.start, t.position)
    }
}

/// Straight drags: up, left, right and down give their own heading (up for
/// an angle of 90°, left for 0°, right for 180°, down for -90°), and a drag
/// that does not move gives none.
pub proof fn axis_drags(len: int)
    requires
        len > 0,
    ensures
        drag_direction(0, len) == Some(Direction::Up),
        drag_direction(len, 0) == Some(Direction::Left),
        drag_direction(-len, 0) == Some(Direction::Right),
        drag_direction(0, -len) == Some(Direction::Down),
        drag_direction(0, 0) == None::<Direction>,
{
}

} // verus!

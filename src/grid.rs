//! The playing field: cells on a square grid and the four headings.
use vstd::prelude::*;
use vstd::set_lib::{lemma_int_range, lemma_len_subset, set_int_range};

verus! {

/// Number of cells along each side of the square playing field.
pub const GRID_SIZE: i16 = 16;

/// A cell of the grid, column `x` and row `y`; rows grow downwards.
#[derive(Clone, Copy, Debug, PartialEq, Eq, Structural)]
pub struct Position {
    pub x: i16,
    pub y: i16,
}

/// One of the four unit steps the snake can take.
#[derive(Clone, Copy, Debug, PartialEq, Eq, Structural)]
pub enum Direction {
    Up,
    Down,
    Left,
    Right,
}

/// Whether `p` lies on the `GRID_SIZE × GRID_SIZE` field.
pub open spec fn in_grid(p: Position) -> bool {
    0 <= p.x < GRID_SIZE && 0 <= p.y < GRID_SIZE
}

impl Direction {
    /// Horizontal component of the unit step.
    pub open spec fn spec_dx(self) -> int {
        match self {
            Direction::Left => -1,
            Direction::Right => 1,
            _ => 0,
        }
    }

    /// Vertical component of the unit step (Up is towards row 0).
    pub open spec fn spec_dy(self) -> int {
        match self {
            Direction::Up => -1,
            Direction::Down => 1,
            _ => 0,
        }
    }

    /// The heading that points the other way.
    pub open spec fn spec_opposite(self) -> Direction {
        match self {
            Direction::Up => Direction::Down,
            Direction::Down => Direction::Up,
            Direction::Left => Direction::Right,
            Direction::Right => Direction::Left,
        }
    }

    pub fn dx(self) -> (r: i16)
        ensures
            r == self.spec_dx(),
    {
        match self {
            Direction::Left => -1,
            Direction::Right => 1,
            _ => 0,
        }
    }

    pub fn dy(self) -> (r: i16)
        ensures
            r == self.spec_dy(),
    {
        match self {
            Direction::Up => -1,
            Direction::Down => 1,
            _ => 0,
        }
    }

    pub fn opposite(self) -> (r: Direction)
        ensures
            r == self.spec_opposite(),
    {
        match self {
            Direction::Up => Direction::Down,
            Direction::Down => Direction::Up,
            Direction::Left => Direction::Right,
            Direction::Right => Direction::Left,
        }
    }
}

impl Position {
    /// The cell one step from `self` in direction `d`.
    pub open spec fn spec_moved(self, d: Direction) -> Position {
        Position { x: (self.x + d.spec_dx()) as i16, y: (self.y + d.spec_dy()) as i16 }
    }

    /// The neighbouring cell in direction `d`; `self` may be at most one
    /// cell off the field, so the result always fits.
    pub fn moved(self, d: Direction) -> (r: Position)
        requires
            -1 <= self.x <= GRID_SIZE,
            -1 <= self.y <= GRID_SIZE,
        ensures
            r == self.spec_moved(d),
            r.x == self.x + d.spec_dx(),
            r.y == self.y + d.spec_dy(),
    {
        Position { x: self.x + d.dx(), y: self.y + d.dy() }
    }

    pub fn is_in_grid(self) -> (r: bool)
        ensures
            r == in_grid(self),
    {
        0 <= self.x && self.x < GRID_SIZE && 0 <= self.y && self.y < GRID_SIZE
    }
}

/// A number for each cell of the field, distinct for distinct cells.
pub open spec fn cell_index(p: Position) -> int {
    p.x * GRID_SIZE + p.y
}

/// A sequence of distinct cells of the field holds at most one entry per cell.
pub proof fn lemma_distinct_cells_fit(s: Seq<Position>)
    requires
        s.no_duplicates(),
        forall|i: int| 0 <= i < s.len() ==> in_grid(#[trigger] s[i]),
    ensures
        s.len() <= GRID_SIZE * GRID_SIZE,
{
    let t = s.map_values(|p: Position| cell_index(p));
    assert forall|i: int, j: int| 0 <= i < t.len() && 0 <= j < t.len() && i != j implies t[i]
        != t[j] by {
        assert(in_grid(s[i]) && in_grid(s[j]));
        assert(s[i] != s[j]);
    }
    assert(t.no_duplicates());
    t.unique_seq_to_set();
    let range = set_int_range(0, GRID_SIZE * GRID_SIZE);
    lemma_int_range(0, GRID_SIZE * GRID_SIZE);
    assert forall|v: int| t.to_set().contains(v) implies range.contains(v) by {
        let i = choose|i: int| 0 <= i < t.len() && t[i] == v;
        assert(in_grid(s[i]));
    }
    lemma_len_subset(t.to_set(), range);
}

} // verus!

//! Uniform placement of fruit on the field.
use vstd::prelude::*;

use crate::grid::{in_grid, Position, GRID_SIZE};

verus! {

/// Relies on `macroquad::rand::gen_range` (quad-rand's `RandomRange` for
/// `i16`): it scales a 32-bit draw in `[0, 1)` onto `[low, high)` and
/// truncates, so for `0 <= low < high` the result lies in `[low, high)`.
#[verifier::external_body]
fn gen_range_i16(low: i16, high: i16) -> (r: i16)
    requires
        0 <= low < high,
    ensures
        low <= r < high,
{
    macroquad::rand::gen_range(low, high)
}

/// A cell drawn independently per axis over the whole field; snake cells are
/// not excluded.
pub fn random_cell() -> (p: Position)
    ensures
        in_grid(p),
{
    let x = gen_range_i16(0, GRID_SIZE);
    let y = gen_range_i16(0, GRID_SIZE);
    Position { x, y }
}

} // verus!

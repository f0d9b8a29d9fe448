//! Grid geometry: cells, alignment, and the boundary test.

use vstd::prelude::*;

verus! {

/// Side length of one grid square, in pixels.
pub const GRID_SIZE: i32 = 20;

/// Side length of the square play area, in pixels; an exact multiple of
/// `GRID_SIZE`, so that the far boundary row lies on the grid.
pub const WINDOW_SIZE: i32 = 800;

/// A grid square, identified by the pixel coordinates of its top-left corner.
#[derive(Clone, Copy, PartialEq, Eq, Structural, Debug)]
pub struct Cell {
    pub x: i32,
    pub y: i32,
}

impl Cell {
    /// A cell lies on the grid when both coordinates are multiples of `GRID_SIZE`.
    pub open spec fn aligned(self) -> bool {
        self.x as int % (GRID_SIZE as int) == 0 && self.y as int % (GRID_SIZE as int) == 0
    }

    /// Both coordinates lie inside the play area.
    pub open spec fn in_window(self) -> bool {
        0 <= self.x < WINDOW_SIZE && 0 <= self.y < WINDOW_SIZE
    }
}

/// True iff the two cells occupy the same grid position. Cells all have the
/// same side length, so position alone decides overlap.
pub fn cells_equal(a: &Cell, b: &Cell) -> (r: bool)
    ensures
        r == (a == b),
{
    a.x == b.x && a.y == b.y
}

/// A cell sits on the terminal boundary when it occupies the far right column
/// or the far bottom row of the window. The near edges (`x == 0`, `y == 0`)
/// are open: moving past them is never a collision.
pub open spec fn at_boundary(c: Cell) -> bool {
    c.x == WINDOW_SIZE - GRID_SIZE || c.y == WINDOW_SIZE - GRID_SIZE
}

pub fn is_at_boundary(c: &Cell) -> (r: bool)
    ensures
        r == at_boundary(*c),
{
    c.x == WINDOW_SIZE - GRID_SIZE || c.y == WINDOW_SIZE - GRID_SIZE
}

/// Align a raw coordinate down to the nearest grid line at or below it.
pub fn align_down(v: i32) -> (r: i32)
    requires
        0 <= v,
    ensures
        r as int % (GRID_SIZE as int) == 0,
        r <= v < r + GRID_SIZE,
{
    let m = v % GRID_SIZE;
    let r = v - m;
    proof {
        let g = GRID_SIZE as int;
        vstd::arithmetic::div_mod::lemma_fundamental_div_mod(v as int, g);
        assert(r as int == g * (v as int / g));
        vstd::arithmetic::div_mod::lemma_mod_multiples_basic(v as int / g, g);
    }
    r
}

} // verus!

//! The fruit spawner: a fresh target cell, placed uniformly at random and
//! aligned to the grid.

use vstd::prelude::*;

use rand::RngExt;

use crate::grid::{align_down, Cell, WINDOW_SIZE};

verus! {

/// Relies on rand's `RngExt::random_range` on the thread-local generator: it
/// returns a value in the given range and panics only when the range is
/// empty, which the precondition rules out.
#[verifier::external_body]
fn random_in_range(lo: i32, hi: i32) -> (r: i32)
    requires
        lo < hi,
    ensures
        lo <= r < hi,
{
    rand::rng().random_range(lo..hi)
}

/// Place a fruit: draw each coordinate uniformly at random from the window
/// and align it down to the grid. The result may land on the snake body; that
/// is accepted behaviour, not checked here.
pub fn gen_fruit() -> (c: Cell)
    ensures
        c.aligned(),
        c.in_window(),
{
    let raw_x = random_in_range(0, WINDOW_SIZE);
    let raw_y = random_in_range(0, WINDOW_SIZE);
    Cell { x: align_down(raw_x), y: align_down(raw_y) }
}

} // verus!

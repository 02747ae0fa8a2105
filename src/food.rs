//! Food placement: a cell drawn at random over the whole area.

use vstd::prelude::*;
use rand::Rng;
use crate::grid::{Coordinate, GameArea};

verus! {

/// Relies on rand's `thread_rng().gen_range(0..n)`: a number below `n`,
/// which it draws uniformly and panics to give when `n` is zero.
#[verifier::external_body]
fn random_below(n: u32) -> (r: u32)
    requires
        n > 0,
    ensures
        r < n,
{
    rand::thread_rng().gen_range(0..n)
}

/// A cell of the area drawn at random: the column and the row are drawn
/// independently and uniformly. The cell may lie under the snake.
pub fn respawn(display: &GameArea) -> (r: Coordinate)
    requires
        display.hcells > 0,
        display.vcells > 0,
    ensures
        display.contains(r),
{
    let x = random_below(display.hcells);
    let y = random_below(display.vcells);
    Coordinate { x, y }
}

} // verus!

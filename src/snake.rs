//! The snake: its heading, its body, and how a heading may change.

use vstd::prelude::*;
use crate::grid::{Coordinate, GameArea, in_bounds};

verus! {

/// The four headings of the snake.
#[derive(Clone, Copy, Debug, PartialEq, Eq, Structural)]
pub enum Direction {
    Left,
    Right,
    Up,
    Down,
}

/// The heading that points the other way.
pub open spec fn opposite(d: Direction) -> Direction {
    match d {
        Direction::Left => Direction::Right,
        Direction::Right => Direction::Left,
        Direction::Up => Direction::Down,
        Direction::Down => Direction::Up,
    }
}

/// The cell one step from `c` along `d`, or `None` where that step leaves a
/// `hcells` by `vcells` area.
pub open spec fn step_from(c: Coordinate, d: Direction, hcells: u32, vcells: u32) -> Option<
    Coordinate,
> {
    match d {
        Direction::Left => if c.x == 0 {
            None
        } else {
            Some(Coordinate { x: (c.x - 1) as u32, y: c.y })
        },
        Direction::Right => if c.x + 1 >= hcells {
            None
        } else {
            Some(Coordinate { x: (c.x + 1) as u32, y: c.y })
        },
        Direction::Up => if c.y == 0 {
            None
        } else {
            Some(Coordinate { x: c.x, y: (c.y - 1) as u32 })
        },
        Direction::Down => if c.y + 1 >= vcells {
            None
        } else {
            Some(Coordinate { x: c.x, y: (c.y + 1) as u32 })
        },
    }
}

/// The body of a new snake on a `hcells` by `vcells` area: five cells in a
/// row, the head at the centre and the tail to its left.
pub open spec fn initial_body(hcells: u32, vcells: u32) -> Seq<Coordinate> {
    Seq::new(5, |i: int| Coordinate { x: (hcells / 2 - i) as u32, y: vcells / 2 })
}

/// The heading a snake with heading `current`, whose last move went along
/// `last_move`, takes when `d` is asked for: `d`, unless it points back
/// against the heading or against the last move.
pub open spec fn turned(current: Direction, last_move: Direction, d: Direction) -> Direction {
    if d == opposite(current) || d == opposite(last_move) {
        current
    } else {
        d
    }
}

/// The heading that points the other way.
fn reverse(d: Direction) -> (r: Direction)
    ensures
        r == opposite(d),
{
    match d {
        Direction::Left => Direction::Right,
        Direction::Right => Direction::Left,
        Direction::Up => Direction::Down,
        Direction::Down => Direction::Up,
    }
}

/// A snake: the cells of its body, head first, the heading of the head for
/// the next move, and the direction its last move went along.
pub struct Snake {
    pub direction: Direction,
    pub last_move: Direction,
    pub body: Vec<Coordinate>,
}

impl Snake {
    /// Turns the snake towards `d`, unless `d` points back against its
    /// heading or against its last move: two quick turns cannot reverse it
    /// before it moves.
    pub fn turn(&mut self, d: Direction)
        ensures
            final(self).body == old(self).body,
            final(self).last_move == old(self).last_move,
            final(self).direction == turned(old(self).direction, old(self).last_move, d),
    {
        if d != reverse(self.direction) && d != reverse(self.last_move) {
            self.direction = d;
        }
    }
}

/// The cell one step from `c` along `d`, or `None` where the step would
/// leave the area.
pub fn next_cell(c: Coordinate, d: Direction, display: &GameArea) -> (r: Option<Coordinate>)
    requires
        display.hcells > 0,
        display.vcells > 0,
        in_bounds(c, display.hcells, display.vcells),
    ensures
        r == step_from(c, d, display.hcells, display.vcells),
{
    match d {
        Direction::Left => if c.x == 0 {
            None
        } else {
            Some(Coordinate { x: c.x - 1, y: c.y })
        },
        Direction::Right => if c.x >= display.hcells - 1 {
            None
        } else {
            Some(Coordinate { x: c.x + 1, y: c.y })
        },
        Direction::Up => if c.y == 0 {
            None
        } else {
            Some(Coordinate { x: c.x, y: c.y - 1 })
        },
        Direction::Down => if c.y >= display.vcells - 1 {
            None
        } else {
            Some(Coordinate { x: c.x, y: c.y + 1 })
        },
    }
}

/// A new snake heading right: five cells in a row, the head at the centre
/// of the area.
pub fn create_snake(display: &GameArea) -> (r: Snake)
    requires
        display.hcells >= 8,
    ensures
        r.direction == Direction::Right,
        r.last_move == Direction::Right,
        r.body@ == initial_body(display.hcells, display.vcells),
{
    let hx = display.hcells / 2;
    let y = display.vcells / 2;
    let mut body: Vec<Coordinate> = Vec::new();
    body.push(Coordinate { x: hx, y });
    body.push(Coordinate { x: hx - 1, y });
    body.push(Coordinate { x: hx - 2, y });
    body.push(Coordinate { x: hx - 3, y });
    body.push(Coordinate { x: hx - 4, y });
    assert(body@ =~= initial_body(display.hcells, display.vcells));
    Snake { direction: Direction::Right, last_move: Direction::Right, body }
}

} // verus!

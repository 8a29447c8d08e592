//! Grid coordinates and the four directions of movement.

use vstd::prelude::*;

verus! {

/// A cell of the grid. `x` grows to the right, `y` grows downwards.
#[derive(Clone, Copy, Debug, PartialEq, Eq, Structural)]
pub struct Position {
    pub x: i32,
    pub y: i32,
}

/// One of the four directions in which the snake can move.
#[derive(Clone, Copy, Debug, PartialEq, Eq, Structural)]
pub enum Direction {
    Up,
    Down,
    Left,
    Right,
}

impl Direction {
    /// The horizontal part of the direction's unit vector.
    pub open spec fn dx(self) -> int {
        match self {
            Direction::Left => -1,
            Direction::Right => 1,
            _ => 0,
        }
    }

    /// The vertical part of the direction's unit vector.
    pub open spec fn dy(self) -> int {
        match self {
            Direction::Up => -1,
            Direction::Down => 1,
            _ => 0,
        }
    }

    /// The direction that points the other way.
    pub open spec fn reversed(self) -> Direction {
        match self {
            Direction::Up => Direction::Down,
            Direction::Down => Direction::Up,
            Direction::Left => Direction::Right,
            Direction::Right => Direction::Left,
        }
    }
}

impl Position {
    /// Whether the neighbour in direction `dir` still has `i32` coordinates.
    pub open spec fn can_step(self, dir: Direction) -> bool {
        &&& i32::MIN <= self.x + dir.dx() <= i32::MAX
        &&& i32::MIN <= self.y + dir.dy() <= i32::MAX
    }

    /// The neighbour of this cell in direction `dir`.
    pub open spec fn step(self, dir: Direction) -> Position {
        Position { x: (self.x + dir.dx()) as i32, y: (self.y + dir.dy()) as i32 }
    }

    /// Whether the two cells are neighbours: they differ by one in exactly
    /// one coordinate.
    pub open spec fn adjacent(self, other: Position) -> bool {
        ||| self.y == other.y && (self.x - other.x == 1 || other.x - self.x == 1)
        ||| self.x == other.x && (self.y - other.y == 1 || other.y - self.y == 1)
    }

    /// Moves the position by the unit vector of `dir`: up is `y - 1`, down is
    /// `y + 1`, left is `x - 1`, right is `x + 1`. No grid bounds are applied.
    pub fn translate(self, dir: Direction) -> (moved: Position)
        requires
            self.can_step(dir),
        ensures
            moved == self.step(dir),
            moved.x == self.x + dir.dx(),
            moved.y == self.y + dir.dy(),
    {
        match dir {
            Direction::Up => Position { x: self.x, y: self.y - 1 },
            Direction::Down => Position { x: self.x, y: self.y + 1 },
            Direction::Left => Position { x: self.x - 1, y: self.y },
            Direction::Right => Position { x: self.x + 1, y: self.y },
        }
    }
}

/// A step changes exactly one coordinate by one: it leads to a neighbour,
/// never stays in place, and stepping back in the reversed direction
/// returns to the start.
pub proof fn lemma_step_moves(p: Position, dir: Direction)
    requires
        p.can_step(dir),
    ensures
        p.step(dir) != p,
        p.step(dir).adjacent(p),
        p.step(dir).can_step(dir.reversed()),
        p.step(dir).step(dir.reversed()) == p,
{
}

} // verus!

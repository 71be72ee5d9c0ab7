//! Cells, directions and the geometry of the grid.

use vstd::prelude::*;

verus! {

/// Number of cells across the default playing field.
pub const GRID_WIDTH: i32 = 12;

/// Number of cells down the default playing field.
pub const GRID_HEIGHT: i32 = 9;

/// A cell of the grid, by column `x` and row `y`.
#[derive(Clone, Copy, Debug, PartialEq, Eq, Structural, Hash)]
pub struct Position {
    pub x: i32,
    pub y: i32,
}

/// One of the four headings. `Up` increases `y`, `Right` increases `x`.
#[derive(Clone, Copy, Debug, PartialEq, Eq, Structural, Hash)]
pub enum Direction {
    Up,
    Down,
    Left,
    Right,
}

impl Direction {
    /// The heading that exactly reverses this one.
    pub open spec fn reversed(self) -> Direction {
        match self {
            Direction::Up => Direction::Down,
            Direction::Down => Direction::Up,
            Direction::Left => Direction::Right,
            Direction::Right => Direction::Left,
        }
    }

    /// Change of `x` made by one step in this direction.
    pub open spec fn dx(self) -> int {
        match self {
            Direction::Left => -1,
            Direction::Right => 1,
            _ => 0,
        }
    }

    /// Change of `y` made by one step in this direction.
    pub open spec fn dy(self) -> int {
        match self {
            Direction::Down => -1,
            Direction::Up => 1,
            _ => 0,
        }
    }

    /// The step of one cell in this direction, as the change of `x` and
    /// the change of `y`.
    pub fn unit_vector(self) -> (delta: (i32, i32))
        ensures
            delta.0 == self.dx(),
            delta.1 == self.dy(),
    {
        match self {
            Direction::Up => (0, 1),
            Direction::Down => (0, -1),
            Direction::Left => (-1, 0),
            Direction::Right => (1, 0),
        }
    }

    /// The heading that exactly reverses this one.
    #[verifier::when_used_as_spec(reversed)]
    pub fn opposite(self) -> (d: Direction)
        ensures
            d == self.reversed(),
    {
        match self {
            Direction::Up => Direction::Down,
            Direction::Down => Direction::Up,
            Direction::Left => Direction::Right,
            Direction::Right => Direction::Left,
        }
    }
}

/// A grid can hold a game when it has at least one cell for the snake and
/// one more for the food.
pub open spec fn valid_grid(width: int, height: int) -> bool {
    width >= 1 && height >= 1 && width * height > 1
}

/// `p` lies on a grid of the given size.
pub open spec fn in_bounds(p: Position, width: int, height: int) -> bool {
    0 <= p.x < width && 0 <= p.y < height
}

/// `v` moved to the nearest value of `lo..=hi`.
pub open spec fn clamped(v: int, lo: int, hi: int) -> int {
    if v < lo {
        lo
    } else if v > hi {
        hi
    } else {
        v
    }
}

/// The cell reached from `from` by one step in `dir`, each coordinate held
/// inside the grid on its own.
pub open spec fn step(from: Position, dir: Direction, width: int, height: int) -> Position {
    Position {
        x: clamped(from.x + dir.dx(), 0, width - 1) as i32,
        y: clamped(from.y + dir.dy(), 0, height - 1) as i32,
    }
}

/// `p` with each coordinate moved to the nearest one on the grid.
pub open spec fn clamp_to_grid(p: Position, width: int, height: int) -> Position {
    Position {
        x: clamped(p.x as int, 0, width - 1) as i32,
        y: clamped(p.y as int, 0, height - 1) as i32,
    }
}

/// The middle of `0..size`, rounded down; zero where there is nothing to
/// take the middle of.
pub open spec fn middle(size: int) -> int {
    if size >= 1 {
        size / 2
    } else {
        0
    }
}

/// The middle cell of a grid.
pub open spec fn center(width: int, height: int) -> Position {
    Position { x: middle(width) as i32, y: middle(height) as i32 }
}

/// Whether a grid of this size can hold a game.
pub fn grid_is_valid(width: i32, height: i32) -> (ok: bool)
    ensures
        ok == valid_grid(width as int, height as int),
{
    proof {
        if width >= 1 && height >= 1 {
            assert(width * height > 1 <==> (width > 1 || height > 1)) by (nonlinear_arith)
                requires
                    width >= 1,
                    height >= 1,
            ;
        }
    }
    width >= 1 && height >= 1 && (width > 1 || height > 1)
}

/// Whether `p` lies on a grid of this size.
pub fn on_grid(p: Position, width: i32, height: i32) -> (ok: bool)
    ensures
        ok == in_bounds(p, width as int, height as int),
{
    0 <= p.x && p.x < width && 0 <= p.y && p.y < height
}

fn clamp_coordinate(v: i64, limit: i32) -> (c: i32)
    requires
        limit >= 1,
    ensures
        c == clamped(v as int, 0, limit - 1),
{
    if v < 0 {
        0
    } else if v > (limit - 1) as i64 {
        limit - 1
    } else {
        v as i32
    }
}

/// Moves `p` onto the grid, coordinate by coordinate.
pub fn clamp_position(p: Position, width: i32, height: i32) -> (c: Position)
    requires
        width >= 1,
        height >= 1,
    ensures
        c == clamp_to_grid(p, width as int, height as int),
        in_bounds(c, width as int, height as int),
{
    Position { x: clamp_coordinate(p.x as i64, width), y: clamp_coordinate(p.y as i64, height) }
}

/// One step from `from` in direction `dir` on a grid of the given size. A
/// step that would leave the grid stops at its edge.
pub fn next_head(from: Position, dir: Direction, width: i32, height: i32) -> (to: Position)
    requires
        width >= 1,
        height >= 1,
    ensures
        to == step(from, dir, width as int, height as int),
        in_bounds(to, width as int, height as int),
{
    let (dx, dy): (i32, i32) = dir.unit_vector();
    Position {
        x: clamp_coordinate(from.x as i64 + dx as i64, width),
        y: clamp_coordinate(from.y as i64 + dy as i64, height),
    }
}

/// The cell where the snake starts by default: the middle of the grid.
pub fn grid_center(width: i32, height: i32) -> (c: Position)
    ensures
        c == center(width as int, height as int),
        width >= 1 && height >= 1 ==> in_bounds(c, width as int, height as int),
{
    Position {
        x: if width >= 1 {
            width / 2
        } else {
            0
        },
        y: if height >= 1 {
            height / 2
        } else {
            0
        },
    }
}

} // verus!

//! Positions and grid directions.

use vstd::prelude::*;

verus! {

/// A position in abstract space. Z exists for future 3D support
/// but defaults to 0 for 2D grids.
#[derive(Debug, Clone, Copy, PartialEq, Eq, Hash, Structural)]
pub struct Position {
    pub x: i32,
    pub y: i32,
    pub z: i32,
}

/// Absolute value.
pub open spec fn abs_int(x: int) -> int {
    if x < 0 {
        -x
    } else {
        x
    }
}

pub open spec fn max_int(a: int, b: int) -> int {
    if a >= b {
        a
    } else {
        b
    }
}

pub open spec fn min_int(a: int, b: int) -> int {
    if a <= b {
        a
    } else {
        b
    }
}

/// The coordinate differences between `a` and `b` fit in an `i32`.
pub open spec fn steps_fit(a: Position, b: Position) -> bool {
    &&& i32::MIN <= a.x - b.x <= i32::MAX
    &&& i32::MIN <= a.y - b.y <= i32::MAX
}

/// Horizontal distance in squares.
pub open spec fn dx_abs(a: Position, b: Position) -> int {
    abs_int(a.x - b.x)
}

/// Vertical distance in squares.
pub open spec fn dy_abs(a: Position, b: Position) -> int {
    abs_int(a.y - b.y)
}

/// `|d|` as a `u32`.
pub(crate) fn unsigned_abs(d: i32) -> (r: u32)
    ensures
        r == abs_int(d as int),
{
    if d >= 0 {
        d as u32
    } else {
        let wide: i64 = -(d as i64);
        wide as u32
    }
}

impl Position {
    pub fn new(x: i32, y: i32) -> (r: Self)
        ensures
            r == (Position { x, y, z: 0 }),
    {
        Self { x, y, z: 0 }
    }

    pub fn new3d(x: i32, y: i32, z: i32) -> (r: Self)
        ensures
            r == (Position { x, y, z }),
    {
        Self { x, y, z }
    }

    /// Chebyshev distance — basis of PF2e grid distance (king moves).
    pub fn chebyshev(&self, other: &Position) -> (r: u32)
        requires
            steps_fit(*self, *other),
        ensures
            r == max_int(dx_abs(*self, *other), dy_abs(*self, *other)),
    {
        let dx = unsigned_abs(self.x - other.x);
        let dy = unsigned_abs(self.y - other.y);
        if dx >= dy {
            dx
        } else {
            dy
        }
    }

    /// How many diagonal steps are needed between two positions.
    pub fn diagonal_steps(&self, other: &Position) -> (r: u32)
        requires
            steps_fit(*self, *other),
        ensures
            r == min_int(dx_abs(*self, *other), dy_abs(*self, *other)),
    {
        let dx = unsigned_abs(self.x - other.x);
        let dy = unsigned_abs(self.y - other.y);
        if dx <= dy {
            dx
        } else {
            dy
        }
    }

    /// How many cardinal (non-diagonal) steps remain after diagonals.
    pub fn cardinal_steps(&self, other: &Position) -> (r: u32)
        requires
            steps_fit(*self, *other),
        ensures
            r == abs_int(dx_abs(*self, *other) - dy_abs(*self, *other)),
    {
        let dx = unsigned_abs(self.x - other.x);
        let dy = unsigned_abs(self.y - other.y);
        if dx >= dy {
            dx - dy
        } else {
            dy - dx
        }
    }

    /// The position `dx`, `dy` away, on the plane z = 0.
    pub fn offset(&self, dx: i32, dy: i32) -> (r: Self)
        requires
            i32::MIN <= self.x + dx <= i32::MAX,
            i32::MIN <= self.y + dy <= i32::MAX,
        ensures
            r == (Position { x: (self.x + dx) as i32, y: (self.y + dy) as i32, z: 0 }),
    {
        Self::new(self.x + dx, self.y + dy)
    }
}

/// Diagonal steps plus cardinal steps make up the Chebyshev distance.
pub proof fn lemma_steps_partition(a: Position, b: Position)
    ensures
        min_int(dx_abs(a, b), dy_abs(a, b)) + abs_int(dx_abs(a, b) - dy_abs(a, b)) == max_int(
            dx_abs(a, b),
            dy_abs(a, b),
        ),
        dx_abs(a, b) == dx_abs(b, a),
        dy_abs(a, b) == dy_abs(b, a),
{
}

/// Cardinal and diagonal directions on a 2D grid.
#[derive(Debug, Clone, Copy, PartialEq, Eq, Hash, Structural)]
pub enum Direction {
    North,
    South,
    East,
    West,
    NorthEast,
    NorthWest,
    SouthEast,
    SouthWest,
}

/// The (dx, dy) step of a direction; north is negative y.
pub open spec fn dir_offset(d: Direction) -> (int, int) {
    match d {
        Direction::North => (0, -1),
        Direction::South => (0, 1),
        Direction::East => (1, 0),
        Direction::West => (-1, 0),
        Direction::NorthEast => (1, -1),
        Direction::NorthWest => (-1, -1),
        Direction::SouthEast => (1, 1),
        Direction::SouthWest => (-1, 1),
    }
}

/// The eight directions in their fixed order.
pub open spec fn all_directions() -> Seq<Direction> {
    seq![
        Direction::North,
        Direction::South,
        Direction::East,
        Direction::West,
        Direction::NorthEast,
        Direction::NorthWest,
        Direction::SouthEast,
        Direction::SouthWest,
    ]
}

impl Direction {
    pub fn offset(&self) -> (r: (i32, i32))
        ensures
            r.0 == dir_offset(*self).0,
            r.1 == dir_offset(*self).1,
    {
        match self {
            Direction::North => (0, -1),
            Direction::South => (0, 1),
            Direction::East => (1, 0),
            Direction::West => (-1, 0),
            Direction::NorthEast => (1, -1),
            Direction::NorthWest => (-1, -1),
            Direction::SouthEast => (1, 1),
            Direction::SouthWest => (-1, 1),
        }
    }

    pub fn is_diagonal(&self) -> (r: bool)
        ensures
            r == (dir_offset(*self).0 != 0 && dir_offset(*self).1 != 0),
    {
        matches!(
            self,
            Direction::NorthEast | Direction::NorthWest | Direction::SouthEast | Direction::SouthWest
        )
    }

    pub fn all() -> (r: &'static [Direction; 8])
        ensures
            r@ == all_directions(),
    {
        &[
            Direction::North,
            Direction::South,
            Direction::East,
            Direction::West,
            Direction::NorthEast,
            Direction::NorthWest,
            Direction::SouthEast,
            Direction::SouthWest,
        ]
    }
}

} // verus!

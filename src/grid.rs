//! Integer grid coordinates and the four cardinal directions.
use vstd::prelude::*;

verus! {

/// A tile position on the level grid.
#[derive(Clone, Copy, Debug, PartialEq, Eq, Structural, Default)]
pub struct GridCoords {
    pub x: i32,
    pub y: i32,
}

impl View for GridCoords {
    type V = (int, int);

    open spec fn view(&self) -> (int, int) {
        (self.x as int, self.y as int)
    }
}

/// `c + k * v`, component-wise.
pub open spec fn offset(c: (int, int), v: (int, int), k: int) -> (int, int) {
    (c.0 + k * v.0, c.1 + k * v.1)
}

impl GridCoords {
    pub fn new(x: i32, y: i32) -> (r: GridCoords)
        ensures
            r.x == x,
            r.y == y,
    {
        GridCoords { x, y }
    }

    /// The tile `k` steps away in direction `d`.
    pub fn step(self, d: Direction, k: i32) -> (r: GridCoords)
        requires
            -2 <= k <= 2,
            representable(offset(self@, d.vector(), k as int)),
        ensures
            r@ == offset(self@, d.vector(), k as int),
    {
        let (dx, dy) = d.delta();
        GridCoords { x: self.x + k * dx, y: self.y + k * dy }
    }
}

/// Both components of `c` fit in an `i32`.
pub open spec fn representable(c: (int, int)) -> bool {
    i32::MIN <= c.0 <= i32::MAX && i32::MIN <= c.1 <= i32::MAX
}

/// The tiles one step behind and two steps ahead of `c` in direction `d`, the
/// farthest that a move looks, are representable.
pub open spec fn room_to_step(c: (int, int), d: Direction) -> bool {
    representable(offset(c, d.vector(), 2)) && representable(offset(c, d.vector(), -1))
}

/// A facing or movement direction; `Unset` is the inert "no direction".
#[derive(Clone, Copy, Debug, PartialEq, Eq, Structural, Default)]
pub enum Direction {
    North,
    #[default]
    East,
    South,
    West,
    Unset,
}

impl Direction {
    /// The unit vector of the direction (north is `+y`).
    pub open spec fn vector(self) -> (int, int) {
        match self {
            Direction::North => (0, 1),
            Direction::East => (1, 0),
            Direction::South => (0, -1),
            Direction::West => (-1, 0),
            Direction::Unset => (0, 0),
        }
    }

    pub fn delta(self) -> (r: (i32, i32))
        ensures
            (r.0 as int, r.1 as int) == self.vector(),
    {
        match self {
            Direction::North => (0, 1),
            Direction::East => (1, 0),
            Direction::South => (0, -1),
            Direction::West => (-1, 0),
            Direction::Unset => (0, 0),
        }
    }
}

/// The direction in which `neighbor` lies next to `origin`, or `Unset` when it
/// is not one of the four tiles that share an edge with `origin`.
pub open spec fn neighbor_direction(origin: (int, int), neighbor: (int, int)) -> Direction {
    if neighbor == offset(origin, Direction::North.vector(), 1) {
        Direction::North
    } else if neighbor == offset(origin, Direction::East.vector(), 1) {
        Direction::East
    } else if neighbor == offset(origin, Direction::South.vector(), 1) {
        Direction::South
    } else if neighbor == offset(origin, Direction::West.vector(), 1) {
        Direction::West
    } else {
        Direction::Unset
    }
}

pub fn get_neighbor_direction(origin: GridCoords, neighbor: GridCoords) -> (r: Direction)
    ensures
        r == neighbor_direction(origin@, neighbor@),
{
    let dx: i64 = neighbor.x as i64 - origin.x as i64;
    let dy: i64 = neighbor.y as i64 - origin.y as i64;
    if dx == 0 && dy == 1 {
        Direction::North
    } else if dx == 1 && dy == 0 {
        Direction::East
    } else if dx == 0 && dy == -1 {
        Direction::South
    } else if dx == -1 && dy == 0 {
        Direction::West
    } else {
        Direction::Unset
    }
}

} // verus!

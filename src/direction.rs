use vstd::prelude::*;

verus! {

/// One of the four axis directions of the grid. North is towards row 0.
#[derive(Debug, Clone, Copy, PartialEq, Eq, Hash)]
pub enum Direction {
    North,
    East,
    South,
    West,
}

impl Direction {
    /// The change of `(x, y)` one step in this direction makes.
    pub open spec fn offset(self) -> (int, int) {
        match self {
            Direction::North => (0, -1),
            Direction::East => (1, 0),
            Direction::South => (0, 1),
            Direction::West => (-1, 0),
        }
    }

    pub fn to_offset(self) -> (r: (i32, i32))
        ensures
            r.0 as int == self.offset().0,
            r.1 as int == self.offset().1,
    {
        match self {
            Direction::North => (0, -1),
            Direction::East => (1, 0),
            Direction::South => (0, 1),
            Direction::West => (-1, 0),
        }
    }
}

} // verus!

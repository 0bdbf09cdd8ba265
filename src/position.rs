use crate::area_size::AreaSize;
use crate::direction::Direction;
use vstd::prelude::*;

verus! {

/// A signed position on the plane. Ordered by row first, then by column.
#[derive(Default, Debug, Clone, Copy, PartialEq, Eq, PartialOrd, Ord, Hash)]
pub struct Position {
    pub y: i32,
    pub x: i32,
}

impl Position {
    pub fn new(x: i32, y: i32) -> (r: Self)
        ensures
            r.x == x,
            r.y == y,
    {
        Self { x, y }
    }
}

/// A position measured from a grid's origin. Ordered by row first, then by column.
#[derive(Default, Debug, Clone, Copy, PartialEq, Eq, PartialOrd, Ord, Hash)]
pub struct RelativePosition {
    pub y: u32,
    pub x: u32,
}

impl RelativePosition {
    pub fn new(x: u32, y: u32) -> (r: Self)
        ensures
            r.x == x,
            r.y == y,
    {
        Self { x, y }
    }
}

impl std::ops::Add<Position> for Position {
    type Output = Position;

    fn add(self, rhs: Position) -> Position {
        Position { x: self.x + rhs.x, y: self.y + rhs.y }
    }
}

impl vstd::std_specs::ops::AddSpecImpl<Position> for Position {
    open spec fn obeys_add_spec() -> bool {
        true
    }

    open spec fn add_req(self, rhs: Position) -> bool {
        i32::MIN <= self.x + rhs.x <= i32::MAX && i32::MIN <= self.y + rhs.y <= i32::MAX
    }

    open spec fn add_spec(self, rhs: Position) -> Position {
        Position { x: (self.x + rhs.x) as i32, y: (self.y + rhs.y) as i32 }
    }
}

impl std::ops::Sub<Position> for Position {
    type Output = Position;

    fn sub(self, rhs: Position) -> Position {
        Position { x: self.x - rhs.x, y: self.y - rhs.y }
    }
}

impl vstd::std_specs::ops::SubSpecImpl<Position> for Position {
    open spec fn obeys_sub_spec() -> bool {
        true
    }

    open spec fn sub_req(self, rhs: Position) -> bool {
        i32::MIN <= self.x - rhs.x <= i32::MAX && i32::MIN <= self.y - rhs.y <= i32::MAX
    }

    open spec fn sub_spec(self, rhs: Position) -> Position {
        Position { x: (self.x - rhs.x) as i32, y: (self.y - rhs.y) as i32 }
    }
}

impl std::ops::Add<(i32, i32)> for Position {
    type Output = Position;

    fn add(self, rhs: (i32, i32)) -> Position {
        Position { x: self.x + rhs.0, y: self.y + rhs.1 }
    }
}

impl vstd::std_specs::ops::AddSpecImpl<(i32, i32)> for Position {
    open spec fn obeys_add_spec() -> bool {
        true
    }

    open spec fn add_req(self, rhs: (i32, i32)) -> bool {
        i32::MIN <= self.x + rhs.0 <= i32::MAX && i32::MIN <= self.y + rhs.1 <= i32::MAX
    }

    open spec fn add_spec(self, rhs: (i32, i32)) -> Position {
        Position { x: (self.x + rhs.0) as i32, y: (self.y + rhs.1) as i32 }
    }
}

impl std::ops::Add<AreaSize> for Position {
    type Output = Position;

    fn add(self, rhs: AreaSize) -> Position {
        Position { x: self.x + rhs.width as i32, y: self.y + rhs.height as i32 }
    }
}

impl vstd::std_specs::ops::AddSpecImpl<AreaSize> for Position {
    open spec fn obeys_add_spec() -> bool {
        true
    }

    open spec fn add_req(self, rhs: AreaSize) -> bool {
        rhs.width <= i32::MAX && rhs.height <= i32::MAX && self.x + rhs.width <= i32::MAX && self.y + rhs.height <= i32::MAX
    }

    open spec fn add_spec(self, rhs: AreaSize) -> Position {
        Position { x: (self.x + rhs.width) as i32, y: (self.y + rhs.height) as i32 }
    }
}

impl std::ops::Add<RelativePosition> for Position {
    type Output = Position;

    fn add(self, rhs: RelativePosition) -> Position {
        Position { x: self.x + rhs.x as i32, y: self.y + rhs.y as i32 }
    }
}

impl vstd::std_specs::ops::AddSpecImpl<RelativePosition> for Position {
    open spec fn obeys_add_spec() -> bool {
        true
    }

    open spec fn add_req(self, rhs: RelativePosition) -> bool {
        rhs.x <= i32::MAX && rhs.y <= i32::MAX && self.x + rhs.x <= i32::MAX && self.y + rhs.y <= i32::MAX
    }

    open spec fn add_spec(self, rhs: RelativePosition) -> Position {
        Position { x: (self.x + rhs.x) as i32, y: (self.y + rhs.y) as i32 }
    }
}

impl std::ops::Sub<RelativePosition> for Position {
    type Output = Position;

    fn sub(self, rhs: RelativePosition) -> Position {
        Position { x: self.x - rhs.x as i32, y: self.y - rhs.y as i32 }
    }
}

impl vstd::std_specs::ops::SubSpecImpl<RelativePosition> for Position {
    open spec fn obeys_sub_spec() -> bool {
        true
    }

    open spec fn sub_req(self, rhs: RelativePosition) -> bool {
        rhs.x <= i32::MAX && rhs.y <= i32::MAX && i32::MIN <= self.x - rhs.x && i32::MIN <= self.y - rhs.y
    }

    open spec fn sub_spec(self, rhs: RelativePosition) -> Position {
        Position { x: (self.x - rhs.x) as i32, y: (self.y - rhs.y) as i32 }
    }
}

impl std::ops::Add<RelativePosition> for RelativePosition {
    type Output = RelativePosition;

    fn add(self, rhs: RelativePosition) -> RelativePosition {
        RelativePosition { x: self.x + rhs.x, y: self.y + rhs.y }
    }
}

impl vstd::std_specs::ops::AddSpecImpl<RelativePosition> for RelativePosition {
    open spec fn obeys_add_spec() -> bool {
        true
    }

    open spec fn add_req(self, rhs: RelativePosition) -> bool {
        self.x + rhs.x <= u32::MAX && self.y + rhs.y <= u32::MAX
    }

    open spec fn add_spec(self, rhs: RelativePosition) -> RelativePosition {
        RelativePosition { x: (self.x + rhs.x) as u32, y: (self.y + rhs.y) as u32 }
    }
}

impl std::ops::Mul<AreaSize> for RelativePosition {
    type Output = RelativePosition;

    fn mul(self, rhs: AreaSize) -> RelativePosition {
        RelativePosition { x: self.x * rhs.width as u32, y: self.y * rhs.height as u32 }
    }
}

impl vstd::std_specs::ops::MulSpecImpl<AreaSize> for RelativePosition {
    open spec fn obeys_mul_spec() -> bool {
        true
    }

    open spec fn mul_req(self, rhs: AreaSize) -> bool {
        rhs.width <= u32::MAX && rhs.height <= u32::MAX && self.x * rhs.width <= u32::MAX && self.y * rhs.height <= u32::MAX
    }

    open spec fn mul_spec(self, rhs: AreaSize) -> RelativePosition {
        RelativePosition { x: (self.x * rhs.width) as u32, y: (self.y * rhs.height) as u32 }
    }
}

impl std::ops::Add<Direction> for Position {
    type Output = Position;

    fn add(self, rhs: Direction) -> Position {
        let (dx, dy) = rhs.to_offset();
        Position { x: self.x + dx, y: self.y + dy }
    }
}

impl vstd::std_specs::ops::AddSpecImpl<Direction> for Position {
    open spec fn obeys_add_spec() -> bool {
        true
    }

    open spec fn add_req(self, rhs: Direction) -> bool {
        i32::MIN <= self.x + rhs.offset().0 <= i32::MAX && i32::MIN <= self.y + rhs.offset().1
            <= i32::MAX
    }

    open spec fn add_spec(self, rhs: Direction) -> Position {
        Position { x: (self.x + rhs.offset().0) as i32, y: (self.y + rhs.offset().1) as i32 }
    }
}

/// Reinterprets each coordinate as signed, wrapping past `i32::MAX`.
impl From<RelativePosition> for Position {
    fn from(value: RelativePosition) -> Position {
        Position { x: value.x as i32, y: value.y as i32 }
    }
}

impl vstd::std_specs::convert::FromSpecImpl<RelativePosition> for Position {
    open spec fn obeys_from_spec() -> bool {
        true
    }

    open spec fn from_spec(value: RelativePosition) -> Position {
        Position { x: value.x as i32, y: value.y as i32 }
    }
}

} // verus!

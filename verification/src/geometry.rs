//! Shared geometry of the intersection: sizes, offsets and plane points.

use vstd::prelude::*;

verus! {

/// Side of the square that a vehicle occupies.
pub const CAR_SIZE: i64 = 30;

/// A vehicle does not advance while another one is ahead of it in its lane
/// and closer than this.
pub const MIN_DISTANCE: i64 = 100;

/// How far before the centre a vehicle entering from the north holds at red,
/// measured from its position.
pub const NORTH_OFFSET: i64 = 88;

/// How far before the centre a vehicle entering from the east holds at red,
/// measured from its position.
pub const EAST_OFFSET: i64 = 88;

/// How far before the centre a vehicle entering from the south holds at red,
/// measured from its position.
pub const SOUTH_OFFSET: i64 = 60;

/// How far before the centre a vehicle entering from the west holds at red,
/// measured from its position.
pub const WEST_OFFSET: i64 = 60;

/// Distance from the centre line to the edge of the carriageway.
pub const LANE_SPACE: i32 = 60;

/// Side of the square that stands for a signal.
pub const LIGHT_SIZE: i32 = 50;

/// A vehicle this far outside the visible area is retired.
pub const MARGIN: i64 = 50;

/// A lane takes a new vehicle once every vehicle that travels in it is this
/// far from the place where vehicles enter it.
pub const SPAWN_CLEARANCE: i64 = 50;

/// Pixels that a new vehicle covers per step.
pub const CAR_SPEED: i32 = 2;

/// Largest magnitude of a coordinate, and largest speed, that a step accepts.
pub const COORD_LIMIT: i32 = 1_000_000_000;

/// A point of the plane, in pixels. `x` grows to the right and `y` downwards.
#[derive(PartialEq, Eq, Clone, Copy, Debug, Structural)]
pub struct Point {
    pub x: i32,
    pub y: i32,
}

impl Point {
    /// Both coordinates are small enough to be moved by one step.
    pub open spec fn in_range(self) -> bool {
        &&& -COORD_LIMIT <= self.x <= COORD_LIMIT
        &&& -COORD_LIMIT <= self.y <= COORD_LIMIT
    }

    /// The point with the given coordinates.
    pub fn new(x: i32, y: i32) -> (p: Point)
        ensures
            p.x == x,
            p.y == y,
    {
        Point { x, y }
    }
}

/// The colours that the simulation asks a renderer for.
#[derive(PartialEq, Eq, Clone, Copy, Debug, Structural)]
pub enum Paint {
    Red,
    Green,
    Yellow,
    Blue,
    Purple,
}

/// A filled rectangle for a renderer: top-left corner, size and colour.
#[derive(PartialEq, Eq, Clone, Copy, Debug, Structural)]
pub struct Sprite {
    pub pos: Point,
    pub size: Point,
    pub paint: Paint,
}

} // verus!

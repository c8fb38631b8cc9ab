//! Approach directions and the signals that govern them.

use vstd::prelude::*;
use crate::geometry::{Paint, Point, Sprite};
use crate::geometry::{CAR_SIZE, EAST_OFFSET, NORTH_OFFSET, SOUTH_OFFSET, WEST_OFFSET};

verus! {

/// What a signal shows. There is nothing between red and green: a signal
/// switches at once.
#[derive(PartialEq, Eq, Clone, Copy, Debug, Structural)]
pub enum LightState {
    Red,
    Green,
}

/// How a vehicle leaves the intersection relative to the way it came in.
#[derive(PartialEq, Eq, Clone, Copy, Debug, Structural)]
pub enum TurnKind {
    Straight,
    LeftTurn,
    RightTurn,
}

/// One of the four approaches. As a heading it names the lane a vehicle
/// travels in: `North` runs down the screen, `South` up, `East` to the right
/// and `West` to the left.
#[derive(PartialEq, Eq, Clone, Copy, Debug, Structural)]
pub enum Direction {
    North,
    West,
    South,
    East,
}

impl Direction {
    /// The heading after a right turn: North, East, South, West, North.
    pub open spec fn spec_turned_right(self) -> Direction {
        match self {
            Direction::North => Direction::East,
            Direction::East => Direction::South,
            Direction::South => Direction::West,
            Direction::West => Direction::North,
        }
    }

    #[verifier::when_used_as_spec(spec_turned_right)]
    pub fn turned_right(self) -> (d: Direction)
        ensures
            d == self.spec_turned_right(),
    {
        match self {
            Direction::North => Direction::East,
            Direction::East => Direction::South,
            Direction::South => Direction::West,
            Direction::West => Direction::North,
        }
    }

    /// The heading after a left turn: North, West, South, East, North.
    pub open spec fn spec_turned_left(self) -> Direction {
        match self {
            Direction::North => Direction::West,
            Direction::West => Direction::South,
            Direction::South => Direction::East,
            Direction::East => Direction::North,
        }
    }

    #[verifier::when_used_as_spec(spec_turned_left)]
    pub fn turned_left(self) -> (d: Direction)
        ensures
            d == self.spec_turned_left(),
    {
        match self {
            Direction::North => Direction::West,
            Direction::West => Direction::South,
            Direction::South => Direction::East,
            Direction::East => Direction::North,
        }
    }

    /// The heading on which a vehicle that came in by `self` leaves.
    pub open spec fn spec_destination(self, turn: TurnKind) -> Direction {
        match turn {
            TurnKind::Straight => self,
            TurnKind::LeftTurn => self.spec_turned_left(),
            TurnKind::RightTurn => self.spec_turned_right(),
        }
    }

    #[verifier::when_used_as_spec(spec_destination)]
    pub fn destination(self, turn: TurnKind) -> (d: Direction)
        ensures
            d == self.spec_destination(turn),
    {
        match turn {
            TurnKind::Straight => self,
            TurnKind::LeftTurn => self.turned_left(),
            TurnKind::RightTurn => self.turned_right(),
        }
    }

    /// The approach that gets the right of way after `self` in the fixed
    /// cycle North, West, South, East.
    pub open spec fn spec_next_in_cycle(self) -> Direction {
        self.spec_turned_left()
    }

    #[verifier::when_used_as_spec(spec_next_in_cycle)]
    pub fn next_in_cycle(self) -> (d: Direction)
        ensures
            d == self.spec_next_in_cycle(),
    {
        self.turned_left()
    }

    /// Place of this approach among the four signals, which stand in cycle
    /// order.
    pub open spec fn spec_signal_index(self) -> usize {
        match self {
            Direction::North => 0,
            Direction::West => 1,
            Direction::South => 2,
            Direction::East => 3,
        }
    }

    #[verifier::when_used_as_spec(spec_signal_index)]
    pub fn signal_index(self) -> (i: usize)
        ensures
            i == self.spec_signal_index(),
            i < 4,
    {
        match self {
            Direction::North => 0,
            Direction::West => 1,
            Direction::South => 2,
            Direction::East => 3,
        }
    }

    /// The approach whose signal stands at place `i`; places wrap round
    /// after four.
    pub open spec fn spec_from_signal_index(i: usize) -> Direction {
        if i % 4 == 0 {
            Direction::North
        } else if i % 4 == 1 {
            Direction::West
        } else if i % 4 == 2 {
            Direction::South
        } else {
            Direction::East
        }
    }

    #[verifier::when_used_as_spec(spec_from_signal_index)]
    pub fn from_signal_index(i: usize) -> (d: Direction)
        ensures
            d == Direction::spec_from_signal_index(i),
            i < 4 ==> d.spec_signal_index() == i,
    {
        let r: usize = i % 4;
        if r == 0 {
            Direction::North
        } else if r == 1 {
            Direction::West
        } else if r == 2 {
            Direction::South
        } else {
            Direction::East
        }
    }

    /// Place of this approach in a census: North, East, South, West.
    pub open spec fn spec_census_index(self) -> usize {
        match self {
            Direction::North => 0,
            Direction::East => 1,
            Direction::South => 2,
            Direction::West => 3,
        }
    }

    #[verifier::when_used_as_spec(spec_census_index)]
    pub fn census_index(self) -> (i: usize)
        ensures
            i == self.spec_census_index(),
            i < 4,
    {
        match self {
            Direction::North => 0,
            Direction::East => 1,
            Direction::South => 2,
            Direction::West => 3,
        }
    }

    /// The approach counted at place `i` of a census; places wrap round
    /// after four.
    pub open spec fn spec_from_census_index(i: usize) -> Direction {
        if i % 4 == 0 {
            Direction::North
        } else if i % 4 == 1 {
            Direction::East
        } else if i % 4 == 2 {
            Direction::South
        } else {
            Direction::West
        }
    }

    #[verifier::when_used_as_spec(spec_from_census_index)]
    pub fn from_census_index(i: usize) -> (d: Direction)
        ensures
            d == Direction::spec_from_census_index(i),
            i < 4 ==> d.spec_census_index() == i,
    {
        let r: usize = i % 4;
        if r == 0 {
            Direction::North
        } else if r == 1 {
            Direction::East
        } else if r == 2 {
            Direction::South
        } else {
            Direction::West
        }
    }

    /// Whether a vehicle on this heading moves along the `y` axis.
    pub open spec fn spec_is_vertical(self) -> bool {
        self == Direction::North || self == Direction::South
    }

    #[verifier::when_used_as_spec(spec_is_vertical)]
    pub fn is_vertical(self) -> (b: bool)
        ensures
            b == self.spec_is_vertical(),
    {
        match self {
            Direction::North => true,
            Direction::South => true,
            Direction::East => false,
            Direction::West => false,
        }
    }

    /// `1` where travel on this heading increases the coordinate, `-1` where
    /// it decreases it.
    pub open spec fn spec_sign(self) -> i64 {
        match self {
            Direction::North => 1i64,
            Direction::East => 1i64,
            Direction::South => -1i64,
            Direction::West => -1i64,
        }
    }

    #[verifier::when_used_as_spec(spec_sign)]
    pub fn sign(self) -> (s: i64)
        ensures
            s == self.spec_sign(),
    {
        match self {
            Direction::North => 1i64,
            Direction::East => 1i64,
            Direction::South => -1i64,
            Direction::West => -1i64,
        }
    }

    /// Distance travelled along this heading by a vehicle at `p`, from the
    /// origin of the plane.
    pub open spec fn spec_along(self, p: Point) -> int {
        match self {
            Direction::North => p.y as int,
            Direction::South => -(p.y as int),
            Direction::East => p.x as int,
            Direction::West => -(p.x as int),
        }
    }

    pub fn along(self, p: Point) -> (a: i64)
        ensures
            a == self.spec_along(p),
    {
        match self {
            Direction::North => p.y as i64,
            Direction::South => -(p.y as i64),
            Direction::East => p.x as i64,
            Direction::West => -(p.x as i64),
        }
    }

    /// The coordinate of `p` across this heading, which tells lanes apart.
    pub open spec fn spec_across(self, p: Point) -> int {
        if self.spec_is_vertical() {
            p.x as int
        } else {
            p.y as int
        }
    }

    pub fn across(self, p: Point) -> (a: i64)
        ensures
            a == self.spec_across(p),
    {
        match self {
            Direction::North => p.x as i64,
            Direction::South => p.x as i64,
            Direction::East => p.y as i64,
            Direction::West => p.y as i64,
        }
    }

    /// How far the leading edge of a vehicle at `p` has passed the centre
    /// while travelling on this heading; negative before the centre.
    pub open spec fn spec_progress(self, p: Point, center: Point) -> int {
        let lead = if self.spec_sign() > 0 {
            CAR_SIZE as int
        } else {
            0
        };
        self.spec_along(p) + lead - self.spec_along(center)
    }

    pub fn progress(self, p: Point, center: Point) -> (d: i64)
        ensures
            d == self.spec_progress(p, center),
    {
        let lead: i64 = if self.sign() > 0 {
            CAR_SIZE
        } else {
            0
        };
        self.along(p) + lead - self.along(center)
    }

    /// How far before the centre the leading edge of a vehicle on this
    /// heading holds at red.
    pub open spec fn spec_stop_line(self) -> i64 {
        match self {
            Direction::North => (NORTH_OFFSET - CAR_SIZE) as i64,
            Direction::East => (EAST_OFFSET - CAR_SIZE) as i64,
            Direction::South => SOUTH_OFFSET,
            Direction::West => WEST_OFFSET,
        }
    }

    #[verifier::when_used_as_spec(spec_stop_line)]
    pub fn stop_line(self) -> (d: i64)
        ensures
            d == self.spec_stop_line(),
            0 < d <= 100,
    {
        match self {
            Direction::North => NORTH_OFFSET - CAR_SIZE,
            Direction::East => EAST_OFFSET - CAR_SIZE,
            Direction::South => SOUTH_OFFSET,
            Direction::West => WEST_OFFSET,
        }
    }
}

/// How far past the centre the leading edge of a vehicle is when it takes up
/// its destination heading. A left turn starts at the centre line and a
/// right turn one vehicle length after it, whatever the approach: there the
/// vehicle stands in the lane of its destination.
pub open spec fn spec_turn_boundary(origin: Direction, turn: TurnKind) -> i64 {
    match turn {
        TurnKind::RightTurn => CAR_SIZE,
        _ => 0,
    }
}

#[verifier::when_used_as_spec(spec_turn_boundary)]
pub fn turn_boundary(origin: Direction, turn: TurnKind) -> (d: i64)
    ensures
        d == spec_turn_boundary(origin, turn),
{
    match turn {
        TurnKind::RightTurn => CAR_SIZE,
        _ => 0,
    }
}

/// Every right turn is undone by a left turn and the other way round, and
/// four turns to one side lead back to the heading one started on.
pub proof fn lemma_turns_are_rotations(d: Direction)
    ensures
        d.spec_turned_right().spec_turned_left() == d,
        d.spec_turned_left().spec_turned_right() == d,
        d.spec_turned_right() != d,
        d.spec_turned_left() != d,
        d.spec_turned_left() != d.spec_turned_right(),
        d.spec_turned_left().spec_turned_left().spec_turned_left().spec_turned_left() == d,
        d.spec_turned_right().spec_turned_right().spec_turned_right().spec_turned_right() == d,
{
}

/// The destination of every approach and turn, written out.
pub proof fn lemma_turn_table()
    ensures
        Direction::North.spec_destination(TurnKind::Straight) == Direction::North,
        Direction::West.spec_destination(TurnKind::Straight) == Direction::West,
        Direction::South.spec_destination(TurnKind::Straight) == Direction::South,
        Direction::East.spec_destination(TurnKind::Straight) == Direction::East,
        Direction::North.spec_destination(TurnKind::RightTurn) == Direction::East,
        Direction::East.spec_destination(TurnKind::RightTurn) == Direction::South,
        Direction::South.spec_destination(TurnKind::RightTurn) == Direction::West,
        Direction::West.spec_destination(TurnKind::RightTurn) == Direction::North,
        Direction::North.spec_destination(TurnKind::LeftTurn) == Direction::West,
        Direction::West.spec_destination(TurnKind::LeftTurn) == Direction::South,
        Direction::South.spec_destination(TurnKind::LeftTurn) == Direction::East,
        Direction::East.spec_destination(TurnKind::LeftTurn) == Direction::North,
{
}

/// The signal of one approach.
#[derive(PartialEq, Eq, Clone, Copy, Debug, Structural)]
pub struct TrafficLight {
    pub pos: Point,
    pub state: LightState,
    pub direction: Direction,
}

impl TrafficLight {
    /// A signal at `pos` for the approach `direction`, showing red.
    pub fn new(pos: Point, direction: Direction) -> (light: TrafficLight)
        ensures
            light == (TrafficLight { pos, state: LightState::Red, direction }),
    {
        TrafficLight { pos, state: LightState::Red, direction }
    }

    /// Makes the signal show `state`; it stays where it is and governs the
    /// approach it governed.
    pub fn set_state(&mut self, state: LightState)
        ensures
            *final(self) == (TrafficLight { state, ..*old(self) }),
    {
        self.state = state;
    }

    /// The rectangle that shows this signal: at its position, of the given
    /// size, green or red as its state is.
    pub fn draw(&self, size: Point) -> (sprite: Sprite)
        ensures
            sprite.pos == self.pos,
            sprite.size == size,
            sprite.paint == (match self.state {
                LightState::Green => Paint::Green,
                LightState::Red => Paint::Red,
            }),
    {
        let paint = match self.state {
            LightState::Green => Paint::Green,
            LightState::Red => Paint::Red,
        };
        Sprite { pos: self.pos, size, paint }
    }
}

/// Whether some signal in `lights` governs `heading` and shows red.
pub open spec fn shows_red(lights: Seq<TrafficLight>, heading: Direction) -> bool {
    exists|i: int|
        0 <= i < lights.len() && (#[trigger] lights[i]).direction == heading && lights[i].state
            == LightState::Red
}

/// Whether exactly one signal in `lights` shows green and every other one
/// red.
pub open spec fn exactly_one_green(lights: Seq<TrafficLight>) -> bool {
    exists|i: int|
        0 <= i < lights.len() && (#[trigger] lights[i]).state == LightState::Green && forall|
            j: int,
        |
            0 <= j < lights.len() && j != i ==> (#[trigger] lights[j]).state == LightState::Red
}

} // verus!

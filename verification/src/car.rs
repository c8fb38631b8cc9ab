//! Vehicles: how one is made, how it turns, yields and advances.

use vstd::prelude::*;
use crate::geometry::{Paint, Point, Sprite};
use crate::geometry::{CAR_SIZE, CAR_SPEED, COORD_LIMIT, MIN_DISTANCE};
use crate::random::random_below;
use crate::traffic_light::{shows_red, spec_turn_boundary, turn_boundary};
use crate::traffic_light::{Direction, LightState, TrafficLight, TurnKind};

verus! {

/// The colour of a vehicle, which also tells its turn: a yellow vehicle
/// turns right, a blue one goes straight on and a purple one turns left.
#[derive(PartialEq, Eq, Clone, Copy, Debug, Structural)]
pub enum CarColor {
    Yellow,
    Blue,
    Purple,
}

impl CarColor {
    /// The colour that a roll stands for: `0` yellow, `1` blue, anything
    /// else purple.
    pub open spec fn spec_from_roll(n: u32) -> CarColor {
        if n == 0 {
            CarColor::Yellow
        } else if n == 1 {
            CarColor::Blue
        } else {
            CarColor::Purple
        }
    }

    #[verifier::when_used_as_spec(spec_from_roll)]
    pub fn from_roll(n: u32) -> (c: CarColor)
        ensures
            c == CarColor::spec_from_roll(n),
    {
        match n {
            0 => CarColor::Yellow,
            1 => CarColor::Blue,
            _ => CarColor::Purple,
        }
    }

    /// A colour picked by one roll below three.
    pub fn random() -> (c: CarColor)
        ensures
            exists|n: u32| n < 3 && c == CarColor::spec_from_roll(n),
    {
        let n: u32 = random_below(3);
        CarColor::from_roll(n)
    }

    /// The colour a renderer paints this vehicle in.
    pub open spec fn spec_color(&self) -> Paint {
        match *self {
            CarColor::Yellow => Paint::Yellow,
            CarColor::Blue => Paint::Blue,
            CarColor::Purple => Paint::Purple,
        }
    }

    #[verifier::when_used_as_spec(spec_color)]
    pub fn color(&self) -> (p: Paint)
        ensures
            p == self.spec_color(),
    {
        match self {
            CarColor::Yellow => Paint::Yellow,
            CarColor::Blue => Paint::Blue,
            CarColor::Purple => Paint::Purple,
        }
    }

    /// The turn that a vehicle of this colour takes.
    pub open spec fn spec_turn_kind(self) -> TurnKind {
        match self {
            CarColor::Yellow => TurnKind::RightTurn,
            CarColor::Blue => TurnKind::Straight,
            CarColor::Purple => TurnKind::LeftTurn,
        }
    }

    #[verifier::when_used_as_spec(spec_turn_kind)]
    pub fn turn_kind(self) -> (t: TurnKind)
        ensures
            t == self.spec_turn_kind(),
    {
        match self {
            CarColor::Yellow => TurnKind::RightTurn,
            CarColor::Blue => TurnKind::Straight,
            CarColor::Purple => TurnKind::LeftTurn,
        }
    }
}

/// One vehicle. `start_direction` is the approach it entered by,
/// `end_direction` the heading it leaves on and `heading` the one it
/// travels on now. `position` is the top-left corner of its square.
#[derive(PartialEq, Eq, Clone, Copy, Debug, Structural)]
pub struct Car {
    pub start_direction: Direction,
    pub end_direction: Direction,
    pub color: CarColor,
    pub position: Point,
    pub speed: i32,
    pub heading: Direction,
}

impl Car {
    /// The vehicle moves, leaves on the heading that its turn gives, and
    /// travels on the heading it entered by or on the one it leaves on.
    pub open spec fn wf(self) -> bool {
        &&& 0 < self.speed <= COORD_LIMIT
        &&& self.end_direction == self.start_direction.spec_destination(
            self.color.spec_turn_kind(),
        )
        &&& (self.heading == self.start_direction || self.heading == self.end_direction)
    }

    /// The vehicle that enters by `start_direction` at `start_pos` with the
    /// given colour.
    pub open spec fn spec_with_color(
        start_direction: Direction,
        start_pos: Point,
        color: CarColor,
    ) -> Car {
        Car {
            start_direction,
            end_direction: start_direction.spec_destination(color.spec_turn_kind()),
            color,
            position: start_pos,
            speed: CAR_SPEED,
            heading: start_direction,
        }
    }

    #[verifier::when_used_as_spec(spec_with_color)]
    pub fn with_color(start_direction: Direction, start_pos: Point, color: CarColor) -> (car: Car)
        ensures
            car == Car::spec_with_color(start_direction, start_pos, color),
            car.wf(),
    {
        Car {
            start_direction,
            end_direction: start_direction.destination(color.turn_kind()),
            color,
            position: start_pos,
            speed: CAR_SPEED,
            heading: start_direction,
        }
    }

    /// A vehicle that enters by `start_direction` at `start_pos`, its colour
    /// and with it its turn picked by chance.
    pub fn new(start_direction: Direction, start_pos: Point) -> (car: Car)
        ensures
            car == Car::spec_with_color(start_direction, start_pos, car.color),
            car.wf(),
    {
        let color = CarColor::random();
        Car::with_color(start_direction, start_pos, color)
    }

    /// How far `other_pos` lies ahead of this vehicle on its heading;
    /// negative where it lies behind.
    pub open spec fn gap_to(self, other_pos: Point) -> int {
        self.heading.spec_along(other_pos) - self.heading.spec_along(self.position)
    }

    /// Whether `other_pos` lies ahead of this vehicle and closer than the
    /// following distance.
    pub open spec fn spec_is_ahead(self, other_pos: Point) -> bool {
        0 < self.gap_to(other_pos) < MIN_DISTANCE
    }

    pub fn is_ahead(&self, other_pos: &Point) -> (b: bool)
        ensures
            b == self.spec_is_ahead(*other_pos),
    {
        let gap: i64 = self.heading.along(*other_pos) - self.heading.along(self.position);
        0 < gap && gap < MIN_DISTANCE
    }

    /// Whether `other_pos` is less than a vehicle's width to the side of
    /// this vehicle's lane.
    pub open spec fn spec_is_in_same_lane(self, other_pos: Point) -> bool {
        -CAR_SIZE < self.heading.spec_across(other_pos) - self.heading.spec_across(self.position)
            < CAR_SIZE
    }

    pub fn is_in_same_lane(&self, other_pos: &Point) -> (b: bool)
        ensures
            b == self.spec_is_in_same_lane(*other_pos),
    {
        let side: i64 = self.heading.across(*other_pos) - self.heading.across(self.position);
        -CAR_SIZE < side && side < CAR_SIZE
    }

    /// Whether a vehicle at `other.0` on the heading `other.1` keeps this
    /// one from advancing: it travels on the same heading, in the same lane,
    /// ahead and closer than the following distance.
    pub open spec fn blocked_by(self, other: (Point, Direction)) -> bool {
        &&& other.1 == self.heading
        &&& self.spec_is_in_same_lane(other.0)
        &&& self.spec_is_ahead(other.0)
    }

    /// Whether none of `other_cars` keeps this vehicle from advancing.
    pub open spec fn spec_can_move(self, other_cars: Seq<(Point, Direction)>) -> bool {
        forall|i: int| 0 <= i < other_cars.len() ==> !self.blocked_by(#[trigger] other_cars[i])
    }

    pub fn can_move(&self, other_cars: &[(Point, Direction)]) -> (b: bool)
        ensures
            b == self.spec_can_move(other_cars@),
    {
        let mut i: usize = 0;
        while i < other_cars.len()
            invariant
                i <= other_cars.len(),
                forall|j: int| 0 <= j < i ==> !self.blocked_by(#[trigger] other_cars@[j]),
            decreases other_cars.len() - i,
        {
            let other_pos: Point = other_cars[i].0;
            let other_dir: Direction = other_cars[i].1;
            if other_dir == self.heading && self.is_in_same_lane(&other_pos) && self.is_ahead(
                &other_pos,
            ) {
                assert(self.blocked_by(other_cars@[i as int]));
                return false;
            }
            i += 1;
        }
        true
    }

    /// Whether the vehicle still travels on the heading it entered by and
    /// its leading edge has reached the place where its turn begins.
    pub open spec fn turn_due(self, center: Point) -> bool {
        &&& self.heading == self.start_direction
        &&& self.start_direction.spec_progress(self.position, center) >= spec_turn_boundary(
            self.start_direction,
            self.color.spec_turn_kind(),
        )
    }

    /// The vehicle once it has taken up its destination heading, if its turn
    /// is due.
    pub open spec fn after_turn(self, center: Point) -> Car {
        if self.turn_due(center) {
            Car { heading: self.end_direction, ..self }
        } else {
            self
        }
    }

    /// Whether this step would take the leading edge from before the stop
    /// line of the vehicle's heading to the line or past it.
    pub open spec fn reaches_stop_line(self, center: Point) -> bool {
        let p = self.heading.spec_progress(self.position, center);
        p < -self.heading.spec_stop_line() <= p + self.speed
    }

    /// Whether the vehicle is about to reach the stop line of its heading
    /// while the signal of that heading shows red.
    pub open spec fn held_at_signal(self, center: Point, lights: Seq<TrafficLight>) -> bool {
        self.reaches_stop_line(center) && shows_red(lights, self.heading)
    }

    /// The vehicle moved by its speed along its heading.
    pub open spec fn advanced(self) -> Car {
        let position = match self.heading {
            Direction::North => Point { x: self.position.x, y: (self.position.y + self.speed) as i32 },
            Direction::South => Point { x: self.position.x, y: (self.position.y - self.speed) as i32 },
            Direction::East => Point { x: (self.position.x + self.speed) as i32, y: self.position.y },
            Direction::West => Point { x: (self.position.x - self.speed) as i32, y: self.position.y },
        };
        Car { position, ..self }
    }

    /// The vehicle after one step: it takes up its destination heading if
    /// its turn is due; then it stays where it is if another vehicle is too
    /// close ahead or a red signal holds it, and advances otherwise.
    pub open spec fn stepped(
        self,
        center: Point,
        lights: Seq<TrafficLight>,
        other_cars: Seq<(Point, Direction)>,
    ) -> Car {
        let turned = self.after_turn(center);
        if !turned.spec_can_move(other_cars) || turned.held_at_signal(center, lights) {
            turned
        } else {
            turned.advanced()
        }
    }

    /// Advances the vehicle by one step. `other_cars` holds the position and
    /// heading of every other vehicle as the step begins.
    pub fn update(
        &mut self,
        center_x: i32,
        center_y: i32,
        lights: &Vec<TrafficLight>,
        other_cars: &[(Point, Direction)],
    )
        requires
            old(self).wf(),
            old(self).position.in_range(),
        ensures
            *final(self) == old(self).stepped(
                Point { x: center_x, y: center_y },
                lights@,
                other_cars@,
            ),
            final(self).wf(),
    {
        let center = Point { x: center_x, y: center_y };
        if self.heading == self.start_direction && self.start_direction.progress(
            self.position,
            center,
        ) >= turn_boundary(self.start_direction, self.color.turn_kind()) {
            self.heading = self.end_direction;
        }
        assert(*self == old(self).after_turn(center));
        if !self.can_move(other_cars) {
            return ;
        }
        let reach: i64 = self.heading.progress(self.position, center);
        let line: i64 = -self.heading.stop_line();
        if reach < line && reach + (self.speed as i64) >= line && signal_is_red(
            lights,
            self.heading,
        ) {
            return ;
        }
        match self.heading {
            Direction::North => {
                self.position.y = self.position.y + self.speed;
            },
            Direction::South => {
                self.position.y = self.position.y - self.speed;
            },
            Direction::East => {
                self.position.x = self.position.x + self.speed;
            },
            Direction::West => {
                self.position.x = self.position.x - self.speed;
            },
        }
    }

    /// The rectangle that shows this vehicle: at its position, of the given
    /// size, in its colour.
    pub fn draw(&self, size: Point) -> (sprite: Sprite)
        ensures
            sprite == (Sprite { pos: self.position, size, paint: self.color.color() }),
    {
        Sprite { pos: self.position, size, paint: self.color.color() }
    }
}

/// A step changes nothing about a vehicle but its position and its heading,
/// and the heading only from the one it entered by to the one it leaves on:
/// once a vehicle has turned it never turns back.
pub proof fn lemma_heading_flips_once(
    car: Car,
    center: Point,
    lights: Seq<TrafficLight>,
    other_cars: Seq<(Point, Direction)>,
)
    requires
        car.wf(),
    ensures
        ({
            let next = car.stepped(center, lights, other_cars);
            &&& next.wf()
            &&& next.start_direction == car.start_direction
            &&& next.end_direction == car.end_direction
            &&& next.color == car.color
            &&& next.speed == car.speed
            &&& (next.heading == car.heading || (car.heading == car.start_direction
                && next.heading == car.end_direction))
            &&& (car.heading != car.start_direction ==> next.heading == car.heading)
        }),
{
}

/// A vehicle that has another one ahead of it in its lane, closer than the
/// following distance, stays where it is; and a step never brings it
/// closer to a vehicle ahead in its lane than the following distance less
/// the length of the step. Headings and lanes are compared after the
/// vehicle has taken up its destination heading, if its turn was due.
pub proof fn lemma_keeps_following_distance(
    car: Car,
    center: Point,
    lights: Seq<TrafficLight>,
    other_cars: Seq<(Point, Direction)>,
    i: int,
)
    requires
        car.wf(),
        car.position.in_range(),
        0 <= i < other_cars.len(),
        other_cars[i].1 == car.after_turn(center).heading,
        car.after_turn(center).spec_is_in_same_lane(other_cars[i].0),
        car.after_turn(center).gap_to(other_cars[i].0) > 0,
    ensures
        ({
            let before = car.after_turn(center).gap_to(other_cars[i].0);
            let next = car.stepped(center, lights, other_cars);
            &&& next.spec_is_in_same_lane(other_cars[i].0)
            &&& before < MIN_DISTANCE ==> next.position == car.position
            &&& before >= MIN_DISTANCE ==> next.gap_to(other_cars[i].0) >= MIN_DISTANCE
                - car.speed
            &&& next.gap_to(other_cars[i].0) >= before - car.speed
        }),
{
    let turned = car.after_turn(center);
    if turned.gap_to(other_cars[i].0) < MIN_DISTANCE {
        assert(turned.blocked_by(other_cars[i]));
        assert(!turned.spec_can_move(other_cars));
    }
}

/// A vehicle in a lane where no other vehicle travels on its heading is not
/// kept from advancing by any of them.
pub proof fn lemma_other_lanes_never_block(car: Car, other_cars: Seq<(Point, Direction)>)
    requires
        forall|i: int|
            0 <= i < other_cars.len() ==> (#[trigger] other_cars[i]).1 != car.heading
                || !car.spec_is_in_same_lane(other_cars[i].0),
    ensures
        car.spec_can_move(other_cars),
{
}

/// A vehicle whose leading edge is before the stop line of its heading
/// while the signal of that heading shows red is still before the line
/// after the step.
pub proof fn lemma_red_signal_holds(
    car: Car,
    center: Point,
    lights: Seq<TrafficLight>,
    other_cars: Seq<(Point, Direction)>,
)
    requires
        car.wf(),
        car.position.in_range(),
        shows_red(lights, car.after_turn(center).heading),
        car.after_turn(center).heading.spec_progress(car.position, center) < -car.after_turn(
            center,
        ).heading.spec_stop_line(),
    ensures
        ({
            let next = car.stepped(center, lights, other_cars);
            next.heading.spec_progress(next.position, center) < -next.heading.spec_stop_line()
        }),
{
}

/// A vehicle that nothing holds moves by its speed along its heading and
/// not at all across it.
pub proof fn lemma_advance_moves_along_heading(car: Car)
    requires
        car.wf(),
        car.position.in_range(),
    ensures
        car.heading.spec_along(car.advanced().position) == car.heading.spec_along(car.position)
            + car.speed,
        car.heading.spec_across(car.advanced().position) == car.heading.spec_across(
            car.position,
        ),
{
}

/// Whether some signal in `lights` governs `heading` and shows red.
pub fn signal_is_red(lights: &Vec<TrafficLight>, heading: Direction) -> (b: bool)
    ensures
        b == shows_red(lights@, heading),
{
    let mut i: usize = 0;
    while i < lights.len()
        invariant
            i <= lights.len(),
            forall|j: int|
                0 <= j < i ==> !((#[trigger] lights@[j]).direction == heading && lights@[j].state
                    == LightState::Red),
        decreases lights.len() - i,
    {
        if lights[i].direction == heading && lights[i].state == LightState::Red {
            return true;
        }
        i += 1;
    }
    false
}

} // verus!

//! The signal controller: four signals of which one shows green, a fixed
//! cycle, and an early switch to the most congested approach.

use vstd::prelude::*;
use crate::car::Car;
use crate::geometry::{Point, COORD_LIMIT, LANE_SPACE, LIGHT_SIZE};
use crate::traffic_light::{exactly_one_green, shows_red, Direction, LightState, TrafficLight};
use crate::utils::{busiest_index, busiest_of, census, count_cars_by_direction, tally};

verus! {

/// The busiest approach takes the right of way early once it holds more
/// vehicles than the approach that shows green and this many on top.
pub const OVERRIDE_MARGIN: usize = 1;

/// What a controller is at one instant: the approach that shows green, the
/// time since the right of way last changed and the time since congestion
/// was last looked at.
pub struct SignalState {
    pub green: Direction,
    pub timer: nat,
    pub check_timer: nat,
}

/// Whether the busiest approach of `counts` holds more vehicles than
/// `green` by more than the margin.
pub open spec fn wants_override(green: Direction, counts: Seq<nat>) -> bool {
    counts[busiest_index(counts)] > counts[green.spec_census_index() as int] + OVERRIDE_MARGIN
}

impl SignalState {
    /// The state `dt` later, with `counts` the census at that time.
    ///
    /// Both timers run on by `dt`. Where the check timer has reached
    /// `check_interval` it starts again, and if the busiest approach then
    /// wants the right of way, it gets it and the cycle timer starts again.
    /// Otherwise, where the cycle timer has reached `green_duration`, the
    /// next approach of the cycle gets the right of way and the cycle timer
    /// starts again.
    pub open spec fn ticked(
        self,
        dt: nat,
        counts: Seq<nat>,
        green_duration: nat,
        check_interval: nat,
    ) -> SignalState {
        let timer = self.timer + dt;
        let check_timer = self.check_timer + dt;
        let check = check_timer >= check_interval;
        let fire = check && wants_override(self.green, counts);
        SignalState {
            green: if fire {
                Direction::spec_from_census_index(busiest_index(counts) as usize)
            } else if timer >= green_duration {
                self.green.spec_next_in_cycle()
            } else {
                self.green
            },
            timer: if fire || timer >= green_duration {
                0
            } else {
                timer
            },
            check_timer: if check {
                0
            } else {
                check_timer
            },
        }
    }
}

/// The four signals and the timers that drive them. The signals stand in
/// cycle order: north, west, south, east. Times are in milliseconds.
#[derive(Debug)]
pub struct SignalController {
    pub lights: Vec<TrafficLight>,
    pub current_green: usize,
    pub timer: u32,
    pub priority_check_timer: u32,
    pub green_duration: u32,
    pub check_interval: u32,
}

impl SignalController {
    /// There are four signals, one for each approach in cycle order; the
    /// one at `current_green` shows green and the others red; and neither
    /// timer has reached its limit.
    pub open spec fn wf(&self) -> bool {
        &&& self.lights@.len() == 4
        &&& self.current_green < 4
        &&& forall|i: int|
            0 <= i < 4 ==> (#[trigger] self.lights@[i]).direction
                == Direction::spec_from_signal_index(i as usize)
        &&& forall|i: int|
            0 <= i < 4 ==> ((#[trigger] self.lights@[i]).state == (if i == self.current_green {
                LightState::Green
            } else {
                LightState::Red
            }))
        &&& self.timer < self.green_duration
        &&& self.priority_check_timer < self.check_interval
    }

    /// The controller at this instant, without the places of its signals.
    pub open spec fn view(&self) -> SignalState {
        SignalState {
            green: Direction::spec_from_signal_index(self.current_green),
            timer: self.timer as nat,
            check_timer: self.priority_check_timer as nat,
        }
    }

    /// Whether `other` has the same durations and its signals stand at the
    /// same places as the signals of `self`.
    pub open spec fn same_installation(&self, other: &SignalController) -> bool {
        &&& self.green_duration == other.green_duration
        &&& self.check_interval == other.check_interval
        &&& self.lights@.len() == other.lights@.len()
        &&& forall|i: int|
            0 <= i < self.lights@.len() ==> (#[trigger] self.lights@[i]).pos == other.lights@[i].pos
    }

    /// The places of the four signals round the centre, in cycle order.
    pub open spec fn light_positions(center_x: i32, center_y: i32) -> Seq<Point> {
        seq![
            Point {
                x: (center_x - LANE_SPACE - LIGHT_SIZE) as i32,
                y: (center_y - LIGHT_SIZE - LANE_SPACE) as i32,
            },
            Point {
                x: (center_x + LANE_SPACE) as i32,
                y: (center_y - LANE_SPACE - LIGHT_SIZE) as i32,
            },
            Point { x: (center_x + LANE_SPACE) as i32, y: (center_y + LANE_SPACE) as i32 },
            Point {
                x: (center_x - LANE_SPACE - LIGHT_SIZE) as i32,
                y: (center_y + LANE_SPACE) as i32,
            },
        ]
    }

    /// A controller for the intersection centred at the given point, with
    /// north showing green and both timers at zero.
    pub fn new(center_x: i32, center_y: i32, green_duration: u32, check_interval: u32) -> (c:
        SignalController)
        requires
            green_duration > 0,
            check_interval > 0,
            -COORD_LIMIT <= center_x <= COORD_LIMIT,
            -COORD_LIMIT <= center_y <= COORD_LIMIT,
        ensures
            c.wf(),
            c@ == (SignalState { green: Direction::North, timer: 0, check_timer: 0 }),
            c.green_duration == green_duration,
            c.check_interval == check_interval,
            c.lights@.map_values(|l: TrafficLight| l.pos) == SignalController::light_positions(
                center_x,
                center_y,
            ),
            exactly_one_green(c.lights@),
    {
        let mut north = TrafficLight::new(
            Point { x: center_x - LANE_SPACE - LIGHT_SIZE, y: center_y - LIGHT_SIZE - LANE_SPACE },
            Direction::North,
        );
        north.set_state(LightState::Green);
        let west = TrafficLight::new(
            Point { x: center_x + LANE_SPACE, y: center_y - LANE_SPACE - LIGHT_SIZE },
            Direction::West,
        );
        let south = TrafficLight::new(
            Point { x: center_x + LANE_SPACE, y: center_y + LANE_SPACE },
            Direction::South,
        );
        let east = TrafficLight::new(
            Point { x: center_x - LANE_SPACE - LIGHT_SIZE, y: center_y + LANE_SPACE },
            Direction::East,
        );
        let mut lights: Vec<TrafficLight> = Vec::new();
        lights.push(north);
        lights.push(west);
        lights.push(south);
        lights.push(east);
        let c = SignalController {
            lights,
            current_green: 0,
            timer: 0,
            priority_check_timer: 0,
            green_duration,
            check_interval,
        };
        proof {
            assert(c.lights@.map_values(|l: TrafficLight| l.pos)
                =~= SignalController::light_positions(center_x, center_y));
            lemma_one_green(&c);
        }
        c
    }

    /// The approach that shows green.
    pub fn green(&self) -> (d: Direction)
        requires
            self.wf(),
        ensures
            d == self@.green,
            d.spec_signal_index() == self.current_green,
    {
        Direction::from_signal_index(self.current_green)
    }

    /// What the signal of `direction` shows.
    pub fn state_of(&self, direction: Direction) -> (state: LightState)
        requires
            self.wf(),
        ensures
            state == self.lights@[direction.spec_signal_index() as int].state,
            state == LightState::Green <==> direction == self@.green,
    {
        self.lights[direction.signal_index()].state
    }

    /// Gives `direction` the right of way: its signal shows green and every
    /// other one red. The timers run on.
    pub fn switch_to(&mut self, direction: Direction)
        requires
            old(self).wf(),
        ensures
            final(self).wf(),
            final(self)@ == (SignalState { green: direction, ..old(self)@ }),
            final(self).same_installation(old(self)),
            exactly_one_green(final(self).lights@),
    {
        let from: usize = self.current_green;
        let to: usize = direction.signal_index();
        self.lights[from].set_state(LightState::Red);
        self.current_green = to;
        self.lights[to].set_state(LightState::Green);
        proof {
            lemma_one_green(self);
        }
    }

    /// Looks at the census `counts` and gives the busiest approach the
    /// right of way if it wants it; the cycle timer then starts again.
    /// Says whether it did.
    pub fn maybe_override(&mut self, counts: &[usize; 4]) -> (fired: bool)
        requires
            old(self).wf(),
        ensures
            final(self).wf(),
            fired == wants_override(old(self)@.green, tally(counts@)),
            fired ==> final(self)@ == (SignalState {
                green: Direction::spec_from_census_index(busiest_index(tally(counts@)) as usize),
                timer: 0,
                check_timer: old(self)@.check_timer,
            }),
            !fired ==> final(self)@ == old(self)@,
            final(self).same_installation(old(self)),
            exactly_one_green(final(self).lights@),
    {
        let busiest: usize = busiest_of(counts);
        let busiest_count: usize = counts[busiest];
        let current_count: usize = counts[self.green().census_index()];
        proof {
            lemma_one_green(self);
        }
        if busiest_count > current_count && busiest_count - current_count > OVERRIDE_MARGIN {
            self.switch_to(Direction::from_census_index(busiest));
            self.timer = 0;
            true
        } else {
            false
        }
    }

    /// Gives the next approach of the cycle the right of way and starts the
    /// cycle timer again.
    pub fn advance_cycle(&mut self)
        requires
            old(self).wf(),
        ensures
            final(self).wf(),
            final(self)@ == (SignalState {
                green: old(self)@.green.spec_next_in_cycle(),
                timer: 0,
                check_timer: old(self)@.check_timer,
            }),
            final(self).same_installation(old(self)),
            exactly_one_green(final(self).lights@),
    {
        let next = self.green().next_in_cycle();
        self.switch_to(next);
        self.timer = 0;
    }

    /// Lets `dt` milliseconds pass, with `cars` the vehicles on the road.
    pub fn tick(&mut self, dt: u32, cars: &Vec<Car>)
        requires
            old(self).wf(),
        ensures
            final(self).wf(),
            final(self)@ == old(self)@.ticked(
                dt as nat,
                census(cars@),
                old(self).green_duration as nat,
                old(self).check_interval as nat,
            ),
            final(self).same_installation(old(self)),
            exactly_one_green(final(self).lights@),
    {
        let timer: u64 = self.timer as u64 + dt as u64;
        let check_timer: u64 = self.priority_check_timer as u64 + dt as u64;
        let cycle_due: bool = timer >= self.green_duration as u64;
        let mut fired: bool = false;
        if check_timer >= self.check_interval as u64 {
            self.priority_check_timer = 0;
            let counts = count_cars_by_direction(cars);
            fired = self.maybe_override(&counts);
        } else {
            self.priority_check_timer = check_timer as u32;
        }
        if !fired {
            if cycle_due {
                self.advance_cycle();
            } else {
                self.timer = timer as u32;
            }
        }
        proof {
            lemma_one_green(self);
        }
    }
}

/// A controller in good order shows exactly one green signal.
pub proof fn lemma_one_green(c: &SignalController)
    requires
        c.wf(),
    ensures
        exactly_one_green(c.lights@),
{
    let g = c.current_green as int;
    assert(c.lights@[g].state == LightState::Green);
    assert forall|j: int| 0 <= j < c.lights@.len() && j != g implies (#[trigger] c.lights@[j]).state
        == LightState::Red by {}
}

/// In a controller in good order every approach but the one that has the
/// right of way is shown red.
pub proof fn lemma_red_unless_green(c: &SignalController, heading: Direction)
    requires
        c.wf(),
    ensures
        shows_red(c.lights@, heading) <==> heading != c@.green,
{
    let k = heading.spec_signal_index() as int;
    assert(c.lights@[k].direction == heading);
    if heading != c@.green {
        assert(c.lights@[k].state == LightState::Red);
    } else {
        assert forall|i: int| 0 <= i < c.lights@.len() implies !((#[trigger] c.lights@[i]).direction
            == heading && c.lights@[i].state == LightState::Red) by {}
    }
}

} // verus!

//! The simulation loop: one step takes in new vehicles, lets the signals
//! run, moves every vehicle and retires those that have left.

use vstd::prelude::*;
use crate::car::{Car, CarColor};
use crate::controller::SignalController;
use crate::car::{lemma_advance_moves_along_heading, lemma_keeps_following_distance};
use crate::car::{lemma_heading_flips_once, lemma_red_signal_holds};
use crate::controller::lemma_red_unless_green;
use crate::geometry::{Point, CAR_SIZE, COORD_LIMIT, MARGIN, MIN_DISTANCE};
use crate::random::random_below;
use crate::traffic_light::{exactly_one_green, Direction, TrafficLight};
use crate::utils::{census, count_from, is_lane_full, lane_full};

verus! {

/// What a simulation is set up with: the size of the visible area in
/// pixels and the durations in milliseconds.
#[derive(PartialEq, Eq, Clone, Copy, Debug, Structural)]
pub struct Config {
    pub width: i32,
    pub height: i32,
    /// How long an approach keeps the right of way in the fixed cycle.
    pub green_duration: u32,
    /// How often congestion is looked at.
    pub check_interval: u32,
    /// How long after a vehicle has entered no other one is taken in.
    pub spawn_interval: u32,
    /// How much time one step of the simulation stands for.
    pub time_step: u32,
}

impl Config {
    /// The area is not empty and small enough for every place in it and
    /// round it to be a coordinate, and both durations of the signals are
    /// positive.
    pub open spec fn valid(self) -> bool {
        &&& 0 < self.width <= COORD_LIMIT - MARGIN
        &&& 0 < self.height <= COORD_LIMIT - MARGIN
        &&& self.green_duration > 0
        &&& self.check_interval > 0
    }

    pub fn is_valid(&self) -> (b: bool)
        ensures
            b == self.valid(),
    {
        0 < self.width && self.width as i64 <= COORD_LIMIT as i64 - MARGIN && 0 < self.height
            && self.height as i64 <= COORD_LIMIT as i64 - MARGIN && self.green_duration > 0
            && self.check_interval > 0
    }

    /// An area of the given size with the usual durations: three seconds
    /// of green, a look at congestion every second, four tenths of a second
    /// between two vehicles and fifty steps to the second.
    pub fn standard(width: i32, height: i32) -> (config: Config)
        ensures
            config == (Config {
                width,
                height,
                green_duration: 3000,
                check_interval: 1000,
                spawn_interval: 400,
                time_step: 20,
            }),
    {
        Config {
            width,
            height,
            green_duration: 3000,
            check_interval: 1000,
            spawn_interval: 400,
            time_step: 20,
        }
    }

    /// The centre of the intersection: the middle of the area.
    pub open spec fn spec_center(self) -> Point {
        Point { x: (self.width / 2) as i32, y: (self.height / 2) as i32 }
    }

    #[verifier::when_used_as_spec(spec_center)]
    pub fn center(self) -> (p: Point)
        requires
            self.valid(),
        ensures
            p == self.spec_center(),
            p.in_range(),
    {
        Point { x: self.width / 2, y: self.height / 2 }
    }

    /// Where a vehicle that enters by `direction` starts: at the edge of
    /// the area, in the lane of that approach.
    pub open spec fn spec_spawn_point(self, direction: Direction) -> Point {
        let c = self.spec_center();
        match direction {
            Direction::North => Point { x: (c.x - CAR_SIZE) as i32, y: 0 },
            Direction::South => Point { x: c.x, y: self.height },
            Direction::East => Point { x: 0, y: c.y },
            Direction::West => Point { x: self.width, y: (c.y - CAR_SIZE) as i32 },
        }
    }

    #[verifier::when_used_as_spec(spec_spawn_point)]
    pub fn spawn_point(self, direction: Direction) -> (p: Point)
        requires
            self.valid(),
        ensures
            p == self.spec_spawn_point(direction),
            p.in_range(),
    {
        let c = self.center();
        match direction {
            Direction::North => Point { x: c.x - (CAR_SIZE as i32), y: 0 },
            Direction::South => Point { x: c.x, y: self.height },
            Direction::East => Point { x: 0, y: c.y },
            Direction::West => Point { x: self.width, y: c.y - (CAR_SIZE as i32) },
        }
    }

    /// Whether `p` lies in the area or less than the margin outside it.
    pub open spec fn spec_in_bounds(self, p: Point) -> bool {
        &&& -MARGIN < p.x < self.width + MARGIN
        &&& -MARGIN < p.y < self.height + MARGIN
    }

    #[verifier::when_used_as_spec(spec_in_bounds)]
    pub fn in_bounds(self, p: Point) -> (b: bool)
        ensures
            b == self.spec_in_bounds(p),
    {
        let x: i64 = p.x as i64;
        let y: i64 = p.y as i64;
        -MARGIN < x && x < self.width as i64 + MARGIN && -MARGIN < y && y < self.height as i64
            + MARGIN
    }
}

/// What was asked for since the last step: a vehicle from an approach, a
/// vehicle from an approach picked by chance, or the end of the simulation.
#[derive(PartialEq, Eq, Clone, Copy, Debug, Structural)]
pub struct Input {
    pub north: bool,
    pub west: bool,
    pub south: bool,
    pub east: bool,
    pub random: bool,
    pub stop: bool,
}

impl Input {
    /// Nothing was asked for.
    pub fn none() -> (input: Input)
        ensures
            input == (Input {
                north: false,
                west: false,
                south: false,
                east: false,
                random: false,
                stop: false,
            }),
    {
        Input { north: false, west: false, south: false, east: false, random: false, stop: false }
    }

    /// Whether a vehicle from `direction` was asked for.
    pub open spec fn spec_wants(self, direction: Direction) -> bool {
        match direction {
            Direction::North => self.north,
            Direction::West => self.west,
            Direction::South => self.south,
            Direction::East => self.east,
        }
    }

    #[verifier::when_used_as_spec(spec_wants)]
    pub fn wants(self, direction: Direction) -> (b: bool)
        ensures
            b == self.spec_wants(direction),
    {
        match direction {
            Direction::North => self.north,
            Direction::West => self.west,
            Direction::South => self.south,
            Direction::East => self.east,
        }
    }
}

/// What chance decides in one step: the colour of the vehicle that each
/// approach would take in, and the approach and colour of the vehicle that
/// enters where none was named.
#[derive(PartialEq, Eq, Clone, Copy, Debug, Structural)]
pub struct Draws {
    pub north: CarColor,
    pub west: CarColor,
    pub south: CarColor,
    pub east: CarColor,
    pub random_origin: Direction,
    pub random_color: CarColor,
}

impl Draws {
    /// The colour drawn for a vehicle from `direction`.
    pub open spec fn spec_color_for(self, direction: Direction) -> CarColor {
        match direction {
            Direction::North => self.north,
            Direction::West => self.west,
            Direction::South => self.south,
            Direction::East => self.east,
        }
    }

    #[verifier::when_used_as_spec(spec_color_for)]
    pub fn color_for(self, direction: Direction) -> (c: CarColor)
        ensures
            c == self.spec_color_for(direction),
    {
        match direction {
            Direction::North => self.north,
            Direction::West => self.west,
            Direction::South => self.south,
            Direction::East => self.east,
        }
    }

    /// Draws everything by chance: six rolls, and what they stand for.
    pub fn random() -> (draws: Draws)
        ensures
            exists|north: u32, west: u32, south: u32, east: u32, origin: u32, color: u32|
                north < 3 && west < 3 && south < 3 && east < 3 && origin < 4 && color < 3
                    && draws == #[trigger] Draws::spec_from_rolls(
                    north,
                    west,
                    south,
                    east,
                    origin,
                    color,
                ),
    {
        let north: u32 = random_below(3);
        let west: u32 = random_below(3);
        let south: u32 = random_below(3);
        let east: u32 = random_below(3);
        let origin: u32 = random_below(4);
        let color: u32 = random_below(3);
        Draws::from_rolls(north, west, south, east, origin, color)
    }

    /// What six rolls stand for: a colour for each approach, as
    /// [`CarColor::from_roll`] reads a roll; the approach of the vehicle
    /// that enters where none was named, which is the one whose signal
    /// stands at the place `origin`; and the colour of that vehicle.
    pub open spec fn spec_from_rolls(
        north: u32,
        west: u32,
        south: u32,
        east: u32,
        origin: u32,
        color: u32,
    ) -> Draws {
        Draws {
            north: CarColor::spec_from_roll(north),
            west: CarColor::spec_from_roll(west),
            south: CarColor::spec_from_roll(south),
            east: CarColor::spec_from_roll(east),
            random_origin: Direction::spec_from_signal_index(origin as usize),
            random_color: CarColor::spec_from_roll(color),
        }
    }

    #[verifier::when_used_as_spec(spec_from_rolls)]
    pub fn from_rolls(north: u32, west: u32, south: u32, east: u32, origin: u32, color: u32) -> (draws:
        Draws)
        ensures
            draws == Draws::spec_from_rolls(north, west, south, east, origin, color),
    {
        Draws {
            north: CarColor::from_roll(north),
            west: CarColor::from_roll(west),
            south: CarColor::from_roll(south),
            east: CarColor::from_roll(east),
            random_origin: Direction::from_signal_index(origin as usize),
            random_color: CarColor::from_roll(color),
        }
    }
}

/// `cars` after a request for a vehicle from `direction`: the vehicle is
/// taken in at the end unless the lane of `direction` is full.
pub open spec fn spawned_into(
    cars: Seq<Car>,
    config: Config,
    wanted: bool,
    direction: Direction,
    color: CarColor,
) -> Seq<Car> {
    let start = config.spec_spawn_point(direction);
    if wanted && !lane_full(cars, direction, start) {
        cars.push(Car::spec_with_color(direction, start, color))
    } else {
        cars
    }
}

/// The position and heading of every vehicle, as the others see them.
pub open spec fn snapshot(cars: Seq<Car>) -> Seq<(Point, Direction)> {
    Seq::new(cars.len(), |i: int| (cars[i].position, cars[i].heading))
}

/// Every vehicle of `cars` after one step, each one stepping against the
/// signals `lights` and against all the others as they stood before any of
/// them moved.
pub open spec fn step_all(cars: Seq<Car>, center: Point, lights: Seq<TrafficLight>) -> Seq<Car> {
    Seq::new(cars.len(), |i: int| cars[i].stepped(center, lights, snapshot(cars).remove(i)))
}

/// The test that keeps a vehicle on the road: its position lies in the
/// area or less than the margin outside it.
pub open spec fn on_the_road(config: Config) -> spec_fn(Car) -> bool {
    |car: Car| config.spec_in_bounds(car.position)
}

/// Every vehicle of `cars` can take a step.
pub open spec fn all_fit(cars: Seq<Car>) -> bool {
    forall|i: int| 0 <= i < cars.len() ==> (#[trigger] cars[i]).wf() && cars[i].position.in_range()
}

/// The position and heading of every vehicle of `cars`.
pub fn take_snapshot(cars: &Vec<Car>) -> (seen: Vec<(Point, Direction)>)
    ensures
        seen@ == snapshot(cars@),
{
    let mut seen: Vec<(Point, Direction)> = Vec::new();
    let mut i: usize = 0;
    while i < cars.len()
        invariant
            i <= cars.len(),
            seen@.len() == i,
            forall|j: int| 0 <= j < i ==> seen@[j] == (cars@[j].position, cars@[j].heading),
        decreases cars.len() - i,
    {
        seen.push((cars[i].position, cars[i].heading));
        i += 1;
    }
    assert(seen@ =~= snapshot(cars@));
    seen
}

/// `seen` without the entry at `idx`.
pub fn others_of(seen: &Vec<(Point, Direction)>, idx: usize) -> (others: Vec<(Point, Direction)>)
    requires
        idx < seen.len(),
    ensures
        others@ == seen@.remove(idx as int),
{
    let mut others: Vec<(Point, Direction)> = Vec::new();
    let mut j: usize = 0;
    while j < seen.len()
        invariant
            j <= seen.len(),
            idx < seen.len(),
            j <= idx ==> others@ == seen@.take(j as int),
            j > idx ==> others@ == seen@.take(j as int).remove(idx as int),
        decreases seen.len() - j,
    {
        if j != idx {
            others.push(seen[j]);
        }
        proof {
            let next = seen@.take(j + 1);
            if j < idx {
                assert(others@ =~= next);
            } else if j == idx {
                assert(others@ =~= next.remove(idx as int));
            } else {
                assert(others@ =~= next.remove(idx as int));
            }
        }
        j += 1;
    }
    assert(seen@.take(j as int) == seen@);
    others
}

/// Lets every vehicle take one step against the signals `lights`. Each one
/// sees the others where they stood before any of them moved, so the order
/// in which they step makes no difference.
pub fn step_cars(cars: &mut Vec<Car>, center_x: i32, center_y: i32, lights: &Vec<TrafficLight>)
    requires
        all_fit(old(cars)@),
    ensures
        final(cars)@ == step_all(old(cars)@, Point { x: center_x, y: center_y }, lights@),
        forall|i: int| 0 <= i < final(cars)@.len() ==> (#[trigger] final(cars)@[i]).wf(),
{
    let ghost before = cars@;
    let ghost center = Point { x: center_x, y: center_y };
    let seen = take_snapshot(cars);
    let mut idx: usize = 0;
    while idx < cars.len()
        invariant
            idx <= cars.len(),
            cars@.len() == before.len(),
            seen@ == snapshot(before),
            all_fit(before),
            center == (Point { x: center_x, y: center_y }),
            forall|j: int|
                0 <= j < idx ==> cars@[j] == (#[trigger] before[j]).stepped(
                    center,
                    lights@,
                    seen@.remove(j),
                ),
            forall|j: int| idx <= j < cars@.len() ==> cars@[j] == before[j],
        decreases cars.len() - idx,
    {
        let others = others_of(&seen, idx);
        let mut car: Car = cars[idx];
        assert(car == before[idx as int]);
        car.update(center_x, center_y, lights, others.as_slice());
        cars[idx] = car;
        idx += 1;
    }
    proof {
        assert(cars@ =~= step_all(before, center, lights@));
    }
}

/// Retires every vehicle whose position lies the margin or more outside
/// the area. Those that stay keep their order.
pub fn evict_out_of_bounds(cars: &mut Vec<Car>, config: Config)
    ensures
        final(cars)@ == old(cars)@.filter(on_the_road(config)),
        forall|i: int|
            0 <= i < final(cars)@.len() ==> config.spec_in_bounds(
                (#[trigger] final(cars)@[i]).position,
            ) && old(cars)@.contains(final(cars)@[i]),
{
    let mut kept: Vec<Car> = Vec::new();
    let mut i: usize = 0;
    while i < cars.len()
        invariant
            i <= cars.len(),
            kept@ == cars@.take(i as int).filter(on_the_road(config)),
        decreases cars.len() - i,
    {
        proof {
            reveal(Seq::filter);
            assert(cars@.take(i + 1).drop_last() == cars@.take(i as int));
        }
        let car: Car = cars[i];
        if config.in_bounds(car.position) {
            kept.push(car);
        }
        i += 1;
    }
    proof {
        assert(cars@.take(i as int) == cars@);
        assert forall|k: int| 0 <= k < kept@.len() implies config.spec_in_bounds(
            (#[trigger] kept@[k]).position,
        ) && cars@.contains(kept@[k]) by {
            cars@.lemma_filter_pred(on_the_road(config), k);
            assert(kept@.contains(kept@[k]));
            cars@.lemma_filter_contains_rev(on_the_road(config), kept@[k]);
        }
    }
    *cars = kept;
}

/// The whole simulation: the set-up, the signals, the vehicles on the road
/// and the time since a vehicle last entered, which stops counting once it
/// has reached the interval between two vehicles.
#[derive(Debug)]
pub struct Simulation {
    pub config: Config,
    pub signals: SignalController,
    pub cars: Vec<Car>,
    pub click: u32,
}

impl Simulation {
    /// The set-up is valid, the signals are in good order and run on the
    /// durations of the set-up, and every vehicle can take a step.
    pub open spec fn wf(&self) -> bool {
        &&& self.config.valid()
        &&& self.signals.wf()
        &&& self.signals.green_duration == self.config.green_duration
        &&& self.signals.check_interval == self.config.check_interval
        &&& all_fit(self.cars@)
        &&& self.click <= self.config.spawn_interval
    }

    /// An empty road with north showing green.
    pub fn new(config: Config) -> (sim: Simulation)
        requires
            config.valid(),
        ensures
            sim.wf(),
            sim.config == config,
            sim.cars@ == Seq::<Car>::empty(),
            sim.click == 0,
            sim.signals@ == (crate::controller::SignalState {
                green: Direction::North,
                timer: 0,
                check_timer: 0,
            }),
            sim.signals.lights@.map_values(|l: TrafficLight| l.pos)
                == SignalController::light_positions(config.spec_center().x, config.spec_center().y),
            exactly_one_green(sim.signals.lights@),
    {
        let center = config.center();
        Simulation {
            config,
            signals: SignalController::new(
                center.x,
                center.y,
                config.green_duration,
                config.check_interval,
            ),
            cars: Vec::new(),
            click: 0,
        }
    }

    /// Whether enough time has passed since a vehicle last entered for
    /// requests to be heard.
    pub open spec fn gate_open(&self) -> bool {
        self.click >= self.config.spawn_interval
    }

    /// Takes in a vehicle of the given colour from `direction` unless the
    /// lane of that approach is full, and says whether it did. A vehicle
    /// that enters sets the time since the last one back to zero.
    pub fn request_spawn(&mut self, direction: Direction, color: CarColor) -> (spawned: bool)
        requires
            old(self).wf(),
        ensures
            final(self).wf(),
            spawned == !lane_full(
                old(self).cars@,
                direction,
                old(self).config.spec_spawn_point(direction),
            ),
            final(self).cars@ == spawned_into(
                old(self).cars@,
                old(self).config,
                true,
                direction,
                color,
            ),
            !spawned ==> final(self).cars@ == old(self).cars@,
            final(self).click == (if spawned {
                0
            } else {
                old(self).click
            }),
            final(self).config == old(self).config,
            final(self).signals == old(self).signals,
    {
        let start = self.config.spawn_point(direction);
        if is_lane_full(&self.cars, direction, start) {
            false
        } else {
            self.cars.push(Car::with_color(direction, start, color));
            self.click = 0;
            true
        }
    }

    /// The vehicles once the four approaches have been heard, in the order
    /// south, north, east, west.
    pub open spec fn directed_arrivals(&self, input: Input, draws: Draws) -> Seq<Car> {
        let open = self.gate_open();
        let south = spawned_into(
            self.cars@,
            self.config,
            open && input.south,
            Direction::South,
            draws.south,
        );
        let north = spawned_into(
            south,
            self.config,
            open && input.north,
            Direction::North,
            draws.north,
        );
        let east = spawned_into(
            north,
            self.config,
            open && input.east,
            Direction::East,
            draws.east,
        );
        spawned_into(east, self.config, open && input.west, Direction::West, draws.west)
    }

    /// Whether the end of the simulation is asked for and heard.
    pub open spec fn stops(&self, input: Input) -> bool {
        self.gate_open() && input.stop
    }

    /// The vehicles once every request has been heard. The end of the
    /// simulation comes before the vehicle from an approach picked by
    /// chance.
    pub open spec fn arrivals(&self, input: Input, draws: Draws) -> Seq<Car> {
        let directed = self.directed_arrivals(input, draws);
        if self.stops(input) {
            directed
        } else {
            spawned_into(
                directed,
                self.config,
                self.gate_open() && input.random,
                draws.random_origin,
                draws.random_color,
            )
        }
    }

    /// The time since a vehicle last entered, as it stands after a step: a
    /// vehicle that enters sets it back to zero, and unless the simulation
    /// ends it then runs on by the time step, up to the interval between
    /// two vehicles.
    pub open spec fn click_after(&self, input: Input, draws: Draws) -> int {
        let heard: int = if self.arrivals(input, draws).len() > self.cars@.len() {
            0
        } else {
            self.click as int
        };
        if self.stops(input) {
            heard
        } else if heard + self.config.time_step >= self.config.spawn_interval {
            self.config.spawn_interval as int
        } else {
            heard + self.config.time_step
        }
    }

    /// Whether `next` is what one time step makes of `self` without any
    /// request: the signals run on by the time step, with the census of the
    /// vehicles; then every vehicle steps against the new signals; then
    /// those that have left are retired.
    pub open spec fn advances_to(&self, next: &Simulation) -> bool {
        &&& next.config == self.config
        &&& next.click == self.click
        &&& next.signals.same_installation(&self.signals)
        &&& next.signals@ == self.signals@.ticked(
            self.config.time_step as nat,
            census(self.cars@),
            self.config.green_duration as nat,
            self.config.check_interval as nat,
        )
        &&& next.cars@ == step_all(
            self.cars@,
            self.config.spec_center(),
            next.signals.lights@,
        ).filter(on_the_road(self.config))
    }

    /// Lets one time step pass without any request.
    pub fn advance(&mut self)
        requires
            old(self).wf(),
        ensures
            final(self).wf(),
            old(self).advances_to(final(self)),
            exactly_one_green(final(self).signals.lights@),
            forall|i: int|
                0 <= i < final(self).cars@.len() ==> final(self).config.spec_in_bounds(
                    (#[trigger] final(self).cars@[i]).position,
                ),
    {
        let center = self.config.center();
        self.signals.tick(self.config.time_step, &self.cars);
        step_cars(&mut self.cars, center.x, center.y, &self.signals.lights);
        let ghost moved = self.cars@;
        evict_out_of_bounds(&mut self.cars, self.config);
        proof {
            assert forall|i: int| 0 <= i < self.cars@.len() implies (#[trigger] self.cars@[i]).wf()
                && self.cars@[i].position.in_range() by {
                let car = self.cars@[i];
                assert(moved.contains(car));
                let k = choose|k: int| 0 <= k < moved.len() && moved[k] == car;
                assert(moved[k].wf());
            }
        }
    }
}

impl Simulation {
    /// Whether `next` and `running` are what one step makes of `self` on
    /// the requests `input`, with `draws` what chance decided.
    ///
    /// Requests are heard only when enough time has passed since a vehicle
    /// last entered. Where the end of the simulation is asked for and
    /// heard, the vehicles of the approaches that were asked for enter and
    /// nothing else happens. Otherwise time runs on by one step for the
    /// vehicles that are then on the road.
    pub open spec fn ticks_to(
        &self,
        input: Input,
        draws: Draws,
        next: &Simulation,
        running: bool,
    ) -> bool {
        let arrived = self.arrivals(input, draws);
        &&& running == !self.stops(input)
        &&& next.config == self.config
        &&& next.click == self.click_after(input, draws)
        &&& next.signals.same_installation(&self.signals)
        &&& if running {
            &&& next.signals@ == self.signals@.ticked(
                self.config.time_step as nat,
                census(arrived),
                self.config.green_duration as nat,
                self.config.check_interval as nat,
            )
            &&& next.cars@ == step_all(
                arrived,
                self.config.spec_center(),
                next.signals.lights@,
            ).filter(on_the_road(self.config))
        } else {
            &&& next.signals@ == self.signals@
            &&& next.cars@ == arrived
        }
    }

    /// Takes in a vehicle of the given colour from `direction` if one is
    /// wanted and the lane of that approach is not full.
    fn hear(&mut self, wanted: bool, direction: Direction, color: CarColor)
        requires
            old(self).wf(),
        ensures
            final(self).wf(),
            final(self).cars@ == spawned_into(
                old(self).cars@,
                old(self).config,
                wanted,
                direction,
                color,
            ),
            final(self).click == (if final(self).cars@.len() > old(self).cars@.len() {
                0
            } else {
                old(self).click
            }),
            final(self).config == old(self).config,
            final(self).signals == old(self).signals,
    {
        if wanted {
            self.request_spawn(direction, color);
        }
    }

    /// Hears the requests of one step, if enough time has passed since a
    /// vehicle last entered: the four approaches in the order south, north,
    /// east, west, then the end of the simulation, then the vehicle from an
    /// approach picked by chance. Says whether the simulation goes on.
    pub fn hear_requests(&mut self, input: &Input, draws: &Draws) -> (running: bool)
        requires
            old(self).wf(),
        ensures
            final(self).wf(),
            running == !old(self).stops(*input),
            final(self).cars@ == old(self).arrivals(*input, *draws),
            final(self).click == (if final(self).cars@.len() > old(self).cars@.len() {
                0
            } else {
                old(self).click
            }),
            final(self).config == old(self).config,
            final(self).signals == old(self).signals,
    {
        let open: bool = self.click >= self.config.spawn_interval;
        self.hear(open && input.south, Direction::South, draws.south);
        self.hear(open && input.north, Direction::North, draws.north);
        self.hear(open && input.east, Direction::East, draws.east);
        self.hear(open && input.west, Direction::West, draws.west);
        if open && input.stop {
            return false;
        }
        self.hear(open && input.random, draws.random_origin, draws.random_color);
        true
    }

    /// One step of the simulation on the requests `input`, with `draws`
    /// what chance decided. Says whether the simulation goes on.
    pub fn tick_with(&mut self, input: &Input, draws: &Draws) -> (running: bool)
        requires
            old(self).wf(),
        ensures
            final(self).wf(),
            old(self).ticks_to(*input, *draws, final(self), running),
            exactly_one_green(final(self).signals.lights@),
            running ==> forall|i: int|
                0 <= i < final(self).cars@.len() ==> final(self).config.spec_in_bounds(
                    (#[trigger] final(self).cars@[i]).position,
                ),
    {
        let running = self.hear_requests(input, draws);
        if !running {
            proof {
                crate::controller::lemma_one_green(&self.signals);
            }
            return false;
        }
        let elapsed: u64 = self.click as u64 + self.config.time_step as u64;
        if elapsed >= self.config.spawn_interval as u64 {
            self.click = self.config.spawn_interval;
        } else {
            self.click = elapsed as u32;
        }
        self.advance();
        true
    }

    /// One step of the simulation on the requests `input`, with chance
    /// deciding what it has to decide. Says whether the simulation goes on.
    pub fn tick(&mut self, input: &Input) -> (running: bool)
        requires
            old(self).wf(),
        ensures
            final(self).wf(),
            exists|draws: Draws| old(self).ticks_to(*input, draws, final(self), running),
            exactly_one_green(final(self).signals.lights@),
            running ==> forall|i: int|
                0 <= i < final(self).cars@.len() ==> final(self).config.spec_in_bounds(
                    (#[trigger] final(self).cars@[i]).position,
                ),
    {
        let draws = Draws::random();
        let running = self.tick_with(input, &draws);
        assert(old(self).ticks_to(*input, draws, final(self), running));
        running
    }
}

/// Two vehicles in one step, the second ahead of the first in its lane and
/// keeping its heading: the first stays where it is if the second is closer
/// than the following distance, and in any case the step leaves the first
/// behind the second by no less than the following distance less the
/// length of its step, or by no less than before.
pub proof fn lemma_step_keeps_distance(
    cars: Seq<Car>,
    center: Point,
    lights: Seq<TrafficLight>,
    i: int,
    j: int,
)
    requires
        all_fit(cars),
        0 <= i < cars.len(),
        0 <= j < cars.len(),
        i != j,
        cars[j].after_turn(center).heading == cars[j].heading,
        cars[j].heading == cars[i].after_turn(center).heading,
        cars[i].after_turn(center).spec_is_in_same_lane(cars[j].position),
        cars[i].after_turn(center).gap_to(cars[j].position) > 0,
    ensures
        ({
            let before = cars[i].after_turn(center).gap_to(cars[j].position);
            let rear = step_all(cars, center, lights)[i];
            let lead = step_all(cars, center, lights)[j];
            &&& rear.heading == lead.heading
            &&& rear.spec_is_in_same_lane(lead.position)
            &&& before < MIN_DISTANCE ==> rear.position == cars[i].position
            &&& rear.gap_to(lead.position) >= before - cars[i].speed
            &&& (rear.gap_to(lead.position) >= before || rear.gap_to(lead.position)
                >= MIN_DISTANCE - cars[i].speed)
        }),
{
    let seen = snapshot(cars);
    let others = seen.remove(i);
    let k = if j < i {
        j
    } else {
        j - 1
    };
    assert(others[k] == (cars[j].position, cars[j].heading));
    lemma_keeps_following_distance(cars[i], center, lights, others, k);
    lemma_heading_flips_once(cars[i], center, lights, others);
    let ahead = cars[j].after_turn(center);
    lemma_heading_flips_once(cars[j], center, lights, seen.remove(j));
    lemma_advance_moves_along_heading(ahead);
}

/// Whether every vehicle that has another one ahead of it on its heading
/// and in its lane is behind it by no less than the following distance less
/// the length of its own step.
pub open spec fn well_spaced(cars: Seq<Car>) -> bool {
    forall|i: int, j: int|
        0 <= i < cars.len() && 0 <= j < cars.len() && (#[trigger] cars[i]).heading == (
        #[trigger] cars[j]).heading && cars[i].spec_is_in_same_lane(cars[j].position)
            && cars[i].gap_to(cars[j].position) > 0 ==> cars[i].gap_to(cars[j].position)
            >= MIN_DISTANCE - cars[i].speed
}

/// Whether no vehicle takes up its destination heading in the step that
/// begins, no vehicle covers the following distance in one step, and no two
/// vehicles travel abreast in one lane.
pub open spec fn calm(cars: Seq<Car>, center: Point) -> bool {
    &&& forall|i: int|
        0 <= i < cars.len() ==> (#[trigger] cars[i]).after_turn(center).heading == cars[i].heading
            && cars[i].speed < MIN_DISTANCE
    &&& forall|i: int, j: int|
        0 <= i < cars.len() && 0 <= j < cars.len() && i != j && (#[trigger] cars[i]).heading == (
        #[trigger] cars[j]).heading && cars[i].spec_is_in_same_lane(cars[j].position)
            ==> cars[i].gap_to(cars[j].position) != 0
}

/// Vehicles that keep their distance still keep it after a step in which
/// none of them turns, before and after those that have left are retired.
pub proof fn lemma_spacing_is_kept(
    cars: Seq<Car>,
    config: Config,
    center: Point,
    lights: Seq<TrafficLight>,
)
    requires
        all_fit(cars),
        well_spaced(cars),
        calm(cars, center),
    ensures
        well_spaced(step_all(cars, center, lights)),
        well_spaced(step_all(cars, center, lights).filter(on_the_road(config))),
{
    let moved = step_all(cars, center, lights);
    assert forall|i: int, j: int|
        0 <= i < moved.len() && 0 <= j < moved.len() && (#[trigger] moved[i]).heading == (
        #[trigger] moved[j]).heading && moved[i].spec_is_in_same_lane(moved[j].position)
            && moved[i].gap_to(moved[j].position) > 0 implies moved[i].gap_to(moved[j].position)
        >= MIN_DISTANCE - moved[i].speed by {
        let seen = snapshot(cars);
        lemma_heading_flips_once(cars[i], center, lights, seen.remove(i));
        lemma_heading_flips_once(cars[j], center, lights, seen.remove(j));
        lemma_advance_moves_along_heading(cars[i]);
        lemma_advance_moves_along_heading(cars[j]);
        assert(cars[i].after_turn(center) == cars[i]);
        assert(cars[j].after_turn(center) == cars[j]);
        assert(cars[i].heading == cars[j].heading);
        assert(cars[i].spec_is_in_same_lane(cars[j].position));
        assert(cars[j].spec_is_in_same_lane(cars[i].position));
        if i != j {
            let before = cars[i].gap_to(cars[j].position);
            assert(cars[j].gap_to(cars[i].position) == -before);
            if before > 0 {
                lemma_step_keeps_distance(cars, center, lights, i, j);
            } else {
                assert(before != 0);
                lemma_step_keeps_distance(cars, center, lights, j, i);
            }
        }
    }
    let kept = moved.filter(on_the_road(config));
    assert forall|i: int, j: int|
        0 <= i < kept.len() && 0 <= j < kept.len() && (#[trigger] kept[i]).heading == (
        #[trigger] kept[j]).heading && kept[i].spec_is_in_same_lane(kept[j].position)
            && kept[i].gap_to(kept[j].position) > 0 implies kept[i].gap_to(kept[j].position)
        >= MIN_DISTANCE - kept[i].speed by {
        assert(kept.contains(kept[i]));
        assert(kept.contains(kept[j]));
        moved.lemma_filter_contains_rev(on_the_road(config), kept[i]);
        moved.lemma_filter_contains_rev(on_the_road(config), kept[j]);
        let a = choose|a: int| 0 <= a < moved.len() && moved[a] == kept[i];
        let b = choose|b: int| 0 <= b < moved.len() && moved[b] == kept[j];
        assert(moved[a].gap_to(moved[b].position) >= MIN_DISTANCE - moved[a].speed);
    }
}

/// A vehicle whose leading edge is before the stop line of its heading,
/// and whose heading does not have the right of way, is still before the
/// line after the step.
pub proof fn lemma_step_respects_signals(
    cars: Seq<Car>,
    center: Point,
    signals: &SignalController,
    i: int,
)
    requires
        all_fit(cars),
        signals.wf(),
        0 <= i < cars.len(),
        cars[i].after_turn(center).heading != signals@.green,
        cars[i].after_turn(center).heading.spec_progress(cars[i].position, center)
            < -cars[i].after_turn(center).heading.spec_stop_line(),
    ensures
        ({
            let next = step_all(cars, center, signals.lights@)[i];
            next.heading.spec_progress(next.position, center) < -next.heading.spec_stop_line()
        }),
{
    lemma_red_unless_green(signals, cars[i].after_turn(center).heading);
    lemma_red_signal_holds(cars[i], center, signals.lights@, snapshot(cars).remove(i));
}

/// Retiring keeps exactly the vehicles that are on the road: one that is
/// the margin or more outside the area is gone, and one that is not stays.
pub proof fn lemma_retired_when_outside(cars: Seq<Car>, config: Config, car: Car)
    ensures
        cars.filter(on_the_road(config)).contains(car) <==> cars.contains(car)
            && config.spec_in_bounds(car.position),
{
    let kept = cars.filter(on_the_road(config));
    if kept.contains(car) {
        cars.lemma_filter_contains_rev(on_the_road(config), car);
        let k = choose|k: int| 0 <= k < kept.len() && kept[k] == car;
        cars.lemma_filter_pred(on_the_road(config), k);
    }
    if cars.contains(car) && config.spec_in_bounds(car.position) {
        let k = choose|k: int| 0 <= k < cars.len() && cars[k] == car;
        cars.lemma_filter_contains(on_the_road(config), k);
    }
}

/// A vehicle that stands the margin or more outside the area, and that one
/// more step along its heading would not bring back, is retired by the step
/// it takes there.
pub proof fn lemma_car_beyond_is_retired(
    cars: Seq<Car>,
    config: Config,
    center: Point,
    lights: Seq<TrafficLight>,
    i: int,
)
    requires
        0 <= i < cars.len(),
        !config.spec_in_bounds(cars[i].position),
        !config.spec_in_bounds(cars[i].after_turn(center).advanced().position),
    ensures
        !step_all(cars, center, lights).filter(on_the_road(config)).contains(
            step_all(cars, center, lights)[i],
        ),
{
    let moved = step_all(cars, center, lights);
    lemma_retired_when_outside(moved, config, moved[i]);
}

/// A request changes the number of vehicles that entered by `lane` only
/// where it is a request for that lane and the lane is not full, and then
/// by one; and a lane that was full is still full.
pub proof fn lemma_spawn_counts(
    cars: Seq<Car>,
    config: Config,
    wanted: bool,
    direction: Direction,
    color: CarColor,
    lane: Direction,
)
    ensures
        ({
            let after = spawned_into(cars, config, wanted, direction, color);
            let start = config.spec_spawn_point(lane);
            &&& lane_full(cars, lane, start) ==> lane_full(after, lane, start)
            &&& count_from(after, lane) == count_from(cars, lane) + (if wanted && direction == lane
                && !lane_full(cars, lane, start) {
                1nat
            } else {
                0nat
            })
        }),
{
    let after = spawned_into(cars, config, wanted, direction, color);
    let start = config.spec_spawn_point(lane);
    if after != cars {
        assert(after.drop_last() == cars);
        if lane_full(cars, lane, start) {
            let k = choose|k: int|
                0 <= k < cars.len() && crate::utils::crowds_entry(#[trigger] cars[k], lane, start);
            assert(crate::utils::crowds_entry(after[k], lane, start));
        }
    }
}

/// While the lane of an approach is full, no request adds to the vehicles
/// that entered by it, whatever else is asked for in the same step.
pub proof fn lemma_full_lane_takes_no_vehicle(
    sim: &Simulation,
    input: Input,
    draws: Draws,
    lane: Direction,
)
    requires
        lane_full(sim.cars@, lane, sim.config.spec_spawn_point(lane)),
    ensures
        count_from(sim.arrivals(input, draws), lane) == count_from(sim.cars@, lane),
{
    let open = sim.gate_open();
    let c = sim.config;
    let south = spawned_into(sim.cars@, c, open && input.south, Direction::South, draws.south);
    lemma_spawn_counts(sim.cars@, c, open && input.south, Direction::South, draws.south, lane);
    let north = spawned_into(south, c, open && input.north, Direction::North, draws.north);
    lemma_spawn_counts(south, c, open && input.north, Direction::North, draws.north, lane);
    let east = spawned_into(north, c, open && input.east, Direction::East, draws.east);
    lemma_spawn_counts(north, c, open && input.east, Direction::East, draws.east, lane);
    let west = spawned_into(east, c, open && input.west, Direction::West, draws.west);
    lemma_spawn_counts(east, c, open && input.west, Direction::West, draws.west, lane);
    lemma_spawn_counts(
        west,
        c,
        open && input.random,
        draws.random_origin,
        draws.random_color,
        lane,
    );
}

} // verus!

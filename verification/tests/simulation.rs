use road_intersection::car::{Car, CarColor};
use road_intersection::geometry::Point;
use road_intersection::simulation::{
    evict_out_of_bounds, others_of, step_cars, take_snapshot, Config, Draws, Input, Simulation,
};
use road_intersection::traffic_light::{Direction, LightState};
use road_intersection::utils::count_cars_by_direction;

fn draws(color: CarColor) -> Draws {
    Draws {
        north: color,
        west: color,
        south: color,
        east: color,
        random_origin: Direction::East,
        random_color: color,
    }
}

fn blue(origin: Direction, x: i32, y: i32) -> Car {
    Car::with_color(origin, Point::new(x, y), CarColor::Blue)
}

fn fresh() -> Simulation {
    Simulation::new(Config::standard(800, 600))
}

fn ready() -> Simulation {
    let mut sim = fresh();
    sim.click = 400;
    sim
}

fn greens(sim: &Simulation) -> usize {
    sim.signals.lights.iter().filter(|l| l.state == LightState::Green).count()
}

#[test]
fn the_standard_set_up_has_the_usual_durations() {
    let config = Config::standard(800, 600);
    assert_eq!(
        config,
        Config {
            width: 800,
            height: 600,
            green_duration: 3000,
            check_interval: 1000,
            spawn_interval: 400,
            time_step: 20,
        }
    );
    assert!(config.is_valid());
    assert_eq!(config.center(), Point::new(400, 300));
}

#[test]
fn a_set_up_without_area_or_duration_is_not_valid() {
    let good = Config::standard(800, 600);
    assert!(!Config { width: 0, ..good }.is_valid());
    assert!(!Config { width: -5, ..good }.is_valid());
    assert!(!Config { height: 0, ..good }.is_valid());
    assert!(!Config { green_duration: 0, ..good }.is_valid());
    assert!(!Config { check_interval: 0, ..good }.is_valid());
    assert!(!Config { width: 1_000_000_000, ..good }.is_valid());
    assert!(Config { width: 999_999_950, ..good }.is_valid());
    assert!(!Config { height: 999_999_951, ..good }.is_valid());
    assert!(Config { spawn_interval: 0, time_step: 0, ..good }.is_valid());
}

#[test]
fn cars_enter_at_the_edge_in_their_lane() {
    let config = Config::standard(800, 600);
    assert_eq!(config.spawn_point(Direction::North), Point::new(370, 0));
    assert_eq!(config.spawn_point(Direction::South), Point::new(400, 600));
    assert_eq!(config.spawn_point(Direction::East), Point::new(0, 300));
    assert_eq!(config.spawn_point(Direction::West), Point::new(800, 270));
}

#[test]
fn the_road_ends_a_margin_outside_the_area() {
    let config = Config::standard(800, 600);
    assert!(config.in_bounds(Point::new(-49, -49)));
    assert!(!config.in_bounds(Point::new(-50, 0)));
    assert!(!config.in_bounds(Point::new(0, -50)));
    assert!(config.in_bounds(Point::new(849, 649)));
    assert!(!config.in_bounds(Point::new(850, 0)));
    assert!(!config.in_bounds(Point::new(0, 650)));
}

#[test]
fn a_new_simulation_is_empty_with_north_green() {
    let sim = fresh();
    assert!(sim.cars.is_empty());
    assert_eq!(sim.click, 0);
    assert_eq!(sim.signals.green(), Direction::North);
    assert_eq!(greens(&sim), 1);
    assert_eq!(sim.signals.green_duration, 3000);
    assert_eq!(sim.signals.check_interval, 1000);
    assert_eq!(sim.signals.lights[0].pos, Point::new(290, 190));
}

#[test]
fn input_none_asks_for_nothing() {
    let input = Input::none();
    for d in [Direction::North, Direction::West, Direction::South, Direction::East] {
        assert!(!input.wants(d));
    }
    assert!(!input.random);
    assert!(!input.stop);
    assert!(Input { west: true, ..input }.wants(Direction::West));
    assert!(!Input { west: true, ..input }.wants(Direction::East));
}

#[test]
fn draws_give_each_approach_its_colour() {
    let d = Draws {
        north: CarColor::Yellow,
        west: CarColor::Blue,
        south: CarColor::Purple,
        east: CarColor::Yellow,
        random_origin: Direction::West,
        random_color: CarColor::Blue,
    };
    assert_eq!(d.color_for(Direction::North), CarColor::Yellow);
    assert_eq!(d.color_for(Direction::West), CarColor::Blue);
    assert_eq!(d.color_for(Direction::South), CarColor::Purple);
    assert_eq!(d.color_for(Direction::East), CarColor::Yellow);
}

#[test]
fn random_draws_cover_every_approach() {
    let mut origins = [false; 4];
    for _ in 0..400 {
        origins[Draws::random().random_origin.signal_index()] = true;
    }
    assert_eq!(origins, [true, true, true, true]);
}

#[test]
fn a_snapshot_holds_position_and_heading() {
    let mut turned = Car::with_color(Direction::North, Point::new(370, 300), CarColor::Yellow);
    turned.heading = Direction::East;
    let cars = vec![blue(Direction::South, 400, 500), turned];
    let seen = take_snapshot(&cars);
    assert_eq!(
        seen,
        vec![(Point::new(400, 500), Direction::South), (Point::new(370, 300), Direction::East)]
    );
    assert_eq!(others_of(&seen, 0), vec![(Point::new(370, 300), Direction::East)]);
    assert_eq!(others_of(&seen, 1), vec![(Point::new(400, 500), Direction::South)]);
    let three = vec![
        (Point::new(1, 1), Direction::North),
        (Point::new(2, 2), Direction::West),
        (Point::new(3, 3), Direction::South),
    ];
    assert_eq!(others_of(&three, 1), vec![three[0], three[2]]);
}

#[test]
fn every_car_steps_against_the_others_as_they_stood() {
    let sim = fresh();
    let mut cars = vec![blue(Direction::North, 370, 0), blue(Direction::North, 370, 99)];
    step_cars(&mut cars, 400, 300, &sim.signals.lights);
    assert_eq!(cars[0].position, Point::new(370, 0));
    assert_eq!(cars[1].position, Point::new(370, 101));

    let mut swapped = vec![blue(Direction::North, 370, 99), blue(Direction::North, 370, 0)];
    step_cars(&mut swapped, 400, 300, &sim.signals.lights);
    assert_eq!(swapped[0].position, Point::new(370, 101));
    assert_eq!(swapped[1].position, Point::new(370, 0));
}

#[test]
fn a_car_does_not_block_itself() {
    let sim = fresh();
    let mut cars = vec![blue(Direction::East, 10, 300)];
    step_cars(&mut cars, 400, 300, &sim.signals.lights);
    assert_eq!(cars[0].position, Point::new(12, 300));
}

#[test]
fn a_queue_closes_up_to_the_following_distance() {
    let mut sim = fresh();
    sim.signals.switch_to(Direction::West);
    let mut cars = vec![
        blue(Direction::North, 370, 210),
        blue(Direction::North, 370, 0),
        blue(Direction::North, 370, -40),
    ];
    for _ in 0..300 {
        step_cars(&mut cars, 400, 300, &sim.signals.lights);
    }
    assert_eq!(cars[0].position, Point::new(370, 210));
    assert_eq!(cars[1].position, Point::new(370, 112));
    assert_eq!(cars[2].position, Point::new(370, 14));
}

#[test]
fn cars_that_left_are_retired_in_order() {
    let config = Config::standard(800, 600);
    let mut cars = vec![
        blue(Direction::North, 370, 650),
        blue(Direction::North, 370, 649),
        blue(Direction::West, -50, 270),
        blue(Direction::West, -49, 270),
        blue(Direction::East, 850, 300),
        blue(Direction::South, 400, -50),
        blue(Direction::South, 400, 10),
    ];
    evict_out_of_bounds(&mut cars, config);
    assert_eq!(
        cars,
        vec![
            blue(Direction::North, 370, 649),
            blue(Direction::West, -49, 270),
            blue(Direction::South, 400, 10),
        ]
    );
}

#[test]
fn a_car_beyond_the_margin_is_gone_after_one_tick() {
    let mut sim = fresh();
    sim.cars.push(blue(Direction::North, 370, 700));
    sim.cars.push(blue(Direction::East, 900, 300));
    sim.cars.push(blue(Direction::West, -60, 270));
    sim.cars.push(blue(Direction::South, 400, -80));
    sim.cars.push(blue(Direction::East, 100, 300));
    assert!(sim.tick_with(&Input::none(), &draws(CarColor::Blue)));
    assert_eq!(sim.cars, vec![blue(Direction::East, 102, 300)]);
}

#[test]
fn a_car_leaves_the_road_on_the_tick_it_crosses_the_margin() {
    let mut sim = fresh();
    sim.cars.push(blue(Direction::East, 846, 300));
    assert!(sim.tick(&Input::none()));
    assert_eq!(sim.cars.len(), 1);
    assert_eq!(sim.cars[0].position, Point::new(848, 300));
    assert!(sim.tick(&Input::none()));
    assert!(sim.cars.is_empty());
}

#[test]
fn requests_are_not_heard_right_after_the_start() {
    let mut sim = fresh();
    let input = Input { north: true, ..Input::none() };
    for t in 1..=19 {
        assert!(sim.tick_with(&input, &draws(CarColor::Blue)));
        assert!(sim.cars.is_empty());
        assert_eq!(sim.click, 20 * t);
    }
    assert!(sim.tick_with(&input, &draws(CarColor::Blue)));
    assert_eq!(sim.click, 400);
    assert!(sim.cars.is_empty());
    assert!(sim.tick_with(&input, &draws(CarColor::Blue)));
    assert_eq!(sim.cars, vec![blue(Direction::North, 370, 2)]);
    assert_eq!(sim.click, 20);
}

#[test]
fn the_time_since_the_last_car_stops_at_the_interval() {
    let mut sim = fresh();
    for _ in 0..100 {
        sim.tick_with(&Input::none(), &draws(CarColor::Blue));
    }
    assert_eq!(sim.click, 400);
}

#[test]
fn a_request_takes_in_a_car_of_the_drawn_colour() {
    let mut sim = ready();
    let input = Input { west: true, ..Input::none() };
    assert!(sim.tick_with(&input, &draws(CarColor::Purple)));
    assert_eq!(sim.cars.len(), 1);
    let car = sim.cars[0];
    assert_eq!(car.start_direction, Direction::West);
    assert_eq!(car.end_direction, Direction::South);
    assert_eq!(car.color, CarColor::Purple);
    assert_eq!(car.heading, Direction::West);
    assert_eq!(car.position, Point::new(798, 270));
    assert_eq!(sim.click, 20);
}

#[test]
fn several_approaches_are_heard_in_one_tick() {
    let mut sim = ready();
    let input = Input { north: true, west: true, south: true, east: true, ..Input::none() };
    let d = Draws {
        north: CarColor::Yellow,
        west: CarColor::Blue,
        south: CarColor::Purple,
        east: CarColor::Blue,
        random_origin: Direction::North,
        random_color: CarColor::Blue,
    };
    assert!(sim.tick_with(&input, &d));
    let origins: Vec<(Direction, CarColor)> =
        sim.cars.iter().map(|c| (c.start_direction, c.color)).collect();
    assert_eq!(
        origins,
        vec![
            (Direction::South, CarColor::Purple),
            (Direction::North, CarColor::Yellow),
            (Direction::East, CarColor::Blue),
            (Direction::West, CarColor::Blue),
        ]
    );
    assert_eq!(count_cars_by_direction(&sim.cars), [1, 1, 1, 1]);
}

#[test]
fn a_full_lane_takes_no_car() {
    let mut sim = ready();
    sim.cars.push(blue(Direction::North, 370, 20));
    let input = Input { north: true, ..Input::none() };
    assert!(sim.tick_with(&input, &draws(CarColor::Blue)));
    assert_eq!(sim.cars, vec![blue(Direction::North, 370, 22)]);
    assert_eq!(count_cars_by_direction(&sim.cars), [1, 0, 0, 0]);
    assert_eq!(sim.click, 400);
}

#[test]
fn a_full_lane_does_not_keep_other_lanes_from_taking_cars() {
    let mut sim = ready();
    sim.cars.push(blue(Direction::North, 370, 20));
    let input = Input { north: true, south: true, ..Input::none() };
    assert!(sim.tick_with(&input, &draws(CarColor::Blue)));
    assert_eq!(count_cars_by_direction(&sim.cars), [1, 0, 1, 0]);
    assert_eq!(sim.click, 20);
}

#[test]
fn request_spawn_says_whether_the_car_entered() {
    let mut sim = fresh();
    sim.click = 250;
    assert!(sim.request_spawn(Direction::East, CarColor::Yellow));
    assert_eq!(sim.cars, vec![Car::with_color(Direction::East, Point::new(0, 300), CarColor::Yellow)]);
    assert_eq!(sim.click, 0);
    sim.click = 250;
    assert!(!sim.request_spawn(Direction::East, CarColor::Blue));
    assert_eq!(sim.cars.len(), 1);
    assert_eq!(sim.click, 250);
    sim.cars[0].position.x = 50;
    assert!(sim.request_spawn(Direction::East, CarColor::Blue));
    assert_eq!(sim.cars.len(), 2);
}

#[test]
fn a_random_request_enters_by_the_drawn_approach() {
    let mut sim = ready();
    let input = Input { random: true, ..Input::none() };
    let d = Draws { random_origin: Direction::South, random_color: CarColor::Yellow, ..draws(CarColor::Blue) };
    assert!(sim.tick_with(&input, &d));
    assert_eq!(sim.cars.len(), 1);
    assert_eq!(sim.cars[0].start_direction, Direction::South);
    assert_eq!(sim.cars[0].end_direction, Direction::West);
    assert_eq!(sim.cars[0].position, Point::new(400, 598));
}

#[test]
fn a_random_request_is_turned_away_from_a_full_lane() {
    let mut sim = ready();
    sim.cars.push(blue(Direction::South, 400, 590));
    let input = Input { random: true, ..Input::none() };
    let d = Draws { random_origin: Direction::South, ..draws(CarColor::Blue) };
    assert!(sim.tick_with(&input, &d));
    assert_eq!(sim.cars.len(), 1);
}

#[test]
fn a_stop_ends_the_simulation_and_moves_nothing() {
    let mut sim = ready();
    sim.cars.push(blue(Direction::East, 100, 300));
    sim.signals.timer = 2990;
    let input = Input { stop: true, north: true, random: true, ..Input::none() };
    assert!(!sim.tick_with(&input, &draws(CarColor::Blue)));
    assert_eq!(sim.cars, vec![blue(Direction::East, 100, 300), blue(Direction::North, 370, 0)]);
    assert_eq!(sim.signals.timer, 2990);
    assert_eq!(sim.signals.green(), Direction::North);
    assert_eq!(sim.click, 0);
}

#[test]
fn a_stop_is_not_heard_while_requests_are_not() {
    let mut sim = fresh();
    let input = Input { stop: true, ..Input::none() };
    assert!(sim.tick_with(&input, &draws(CarColor::Blue)));
    assert!(sim.hear_requests(&input, &draws(CarColor::Blue)));
    sim.click = 400;
    assert!(!sim.hear_requests(&input, &draws(CarColor::Blue)));
}

#[test]
fn the_signals_run_with_the_simulation() {
    let mut sim = fresh();
    for _ in 0..149 {
        sim.tick_with(&Input::none(), &draws(CarColor::Blue));
        assert_eq!(sim.signals.green(), Direction::North);
    }
    sim.tick_with(&Input::none(), &draws(CarColor::Blue));
    assert_eq!(sim.signals.green(), Direction::West);
    assert_eq!(sim.signals.state_of(Direction::North), LightState::Red);
}

#[test]
fn cars_step_against_the_signals_of_the_same_tick() {
    let mut sim = fresh();
    sim.signals.timer = 2980;
    sim.cars.push(blue(Direction::North, 370, 210));
    sim.tick_with(&Input::none(), &draws(CarColor::Blue));
    assert_eq!(sim.signals.green(), Direction::West);
    assert_eq!(sim.cars[0].position, Point::new(370, 210));
}

#[test]
fn a_crowded_approach_takes_the_right_of_way_in_the_simulation() {
    let mut sim = fresh();
    for k in 0..10 {
        sim.cars.push(blue(Direction::South, 400, 362 + 100 * k));
    }
    sim.cars.push(blue(Direction::North, 370, 210));
    sim.cars.push(blue(Direction::North, 370, 110));
    sim.config.height = 2000;
    sim.signals.priority_check_timer = 980;
    sim.signals.switch_to(Direction::North);
    sim.tick_with(&Input::none(), &draws(CarColor::Blue));
    assert_eq!(sim.signals.green(), Direction::South);
    assert_eq!(sim.signals.state_of(Direction::North), LightState::Red);
    assert_eq!(greens(&sim), 1);
}

#[test]
fn advance_leaves_the_time_since_the_last_car_alone() {
    let mut sim = fresh();
    sim.click = 120;
    sim.cars.push(blue(Direction::West, 800, 270));
    sim.advance();
    assert_eq!(sim.click, 120);
    assert_eq!(sim.cars, vec![blue(Direction::West, 798, 270)]);
    assert_eq!(sim.signals.timer, 20);
    assert_eq!(sim.signals.priority_check_timer, 20);
}

#[test]
fn a_long_run_keeps_its_promises() {
    let mut sim = fresh();
    let mut entered = 0usize;
    for t in 0..6000u32 {
        let input = Input {
            north: t % 7 == 0,
            west: t % 11 == 0,
            south: t % 13 == 0,
            east: t % 17 == 0,
            random: t % 29 == 0,
            stop: false,
        };
        let before = sim.cars.len();
        assert!(sim.tick(&input));
        if sim.cars.len() > before {
            entered += sim.cars.len() - before;
        }
        assert_eq!(greens(&sim), 1);
        assert!(sim.click <= 400);
        for car in &sim.cars {
            assert!(sim.config.in_bounds(car.position));
            assert!(car.heading == car.start_direction || car.heading == car.end_direction);
            assert_eq!(car.end_direction, car.start_direction.destination(car.color.turn_kind()));
            assert_eq!(car.speed, 2);
        }
    }
    assert!(entered > 50);
}

#[test]
fn six_rolls_make_the_draws() {
    assert_eq!(
        Draws::from_rolls(0, 1, 2, 7, 2, 1),
        Draws {
            north: CarColor::Yellow,
            west: CarColor::Blue,
            south: CarColor::Purple,
            east: CarColor::Purple,
            random_origin: Direction::South,
            random_color: CarColor::Blue,
        }
    );
    let origins: Vec<Direction> =
        (0..5).map(|origin| Draws::from_rolls(0, 0, 0, 0, origin, 0).random_origin).collect();
    assert_eq!(
        origins,
        vec![
            Direction::North,
            Direction::West,
            Direction::South,
            Direction::East,
            Direction::North
        ]
    );
}

#[test]
fn random_draws_cover_every_colour() {
    let mut seen = [[false; 3]; 5];
    for _ in 0..600 {
        let d = Draws::random();
        for (k, c) in [d.north, d.west, d.south, d.east, d.random_color].iter().enumerate() {
            match c {
                CarColor::Yellow => seen[k][0] = true,
                CarColor::Blue => seen[k][1] = true,
                CarColor::Purple => seen[k][2] = true,
            }
        }
    }
    assert_eq!(seen, [[true; 3]; 5]);
}

#[test]
fn a_lane_is_free_again_once_its_car_has_turned_away() {
    let mut sim = Simulation::new(Config::standard(200, 150));
    assert_eq!(sim.config.center(), Point::new(100, 75));
    assert!(sim.request_spawn(Direction::North, CarColor::Purple));
    assert_eq!(sim.cars[0].position, Point::new(70, 0));
    for _ in 0..23 {
        assert!(!sim.request_spawn(Direction::North, CarColor::Blue));
        sim.advance();
    }
    assert_eq!(sim.cars, vec![Car::with_color(Direction::North, Point::new(70, 46), CarColor::Purple)]);
    assert!(!sim.request_spawn(Direction::North, CarColor::Blue));
    for _ in 0..5 {
        sim.advance();
    }
    assert_eq!(sim.cars.len(), 1);
    assert_eq!(sim.cars[0].heading, Direction::West);
    assert_eq!(sim.cars[0].start_direction, Direction::North);
    assert_eq!(sim.cars[0].position, Point::new(60, 46));
    assert!(sim.request_spawn(Direction::North, CarColor::Blue));
    assert_eq!(sim.cars.len(), 2);
    assert_eq!(sim.cars[1], Car::with_color(Direction::North, Point::new(70, 0), CarColor::Blue));
}

#[test]
fn a_car_that_turned_into_a_lane_near_its_entry_keeps_it_full() {
    let mut sim = ready();
    let mut turned = Car::with_color(Direction::North, Point::new(790, 270), CarColor::Purple);
    turned.heading = Direction::West;
    sim.cars.push(turned);
    let input = Input { west: true, north: true, ..Input::none() };
    assert!(sim.tick_with(&input, &draws(CarColor::Blue)));
    let origins: Vec<Direction> = sim.cars.iter().map(|c| c.start_direction).collect();
    assert_eq!(origins, vec![Direction::North, Direction::North]);
    assert_eq!(sim.cars[0].position, Point::new(788, 270));
    assert_eq!(sim.cars[1].position, Point::new(370, 2));
}

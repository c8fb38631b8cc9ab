use road_intersection::car::{Car, CarColor};
use road_intersection::geometry::Point;
use road_intersection::traffic_light::Direction;
use road_intersection::utils::{
    busiest_of, count_cars_by_direction, find_busiest_direction, is_lane_full,
};

fn car(origin: Direction, x: i32, y: i32) -> Car {
    Car::with_color(origin, Point::new(x, y), CarColor::Blue)
}

#[test]
fn an_empty_road_counts_nothing() {
    assert_eq!(count_cars_by_direction(&Vec::new()), [0, 0, 0, 0]);
    assert_eq!(find_busiest_direction(&Vec::new()), 3);
}

#[test]
fn cars_are_counted_north_east_south_west() {
    let cars = vec![
        car(Direction::North, 0, 0),
        car(Direction::East, 0, 0),
        car(Direction::East, 0, 0),
        car(Direction::South, 0, 0),
        car(Direction::South, 0, 0),
        car(Direction::South, 0, 0),
        car(Direction::West, 0, 0),
        car(Direction::West, 0, 0),
        car(Direction::West, 0, 0),
        car(Direction::West, 0, 0),
        car(Direction::North, 0, 0),
    ];
    assert_eq!(count_cars_by_direction(&cars), [2, 2, 3, 4]);
    assert_eq!(find_busiest_direction(&cars), 3);
}

#[test]
fn a_car_that_has_turned_counts_for_the_approach_it_came_by() {
    let mut turned = Car::with_color(Direction::North, Point::new(370, 300), CarColor::Yellow);
    turned.heading = Direction::East;
    let cars = vec![turned, car(Direction::North, 370, 0)];
    assert_eq!(count_cars_by_direction(&cars), [2, 0, 0, 0]);
    assert_eq!(find_busiest_direction(&cars), 0);
}

#[test]
fn the_busiest_is_the_largest_count() {
    assert_eq!(busiest_of(&[5, 1, 2, 3]), 0);
    assert_eq!(busiest_of(&[1, 5, 2, 3]), 1);
    assert_eq!(busiest_of(&[1, 2, 5, 3]), 2);
    assert_eq!(busiest_of(&[1, 2, 3, 5]), 3);
}

#[test]
fn among_equal_counts_the_last_is_the_busiest() {
    assert_eq!(busiest_of(&[0, 0, 0, 0]), 3);
    assert_eq!(busiest_of(&[4, 4, 1, 0]), 1);
    assert_eq!(busiest_of(&[4, 1, 4, 0]), 2);
    assert_eq!(busiest_of(&[4, 4, 4, 4]), 3);
    assert_eq!(busiest_of(&[7, 2, 7, 3]), 2);
    assert_eq!(busiest_of(&[usize::MAX, 0, usize::MAX, 1]), 2);
}

#[test]
fn find_busiest_agrees_with_the_counts() {
    let cars = vec![
        car(Direction::South, 0, 0),
        car(Direction::East, 0, 0),
        car(Direction::South, 0, 0),
        car(Direction::East, 0, 0),
        car(Direction::North, 0, 0),
    ];
    let counts = count_cars_by_direction(&cars);
    assert_eq!(counts, [1, 2, 2, 0]);
    assert_eq!(find_busiest_direction(&cars), 2);
    assert_eq!(find_busiest_direction(&cars), busiest_of(&counts));
}

#[test]
fn a_lane_is_full_until_its_last_car_is_clear_of_the_entry() {
    let start = Point::new(370, 0);
    assert!(!is_lane_full(&Vec::new(), Direction::North, start));
    assert!(is_lane_full(&vec![car(Direction::North, 370, 0)], Direction::North, start));
    assert!(is_lane_full(&vec![car(Direction::North, 370, 49)], Direction::North, start));
    assert!(!is_lane_full(&vec![car(Direction::North, 370, 50)], Direction::North, start));
    let mixed = vec![car(Direction::North, 370, 300), car(Direction::North, 370, 10)];
    assert!(is_lane_full(&mixed, Direction::North, start));
}

#[test]
fn each_lane_is_measured_from_its_own_entry() {
    let south = Point::new(400, 600);
    assert!(is_lane_full(&vec![car(Direction::South, 400, 551)], Direction::South, south));
    assert!(!is_lane_full(&vec![car(Direction::South, 400, 550)], Direction::South, south));
    let east = Point::new(0, 300);
    assert!(is_lane_full(&vec![car(Direction::East, 49, 300)], Direction::East, east));
    assert!(!is_lane_full(&vec![car(Direction::East, 50, 300)], Direction::East, east));
    let west = Point::new(800, 270);
    assert!(is_lane_full(&vec![car(Direction::West, 751, 270)], Direction::West, west));
    assert!(!is_lane_full(&vec![car(Direction::West, 750, 270)], Direction::West, west));
}

#[test]
fn cars_of_other_approaches_do_not_fill_a_lane() {
    let cars = vec![
        car(Direction::South, 370, 0),
        car(Direction::East, 370, 10),
        car(Direction::West, 370, 20),
    ];
    assert!(!is_lane_full(&cars, Direction::North, Point::new(370, 0)));
}

#[test]
fn a_car_that_has_turned_away_no_longer_fills_the_lane_it_came_by() {
    let mut turned = Car::with_color(Direction::North, Point::new(60, 46), CarColor::Purple);
    assert!(is_lane_full(&vec![turned], Direction::North, Point::new(70, 0)));
    turned.heading = Direction::West;
    assert!(!is_lane_full(&vec![turned], Direction::North, Point::new(70, 0)));
    assert_eq!(count_cars_by_direction(&vec![turned]), [1, 0, 0, 0]);
}

#[test]
fn a_car_that_has_turned_fills_the_lane_it_travels_in() {
    let mut turned = Car::with_color(Direction::North, Point::new(790, 270), CarColor::Purple);
    let west = Point::new(800, 270);
    assert!(!is_lane_full(&vec![turned], Direction::West, west));
    turned.heading = Direction::West;
    assert!(is_lane_full(&vec![turned], Direction::West, west));
    turned.position.x = 751;
    assert!(is_lane_full(&vec![turned], Direction::West, west));
    turned.position.x = 750;
    assert!(!is_lane_full(&vec![turned], Direction::West, west));
}

//! The traffic census and the rule that decides whether a lane takes a new
//! vehicle.

use vstd::prelude::*;
use crate::car::Car;
use crate::geometry::{Point, SPAWN_CLEARANCE};
use crate::traffic_light::Direction;

verus! {

/// How many of `cars` entered by `direction`. A vehicle counts for the
/// approach it came in by, also after it has turned.
pub open spec fn count_from(cars: Seq<Car>, direction: Direction) -> nat
    decreases cars.len(),
{
    if cars.len() == 0 {
        0
    } else {
        let rest = count_from(cars.drop_last(), direction);
        if cars.last().start_direction == direction {
            rest + 1
        } else {
            rest
        }
    }
}

/// The census of `cars`: how many entered from the north, the east, the
/// south and the west, in this order.
pub open spec fn census(cars: Seq<Car>) -> Seq<nat> {
    seq![
        count_from(cars, Direction::North),
        count_from(cars, Direction::East),
        count_from(cars, Direction::South),
        count_from(cars, Direction::West),
    ]
}

/// The counts of an array as numbers without a bound.
pub open spec fn tally(counts: Seq<usize>) -> Seq<nat> {
    Seq::new(counts.len(), |i: int| counts[i] as nat)
}

/// Whether place `r` holds the largest of `counts` and no later place holds
/// as much: among equal counts the last one is the busiest.
pub open spec fn is_busiest(counts: Seq<nat>, r: int) -> bool {
    &&& 0 <= r < counts.len()
    &&& forall|j: int| 0 <= j < counts.len() ==> counts[j] <= counts[r]
    &&& forall|j: int| r < j < counts.len() ==> counts[j] < counts[r]
}

/// The busiest place of `counts`; `0` where there are no counts.
pub open spec fn busiest_index(counts: Seq<nat>) -> int
    decreases counts.len(),
{
    if counts.len() <= 1 {
        0
    } else {
        let before = busiest_index(counts.drop_last());
        if counts.last() >= counts[before] {
            counts.len() - 1
        } else {
            before
        }
    }
}

/// The busiest place is the only place that holds the largest count with
/// no equal count after it.
pub proof fn lemma_busiest_index(counts: Seq<nat>)
    requires
        counts.len() > 0,
    ensures
        is_busiest(counts, busiest_index(counts)),
        forall|r: int| is_busiest(counts, r) ==> r == busiest_index(counts),
    decreases counts.len(),
{
    if counts.len() > 1 {
        let front = counts.drop_last();
        lemma_busiest_index(front);
        let before = busiest_index(front);
        assert(is_busiest(front, before));
        assert forall|j: int| 0 <= j < front.len() implies front[j] == counts[j] by {}
        let b = busiest_index(counts);
        assert(is_busiest(counts, b)) by {
            assert forall|j: int| 0 <= j < counts.len() implies counts[j] <= counts[b] by {
                if j < front.len() {
                    assert(front[j] <= front[before]);
                }
            }
            assert forall|j: int| b < j < counts.len() implies counts[j] < counts[b] by {
                if j < front.len() {
                    assert(front[j] < front[before]);
                }
            }
        }
    }
    assert forall|r: int| is_busiest(counts, r) implies r == busiest_index(counts) by {
        let b = busiest_index(counts);
        if r < b {
            assert(counts[b] < counts[r]);
            assert(counts[r] <= counts[b]);
        } else if b < r {
            assert(counts[r] < counts[b]);
            assert(counts[b] <= counts[r]);
        }
    }
}

/// Every vehicle is counted once, for the approach it entered by.
pub proof fn lemma_census_total(cars: Seq<Car>)
    ensures
        count_from(cars, Direction::North) + count_from(cars, Direction::East) + count_from(
            cars,
            Direction::South,
        ) + count_from(cars, Direction::West) == cars.len(),
    decreases cars.len(),
{
    if cars.len() > 0 {
        lemma_census_total(cars.drop_last());
    }
}

/// Counts the vehicles by the approach they entered by: north, east, south
/// and west, in this order.
pub fn count_cars_by_direction(cars: &Vec<Car>) -> (counts: [usize; 4])
    ensures
        tally(counts@) == census(cars@),
{
    let mut north: usize = 0;
    let mut east: usize = 0;
    let mut south: usize = 0;
    let mut west: usize = 0;
    let mut i: usize = 0;
    while i < cars.len()
        invariant
            i <= cars.len(),
            north == count_from(cars@.take(i as int), Direction::North),
            east == count_from(cars@.take(i as int), Direction::East),
            south == count_from(cars@.take(i as int), Direction::South),
            west == count_from(cars@.take(i as int), Direction::West),
        decreases cars.len() - i,
    {
        proof {
            let next = cars@.take(i + 1);
            assert(next.drop_last() == cars@.take(i as int));
            assert(next.last() == cars@[i as int]);
            lemma_census_total(cars@.take(i as int));
        }
        match cars[i].start_direction {
            Direction::North => {
                north += 1;
            },
            Direction::East => {
                east += 1;
            },
            Direction::South => {
                south += 1;
            },
            Direction::West => {
                west += 1;
            },
        }
        i += 1;
    }
    assert(cars@.take(i as int) == cars@);
    let counts: [usize; 4] = [north, east, south, west];
    assert(tally(counts@) =~= census(cars@));
    counts
}

/// The busiest place of a census: the place of the largest count, and of
/// the last of them where several are equal.
pub fn busiest_of(counts: &[usize; 4]) -> (r: usize)
    ensures
        r < 4,
        r == busiest_index(tally(counts@)),
        is_busiest(tally(counts@), r as int),
        forall|j: int| 0 <= j < 4 ==> counts@[j] <= counts@[r as int],
        forall|j: int| r < j < 4 ==> counts@[j] < counts@[r as int],
{
    let mut max_index: usize = 0;
    let mut max_count: usize = counts[0];
    let mut i: usize = 1;
    while i < 4
        invariant
            1 <= i <= 4,
            max_index < i,
            max_count == counts@[max_index as int],
            forall|j: int| 0 <= j < i ==> counts@[j] <= max_count,
            forall|j: int| max_index < j < i ==> counts@[j] < max_count,
        decreases 4 - i,
    {
        if counts[i] > max_count {
            max_count = counts[i];
            max_index = i;
        } else if max_count == counts[i] {
            max_index = i;
        }
        i += 1;
    }
    proof {
        assert(is_busiest(tally(counts@), max_index as int));
        lemma_busiest_index(tally(counts@));
    }
    max_index
}

/// The busiest approach among `cars`, as a place of the census.
pub fn find_busiest_direction(cars: &Vec<Car>) -> (r: usize)
    ensures
        r < 4,
        r == busiest_index(census(cars@)),
        is_busiest(census(cars@), r as int),
{
    let counts = count_cars_by_direction(cars);
    busiest_of(&counts)
}

/// Whether `car` travels on the heading `direction` and is not yet clear of
/// the place `start_pos` where vehicles enter that lane. A vehicle that has
/// turned belongs to the lane it travels in now, not to the one it entered
/// by.
pub open spec fn crowds_entry(car: Car, direction: Direction, start_pos: Point) -> bool {
    &&& car.heading == direction
    &&& direction.spec_along(car.position) - direction.spec_along(start_pos) < SPAWN_CLEARANCE
}

/// Whether the lane of `direction` is full: some vehicle that travels on
/// that heading is not yet clear of `start_pos`.
pub open spec fn lane_full(cars: Seq<Car>, direction: Direction, start_pos: Point) -> bool {
    exists|i: int| 0 <= i < cars.len() && crowds_entry(#[trigger] cars[i], direction, start_pos)
}

/// Whether the lane of `direction` is too full to take a vehicle at
/// `start_pos`.
pub fn is_lane_full(cars: &Vec<Car>, direction: Direction, start_pos: Point) -> (full: bool)
    ensures
        full == lane_full(cars@, direction, start_pos),
{
    let mut i: usize = 0;
    while i < cars.len()
        invariant
            i <= cars.len(),
            forall|j: int| 0 <= j < i ==> !crowds_entry(#[trigger] cars@[j], direction, start_pos),
        decreases cars.len() - i,
    {
        let car = cars[i];
        if car.heading == direction {
            let travelled: i64 = direction.along(car.position) - direction.along(start_pos);
            if travelled < SPAWN_CLEARANCE {
                assert(crowds_entry(cars@[i as int], direction, start_pos));
                return true;
            }
        }
        i += 1;
    }
    false
}

} // verus!

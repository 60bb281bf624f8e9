//! The cap on how many trips a driver may have under way at once.

use crate::drivers::VehicleType;
use crate::trips::{Trip, TripStatus};
use vstd::prelude::*;

verus! {

/// Trips a driver may have under way at once: two on a bike, one otherwise.
#[verifier::when_used_as_spec(cap_for_spec)]
pub fn cap_for(vehicle_type: VehicleType) -> (cap: u64)
    ensures
        cap == cap_for_spec(vehicle_type),
{
    match vehicle_type {
        VehicleType::Bike => 2,
        _ => 1,
    }
}

pub open spec fn cap_for_spec(vehicle_type: VehicleType) -> u64 {
    match vehicle_type {
        VehicleType::Bike => 2,
        _ => 1,
    }
}

/// Whether a driver with `ongoing` trips under way may take one more.
#[verifier::when_used_as_spec(within_cap_spec)]
pub fn within_cap(ongoing: u64, vehicle_type: VehicleType) -> (ok: bool)
    ensures
        ok == within_cap_spec(ongoing, vehicle_type),
{
    ongoing < cap_for(vehicle_type)
}

pub open spec fn within_cap_spec(ongoing: u64, vehicle_type: VehicleType) -> bool {
    ongoing < cap_for_spec(vehicle_type)
}

/// Whether a trip counts against a driver's cap: it is the driver's and it
/// is under way.
pub open spec fn counts_against(trip: Trip, driver_id: u128) -> bool {
    trip.driver_id == driver_id && trip.status == TripStatus::Ongoing
}

/// The number of trips a driver has under way among the stored trips.
pub open spec fn ongoing_count(trips: Seq<Trip>, driver_id: u128) -> nat
    decreases trips.len(),
{
    if trips.len() == 0 {
        0
    } else {
        ongoing_count(trips.drop_last(), driver_id) + if counts_against(trips.last(), driver_id) {
            1nat
        } else {
            0nat
        }
    }
}

/// No driver has more trips under way than the cap of the driver's vehicle
/// class allows.
pub open spec fn respects_caps(trips: Seq<Trip>, class_of: spec_fn(u128) -> VehicleType) -> bool {
    forall|d: u128| #[trigger] ongoing_count(trips, d) <= cap_for_spec(class_of(d))
}

/// Accepting a trip: it is stored if its driver has room for one more, and
/// turned away otherwise.
pub open spec fn take_in(trips: Seq<Trip>, trip: Trip, class_of: spec_fn(u128) -> VehicleType) -> Seq<
    Trip,
> {
    if ongoing_count(trips, trip.driver_id) < cap_for_spec(class_of(trip.driver_id)) {
        trips.push(trip)
    } else {
        trips
    }
}

/// Accepting one trip after another, in the order in which they arrive.
pub open spec fn take_in_all(
    trips: Seq<Trip>,
    arrivals: Seq<Trip>,
    class_of: spec_fn(u128) -> VehicleType,
) -> Seq<Trip>
    decreases arrivals.len(),
{
    if arrivals.len() == 0 {
        trips
    } else {
        take_in(take_in_all(trips, arrivals.drop_last(), class_of), arrivals.last(), class_of)
    }
}

/// Counts the trips a driver has under way.
pub fn get_ongoing_trips_count(trips: &Vec<Trip>, driver_uuid: u128) -> (count: u64)
    ensures
        count == ongoing_count(trips@, driver_uuid),
{
    let mut count: u64 = 0;
    let mut i: usize = 0;
    while i < trips.len()
        invariant
            i <= trips@.len(),
            count <= i,
            count == ongoing_count(trips@.take(i as int), driver_uuid),
        decreases trips@.len() - i,
    {
        assert(trips@.take(i + 1).drop_last() =~= trips@.take(i as int));
        if trips[i].driver_id == driver_uuid {
            match trips[i].status {
                TripStatus::Ongoing => {
                    count += 1;
                },
                _ => {},
            }
        }
        i += 1;
    }
    assert(trips@.take(i as int) =~= trips@);
    count
}

/// Storing one more trip raises the count of its driver by one if the trip
/// is under way, and changes no other count.
pub proof fn lemma_count_after_push(trips: Seq<Trip>, trip: Trip, driver_id: u128)
    ensures
        ongoing_count(trips.push(trip), driver_id) == ongoing_count(trips, driver_id) + if counts_against(
            trip,
            driver_id,
        ) {
            1nat
        } else {
            0nat
        },
{
    assert(trips.push(trip).drop_last() =~= trips);
}

/// The cap holds after every acceptance: if no driver is over the cap and a
/// trip is accepted only while its driver has room, no driver is over the
/// cap afterwards.
pub proof fn lemma_acceptance_keeps_caps(
    trips: Seq<Trip>,
    trip: Trip,
    class_of: spec_fn(u128) -> VehicleType,
)
    requires
        respects_caps(trips, class_of),
    ensures
        respects_caps(take_in(trips, trip, class_of), class_of),
{
    assert forall|d: u128| #[trigger]
        ongoing_count(take_in(trips, trip, class_of), d) <= cap_for_spec(class_of(d)) by {
        lemma_count_after_push(trips, trip, d);
        assert(ongoing_count(trips, d) <= cap_for_spec(class_of(d)));
    }
}

/// The cap holds however the acceptances of concurrent searches fall one
/// after another, also where several of them are for the same driver.
pub proof fn lemma_caps_hold_in_any_order(
    trips: Seq<Trip>,
    arrivals: Seq<Trip>,
    class_of: spec_fn(u128) -> VehicleType,
)
    requires
        respects_caps(trips, class_of),
    ensures
        respects_caps(take_in_all(trips, arrivals, class_of), class_of),
    decreases arrivals.len(),
{
    if arrivals.len() > 0 {
        lemma_caps_hold_in_any_order(trips, arrivals.drop_last(), class_of);
        lemma_acceptance_keeps_caps(
            take_in_all(trips, arrivals.drop_last(), class_of),
            arrivals.last(),
            class_of,
        );
    }
}

} // verus!

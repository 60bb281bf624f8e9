//! Ride requests and what a rider is told once a driver has been found.

use crate::bindings::fresh_id;
use crate::drivers::DriverInfo;
use crate::geo::GeoPoint;
use crate::items::ItemDetails;
use vstd::prelude::*;

verus! {

/// The class of ride asked for.
#[derive(Debug, Clone, Copy, PartialEq, Eq, Structural)]
pub enum RideType {
    ASAP,
    ASAPEXPRESS,
}

/// What a rider sends to ask for a ride.
#[derive(Debug, Clone, PartialEq, Eq)]
pub struct CreateRideRequest {
    pub rider_id: u128,
    pub pick_up: GeoPoint,
    pub drop_off: GeoPoint,
    pub ride_type: RideType,
    pub payment_method: String,
    pub items: Vec<ItemDetails>,
}

/// The figures priced for a ride: the way in metres, the time in minutes and
/// the price.
#[derive(Debug, Clone, Copy, PartialEq, Eq, Structural)]
pub struct Quote {
    pub distance_m: u64,
    pub estimated_time_min: i32,
    pub estimated_price: i64,
}

/// A ride request about to be stored.
#[derive(Debug, Clone, PartialEq, Eq)]
pub struct NewRideRequest {
    pub request_id: u128,
    pub rider_id: u128,
    pub pick_up: GeoPoint,
    pub drop_off: GeoPoint,
    pub estimated_price: i64,
    pub distance_m: u64,
    pub estimated_time_min: i32,
    pub ride_type: RideType,
    pub items: Vec<ItemDetails>,
    pub payment_method: String,
}

/// A stored ride request. It does not change once it exists.
#[derive(Debug, Clone, PartialEq, Eq)]
pub struct RideRequest {
    pub request_id: u128,
    pub rider_id: u128,
    pub pick_up: GeoPoint,
    pub drop_off: GeoPoint,
    pub estimated_price: i64,
    pub distance_m: u64,
    pub estimated_time_min: i32,
    pub ride_type: RideType,
    pub items: Vec<ItemDetails>,
    pub payment_method: String,
}

/// What the rider is told when a driver has taken the ride.
#[derive(Debug, Clone, PartialEq, Eq)]
pub struct RideAssignment {
    pub estimated_arrival: String,
    pub estimated_time_min: i32,
    pub estimated_price: i64,
    pub validation_status: String,
    pub driver_assigned: Option<DriverInfo>,
    pub message: Option<String>,
    pub cancel_ride: Option<Vec<String>>,
}

impl NewRideRequest {
    /// The request as stored, under a given identifier and with given figures.
    pub fn assemble(req: CreateRideRequest, request_id: u128, quote: Quote) -> (stored: Self)
        ensures
            stored == (NewRideRequest {
                request_id,
                rider_id: req.rider_id,
                pick_up: req.pick_up,
                drop_off: req.drop_off,
                estimated_price: quote.estimated_price,
                distance_m: quote.distance_m,
                estimated_time_min: quote.estimated_time_min,
                ride_type: req.ride_type,
                items: req.items,
                payment_method: req.payment_method,
            }),
    {
        Self {
            request_id,
            rider_id: req.rider_id,
            pick_up: req.pick_up,
            drop_off: req.drop_off,
            estimated_price: quote.estimated_price,
            distance_m: quote.distance_m,
            estimated_time_min: quote.estimated_time_min,
            ride_type: req.ride_type,
            items: req.items,
            payment_method: req.payment_method,
        }
    }

    /// The request as stored, under a fresh identifier.
    pub fn new(req: CreateRideRequest, quote: Quote) -> (stored: Self)
        ensures
            stored == (NewRideRequest {
                request_id: stored.request_id,
                rider_id: req.rider_id,
                pick_up: req.pick_up,
                drop_off: req.drop_off,
                estimated_price: quote.estimated_price,
                distance_m: quote.distance_m,
                estimated_time_min: quote.estimated_time_min,
                ride_type: req.ride_type,
                items: req.items,
                payment_method: req.payment_method,
            }),
    {
        let request_id: u128 = fresh_id();
        Self::assemble(req, request_id, quote)
    }

    /// The same request, read back from storage.
    pub fn stored(self) -> (request: RideRequest)
        ensures
            request == (RideRequest {
                request_id: self.request_id,
                rider_id: self.rider_id,
                pick_up: self.pick_up,
                drop_off: self.drop_off,
                estimated_price: self.estimated_price,
                distance_m: self.distance_m,
                estimated_time_min: self.estimated_time_min,
                ride_type: self.ride_type,
                items: self.items,
                payment_method: self.payment_method,
            }),
    {
        RideRequest {
            request_id: self.request_id,
            rider_id: self.rider_id,
            pick_up: self.pick_up,
            drop_off: self.drop_off,
            estimated_price: self.estimated_price,
            distance_m: self.distance_m,
            estimated_time_min: self.estimated_time_min,
            ride_type: self.ride_type,
            items: self.items,
            payment_method: self.payment_method,
        }
    }
}

/// The reasons a rider may give for calling a ride off.
pub open spec fn cancel_reasons_spec() -> Seq<Seq<char>> {
    seq![
        "Change of plans"@,
        "Driver taking too long"@,
        "Found alternate transport"@,
        "Incorrect destination"@,
    ]
}

/// The texts of a list of strings.
pub open spec fn texts(list: Seq<String>) -> Seq<Seq<char>> {
    list.map_values(|s: String| s@)
}

pub fn cancel_reasons() -> (reasons: Vec<String>)
    ensures
        texts(reasons@) == cancel_reasons_spec(),
{
    let mut reasons: Vec<String> = Vec::new();
    reasons.push("Change of plans".to_owned());
    reasons.push("Driver taking too long".to_owned());
    reasons.push("Found alternate transport".to_owned());
    reasons.push("Incorrect destination".to_owned());
    assert(texts(reasons@) =~= cancel_reasons_spec());
    reasons
}

impl RideAssignment {
    /// What the rider of `request` is told when `driver` has taken the ride.
    pub open spec fn is_confirmation_of(
        self,
        request: RideRequest,
        estimated_arrival: String,
        driver: DriverInfo,
    ) -> bool {
        &&& self.estimated_arrival == estimated_arrival
        &&& self.estimated_time_min == request.estimated_time_min
        &&& self.estimated_price == request.estimated_price
        &&& self.validation_status@ == "driver is on his way."@
        &&& self.driver_assigned == Some(driver)
        &&& self.message matches Some(m) && m@ == "your package will be with you shortly."@
        &&& self.cancel_ride matches Some(reasons) && texts(reasons@) == cancel_reasons_spec()
    }

    pub fn confirmed(request: &RideRequest, estimated_arrival: String, driver: DriverInfo) -> (told:
        Self)
        ensures
            told.is_confirmation_of(*request, estimated_arrival, driver),
    {
        Self {
            estimated_arrival,
            estimated_time_min: request.estimated_time_min,
            estimated_price: request.estimated_price,
            validation_status: "driver is on his way.".to_owned(),
            driver_assigned: Some(driver),
            message: Some("your package will be with you shortly.".to_owned()),
            cancel_ride: Some(cancel_reasons()),
        }
    }
}

} // verus!

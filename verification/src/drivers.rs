//! Drivers, what they drive, and how their replies to a ride offer are read.

use crate::geo::GeoPoint;
use crate::limiter::within_cap;
use crate::riders::RideType;
use vstd::prelude::*;

verus! {

/// The class of vehicle a driver uses.
#[derive(Debug, Clone, Copy, PartialEq, Eq, Structural)]
pub enum VehicleType {
    EV,
    Bike,
    Other,
}

/// Whether a driver can be offered rides.
#[derive(Debug, Clone, Copy, PartialEq, Eq, Structural)]
pub enum DriverStatus {
    Available,
    Busy,
    Offline,
}

/// What became of one ride offer.
#[derive(Debug, Clone, Copy, PartialEq, Eq, Structural)]
pub enum DriverResponse {
    Accepted,
    Rejected,
    Timeout,
}

/// What a rider is told about the driver who took the ride.
#[derive(Debug, Clone, PartialEq, Eq)]
pub struct DriverInfo {
    pub name: String,
    pub phone: String,
    pub vehicle: Option<String>,
    pub license_number: Option<String>,
}

#[derive(Debug, Clone, PartialEq, Eq)]
pub struct Driver {
    pub driver_id: u128,
    pub driver_pubkey: String,
    pub name: String,
    pub email: String,
    pub phone: String,
    pub status: DriverStatus,
    pub driver_location: GeoPoint,
    pub license_number: Option<String>,
    pub vehicle_type: VehicleType,
    pub driver_response: DriverResponse,
    pub vehicle: Option<String>,
}

/// A driver's reply as it arrives: the answer is still free text.
#[derive(Debug, Clone, PartialEq, Eq)]
pub struct DriverResponsePayload {
    pub driver_id: u128,
    pub rider_id: u128,
    pub response: String,
}

/// A driver's reply once it has been read.
#[derive(Debug, Clone, PartialEq, Eq)]
pub enum DriverResponsePayloadOut {
    Accepted { rider_id: u128, driver_id: u128, message: String },
    Rejected { driver_id: u128 },
}

/// Why a driver's reply is turned away.
#[derive(Debug, Clone, Copy, PartialEq, Eq, Structural)]
pub enum ResponseError {
    /// A bike already carries two trips.
    BikeLimit,
    /// Any other vehicle already carries one trip.
    StandardLimit,
    /// The answer is neither `accepted` nor `rejected`.
    InvalidResponse,
}

/// Why a driver's account cannot be used.
#[derive(Debug, Clone, Copy, PartialEq, Eq, Structural)]
pub enum AccountError {
    NotAvailable,
}

impl ResponseError {
    /// The sentence that tells the driver why the reply is turned away.
    pub open spec fn message_spec(self) -> Seq<char> {
        match self {
            ResponseError::BikeLimit => "Bike drivers can only handle 2 ongoing trips"@,
            ResponseError::StandardLimit => "Standard drivers can only handle 1 ongoing trip"@,
            ResponseError::InvalidResponse => "Invalid response"@,
        }
    }

    pub fn message(&self) -> (text: String)
        ensures
            text@ == self.message_spec(),
    {
        match self {
            ResponseError::BikeLimit => "Bike drivers can only handle 2 ongoing trips".to_owned(),
            ResponseError::StandardLimit => "Standard drivers can only handle 1 ongoing trip".to_owned(),
            ResponseError::InvalidResponse => "Invalid response".to_owned(),
        }
    }
}

impl AccountError {
    pub fn message(&self) -> (text: String)
        ensures
            text@ == "Driver account is not available"@,
    {
        "Driver account is not available".to_owned()
    }
}

/// The vehicle class that serves a ride class.
pub open spec fn vehicle_for(ride_type: RideType) -> VehicleType {
    match ride_type {
        RideType::ASAP => VehicleType::EV,
        RideType::ASAPEXPRESS => VehicleType::Bike,
    }
}

/// The same, computed.
pub fn vehicle_filter(ride_type: RideType) -> (vehicle: VehicleType)
    ensures
        vehicle == vehicle_for(ride_type),
{
    match ride_type {
        RideType::ASAP => VehicleType::EV,
        RideType::ASAPEXPRESS => VehicleType::Bike,
    }
}

/// Whether a text reads exactly as a given word.
pub fn text_is(text: &String, word: &str) -> (same: bool)
    ensures
        same == (text@ == word@),
{
    let owned: String = word.to_owned();
    *text == owned
}

impl VehicleType {
    /// The vehicle class that a stored label stands for: `EV`, `Bike`, or,
    /// for any other label, `Other`.
    pub open spec fn of_label(label: Seq<char>) -> VehicleType {
        if label == "EV"@ {
            VehicleType::EV
        } else if label == "Bike"@ {
            VehicleType::Bike
        } else {
            VehicleType::Other
        }
    }

    pub fn from_label(label: &String) -> (vehicle: VehicleType)
        ensures
            vehicle == Self::of_label(label@),
    {
        if text_is(label, "EV") {
            VehicleType::EV
        } else if text_is(label, "Bike") {
            VehicleType::Bike
        } else {
            VehicleType::Other
        }
    }

    /// The label under which the directory is asked for this class.
    pub fn label(&self) -> (text: String)
        ensures
            text@ == (match *self {
                VehicleType::EV => "EV"@,
                VehicleType::Bike => "Bike"@,
                VehicleType::Other => "Other"@,
            }),
    {
        match self {
            VehicleType::EV => "EV".to_owned(),
            VehicleType::Bike => "Bike".to_owned(),
            VehicleType::Other => "Other".to_owned(),
        }
    }
}

impl DriverStatus {
    /// The status that a stored label stands for: `available`, `busy`, or,
    /// for any other label, offline.
    pub open spec fn of_label(label: Seq<char>) -> DriverStatus {
        if label == "available"@ {
            DriverStatus::Available
        } else if label == "busy"@ {
            DriverStatus::Busy
        } else {
            DriverStatus::Offline
        }
    }

    pub fn from_label(label: &String) -> (status: DriverStatus)
        ensures
            status == Self::of_label(label@),
    {
        if text_is(label, "available") {
            DriverStatus::Available
        } else if text_is(label, "busy") {
            DriverStatus::Busy
        } else {
            DriverStatus::Offline
        }
    }

    /// The label under which this status is stored.
    pub fn label(&self) -> (text: String)
        ensures
            text@ == (match *self {
                DriverStatus::Available => "available"@,
                DriverStatus::Busy => "busy"@,
                DriverStatus::Offline => "offline"@,
            }),
    {
        match self {
            DriverStatus::Available => "available".to_owned(),
            DriverStatus::Busy => "busy".to_owned(),
            DriverStatus::Offline => "offline".to_owned(),
        }
    }
}

impl DriverResponsePayloadOut {
    /// The driver who replied and what the reply amounts to.
    pub open spec fn outcome_spec(self) -> (u128, DriverResponse) {
        match self {
            DriverResponsePayloadOut::Accepted { driver_id, .. } => (
                driver_id,
                DriverResponse::Accepted,
            ),
            DriverResponsePayloadOut::Rejected { driver_id } => (
                driver_id,
                DriverResponse::Rejected,
            ),
        }
    }

    pub fn outcome(&self) -> (res: (u128, DriverResponse))
        ensures
            res == self.outcome_spec(),
    {
        match self {
            DriverResponsePayloadOut::Accepted { driver_id, .. } => (
                *driver_id,
                DriverResponse::Accepted,
            ),
            DriverResponsePayloadOut::Rejected { driver_id } => (
                *driver_id,
                DriverResponse::Rejected,
            ),
        }
    }
}

impl Driver {
    /// The vehicle classes that may serve a ride class: exactly one.
    pub fn allowed_vehicle_types(&self, ride_type: RideType) -> (allowed: Vec<VehicleType>)
        ensures
            allowed@ == seq![vehicle_for(ride_type)],
    {
        let mut allowed: Vec<VehicleType> = Vec::new();
        allowed.push(vehicle_filter(ride_type));
        assert(allowed@ =~= seq![vehicle_for(ride_type)]);
        allowed
    }

    /// Whether this driver's vehicle serves the ride class.
    pub fn can_take_ride(&self, ride_type: RideType) -> (can: bool)
        ensures
            can == (self.vehicle_type == vehicle_for(ride_type)),
    {
        self.vehicle_type == vehicle_filter(ride_type)
    }

    /// Where the driver was last seen.
    pub fn location(&self) -> (place: GeoPoint)
        ensures
            place == self.driver_location,
    {
        self.driver_location.duplicate()
    }

    /// What a rider is told about this driver.
    pub open spec fn info_spec(self) -> DriverInfo {
        DriverInfo {
            name: self.name,
            phone: self.phone,
            vehicle: self.vehicle,
            license_number: self.license_number,
        }
    }

    pub fn info(&self) -> (info: DriverInfo)
        ensures
            info == self.info_spec(),
    {
        DriverInfo {
            name: self.name.clone(),
            phone: self.phone.clone(),
            vehicle: self.vehicle.clone(),
            license_number: self.license_number.clone(),
        }
    }
}

/// Lets a driver through only if the account is available.
pub fn verify_driver_account(driver: Driver) -> (res: Result<Driver, AccountError>)
    ensures
        driver.status == DriverStatus::Available ==> res == Ok::<Driver, AccountError>(driver),
        driver.status != DriverStatus::Available ==> res == Err::<Driver, AccountError>(
            AccountError::NotAvailable,
        ),
{
    match driver.status {
        DriverStatus::Available => Ok(driver),
        _ => Err(AccountError::NotAvailable),
    }
}

/// What the reading of a reply must come to: the trip cap is looked at
/// first, then the answer itself.
pub open spec fn reply_reading(
    driver: Driver,
    ongoing_trip_count: u64,
    payload: DriverResponsePayload,
    res: Result<DriverResponsePayloadOut, ResponseError>,
) -> bool {
    if !within_cap(ongoing_trip_count, driver.vehicle_type) {
        res == Err::<DriverResponsePayloadOut, ResponseError>(
            if driver.vehicle_type == VehicleType::Bike {
                ResponseError::BikeLimit
            } else {
                ResponseError::StandardLimit
            },
        )
    } else if payload.response@ == "accepted"@ {
        res matches Ok(
            DriverResponsePayloadOut::Accepted { rider_id, driver_id, message },
        ) && rider_id == payload.rider_id && driver_id == driver.driver_id && message@
            == "Ride confirmed"@
    } else if payload.response@ == "rejected"@ {
        res == Ok::<DriverResponsePayloadOut, ResponseError>(
            DriverResponsePayloadOut::Rejected { driver_id: driver.driver_id },
        )
    } else {
        res == Err::<DriverResponsePayloadOut, ResponseError>(ResponseError::InvalidResponse)
    }
}

/// Reads a driver's reply, given the driver's record and the number of trips
/// the driver has under way.
pub fn read_driver_response(
    driver: &Driver,
    ongoing_trip_count: u64,
    payload: &DriverResponsePayload,
) -> (res: Result<DriverResponsePayloadOut, ResponseError>)
    ensures
        reply_reading(*driver, ongoing_trip_count, *payload, res),
{
    if !within_cap(ongoing_trip_count, driver.vehicle_type) {
        match driver.vehicle_type {
            VehicleType::Bike => { return Err(ResponseError::BikeLimit); },
            _ => { return Err(ResponseError::StandardLimit); },
        }
    }
    if text_is(&payload.response, "accepted") {
        Ok(
            DriverResponsePayloadOut::Accepted {
                rider_id: payload.rider_id,
                driver_id: driver.driver_id,
                message: "Ride confirmed".to_owned(),
            },
        )
    } else if text_is(&payload.response, "rejected") {
        Ok(DriverResponsePayloadOut::Rejected { driver_id: driver.driver_id })
    } else {
        Err(ResponseError::InvalidResponse)
    }
}

} // verus!

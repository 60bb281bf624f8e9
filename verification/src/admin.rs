//! Enrolling riders and drivers.

use crate::bindings::{fresh_id, unique_pubkey_text};
use crate::drivers::{DriverResponse, DriverStatus, VehicleType};
use crate::geo::GeoPoint;
use vstd::prelude::*;

verus! {

/// What someone gives to become a rider.
#[derive(Debug, Clone, PartialEq, Eq)]
pub struct RiderRequest {
    pub name: String,
    pub email: String,
    pub phone: String,
}

#[derive(Debug, Clone, PartialEq, Eq)]
pub struct Rider {
    pub rider_id: u128,
    pub rider_pubkey: String,
    pub name: String,
    pub email: String,
    pub phone: String,
}

/// A rider about to be stored.
#[derive(Debug, Clone, PartialEq, Eq)]
pub struct NewRider {
    pub rider_id: u128,
    pub rider_pubkey: String,
    pub name: String,
    pub email: String,
    pub phone: String,
}

/// What someone gives to become a driver.
#[derive(Debug, Clone, PartialEq, Eq)]
pub struct DriverRequest {
    pub name: String,
    pub email: String,
    pub phone: String,
    pub license_number: Option<String>,
    pub vehicle_type: VehicleType,
    pub vehicle: Option<String>,
}

/// A driver about to be stored.
#[derive(Debug, Clone, PartialEq, Eq)]
pub struct NewDriver {
    pub driver_id: u128,
    pub driver_pubkey: String,
    pub name: String,
    pub email: String,
    pub phone: String,
    pub status: DriverStatus,
    pub driver_location: GeoPoint,
    pub license_number: Option<String>,
    pub vehicle_type: VehicleType,
    pub driver_response: DriverResponse,
    pub vehicle: Option<String>,
}

impl NewRider {
    /// The rider record for a request, under a given identifier and key.
    pub fn assemble(req: RiderRequest, rider_id: u128, rider_pubkey: String) -> (rider: Self)
        ensures
            rider == (NewRider {
                rider_id,
                rider_pubkey,
                name: req.name,
                email: req.email,
                phone: req.phone,
            }),
    {
        Self { rider_id, rider_pubkey, name: req.name, email: req.email, phone: req.phone }
    }

    /// The rider record for a request, under a fresh identifier and key.
    pub fn new(req: RiderRequest) -> (rider: Self)
        ensures
            rider.name == req.name,
            rider.email == req.email,
            rider.phone == req.phone,
    {
        let rider_id: u128 = fresh_id();
        let rider_pubkey: String = unique_pubkey_text();
        Self::assemble(req, rider_id, rider_pubkey)
    }
}

impl NewDriver {
    /// What every freshly enrolled driver starts with: available, placed at
    /// the origin under the label `Earth`, and with no reply on record.
    pub open spec fn is_enrolment_of(
        self,
        req: DriverRequest,
        driver_id: u128,
        driver_pubkey: String,
    ) -> bool {
        &&& self.driver_id == driver_id
        &&& self.driver_pubkey == driver_pubkey
        &&& self.name == req.name
        &&& self.email == req.email
        &&& self.phone == req.phone
        &&& self.status == DriverStatus::Available
        &&& self.driver_location.lat == 0
        &&& self.driver_location.lng == 0
        &&& self.driver_location.name matches Some(label) && label@ == "Earth"@
        &&& self.license_number == req.license_number
        &&& self.vehicle_type == req.vehicle_type
        &&& self.driver_response == DriverResponse::Timeout
        &&& self.vehicle == req.vehicle
    }

    /// The driver record for a request, under a given identifier and key.
    pub fn assemble(req: DriverRequest, driver_id: u128, driver_pubkey: String) -> (driver: Self)
        ensures
            driver.is_enrolment_of(req, driver_id, driver_pubkey),
    {
        Self {
            driver_id,
            driver_pubkey,
            name: req.name,
            email: req.email,
            phone: req.phone,
            status: DriverStatus::Available,
            driver_location: GeoPoint::new(0, 0, "Earth".to_owned()),
            license_number: req.license_number,
            vehicle_type: req.vehicle_type,
            driver_response: DriverResponse::Timeout,
            vehicle: req.vehicle,
        }
    }

    /// The driver record for a request, under a fresh identifier and key.
    pub fn new(req: DriverRequest) -> (driver: Self)
        ensures
            driver.is_enrolment_of(req, driver.driver_id, driver.driver_pubkey),
    {
        let driver_id: u128 = fresh_id();
        let driver_pubkey: String = unique_pubkey_text();
        Self::assemble(req, driver_id, driver_pubkey)
    }
}

} // verus!

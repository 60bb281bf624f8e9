//! A trip from the moment a driver takes it to the moment it ends.

use crate::admin::Rider;
use crate::bindings::{be_bytes, fresh_id, now_utc_secs, sha256, sha256_digest, uuid_text, uuid_to_text};
use crate::drivers::{text_is, Driver};
use crate::geo::GeoPoint;
use crate::items::ItemDetails;
use crate::riders::RideRequest;
use vstd::prelude::*;

verus! {

/// Settlement units paid per unit of the fare estimate.
pub const LAMPORTS_PER_NGN: i64 = 128;

/// Where a trip stands. `Completed` and `Cancelled` are final.
#[derive(Debug, Clone, Copy, PartialEq, Eq, Structural)]
pub enum TripStatus {
    Ongoing,
    Completed,
    Cancelled,
}

impl TripStatus {
    /// The label under which this status is stored.
    pub fn label(&self) -> (text: String)
        ensures
            text@ == (match *self {
                TripStatus::Ongoing => "ongoing"@,
                TripStatus::Completed => "completed"@,
                TripStatus::Cancelled => "cancelled"@,
            }),
    {
        match self {
            TripStatus::Ongoing => "ongoing".to_owned(),
            TripStatus::Completed => "completed".to_owned(),
            TripStatus::Cancelled => "cancelled".to_owned(),
        }
    }

    /// The status that a stored label stands for. Labels are read with or
    /// without a capital first letter; any other text stands for none.
    pub open spec fn of_label(label: Seq<char>) -> Option<TripStatus> {
        if label == "ongoing"@ || label == "Ongoing"@ {
            Some(TripStatus::Ongoing)
        } else if label == "completed"@ || label == "Completed"@ {
            Some(TripStatus::Completed)
        } else if label == "cancelled"@ || label == "Cancelled"@ {
            Some(TripStatus::Cancelled)
        } else {
            None
        }
    }

    pub fn from_label(label: &String) -> (status: Option<TripStatus>)
        ensures
            status == Self::of_label(label@),
    {
        if text_is(label, "ongoing") || text_is(label, "Ongoing") {
            Some(TripStatus::Ongoing)
        } else if text_is(label, "completed") || text_is(label, "Completed") {
            Some(TripStatus::Completed)
        } else if text_is(label, "cancelled") || text_is(label, "Cancelled") {
            Some(TripStatus::Cancelled)
        } else {
            None
        }
    }
}

/// What is drawn afresh for every new trip: its start time, in seconds since
/// the Unix epoch, and its reference.
#[derive(Debug, Clone, PartialEq, Eq)]
pub struct TripStamp {
    pub start_ts: i64,
    pub reference: String,
}

#[derive(Debug, Clone, PartialEq, Eq)]
pub struct Trip {
    pub trip_id: Vec<u8>,
    pub rider_id: u128,
    pub reference: String,
    pub pick_up: GeoPoint,
    pub drop_off: GeoPoint,
    pub driver_location: GeoPoint,
    pub rider_pubkey: String,
    pub driver_pubkey: String,
    pub driver_id: u128,
    pub status: TripStatus,
    pub start_ts: i64,
    pub end_ts: Option<i64>,
    pub distance_m: u64,
    pub item: Vec<ItemDetails>,
    pub fare_estimate: Option<i64>,
    pub fare_lamports: Option<i64>,
    pub rider_email: String,
}

/// The fare in settlement units for a fare estimate: the estimate times the
/// fixed rate, held within the range of a signed 64-bit number.
pub open spec fn fare_settlement(estimate: i64) -> i64 {
    let exact = estimate * LAMPORTS_PER_NGN;
    if exact > i64::MAX {
        i64::MAX
    } else if exact < i64::MIN {
        i64::MIN
    } else {
        exact as i64
    }
}

/// The fare at settlement, computed.
pub fn settle_fare(estimate: i64) -> (fare: i64)
    ensures
        fare == fare_settlement(estimate),
{
    if estimate > i64::MAX / LAMPORTS_PER_NGN {
        i64::MAX
    } else if estimate < i64::MIN / LAMPORTS_PER_NGN {
        i64::MIN
    } else {
        estimate * LAMPORTS_PER_NGN
    }
}

/// The fare a trip settles at: the one already fixed, or else the one its
/// estimate gives.
pub open spec fn fixed_fare(trip: Trip) -> Option<i64> {
    match trip.fare_lamports {
        Some(fare) => Some(fare),
        None => match trip.fare_estimate {
            Some(estimate) => Some(fare_settlement(estimate)),
            None => None,
        },
    }
}

/// The 32-byte trip identifier grown from a 128-bit seed.
pub open spec fn trip_id_of(seed: u128) -> Seq<u8> {
    sha256(be_bytes(seed))
}

/// The sixteen bytes of a number, most significant first.
pub fn to_be_bytes(value: u128) -> (bytes: Vec<u8>)
    ensures
        bytes@ == be_bytes(value),
{
    let le: Vec<u8> = vstd::bytes::u128_to_le_bytes(value);
    proof {
        vstd::bytes::lemma_auto_spec_u128_to_from_le_bytes();
    }
    let mut bytes: Vec<u8> = Vec::new();
    let mut i: usize = 0;
    while i < 16
        invariant
            i <= 16,
            le@.len() == 16,
            le@ == vstd::bytes::spec_u128_to_le_bytes(value),
            bytes@.len() == i,
            forall|j: int| 0 <= j < i ==> bytes@[j] == le@[15 - j],
        decreases 16 - i,
    {
        bytes.push(le[15 - i]);
        i += 1;
    }
    assert(bytes@ =~= le@.reverse());
    bytes
}

/// The trip identifier grown from a seed.
pub fn trip_id_for(seed: u128) -> (id: Vec<u8>)
    ensures
        id@ == trip_id_of(seed),
        id@.len() == 32,
{
    let seed_bytes: Vec<u8> = to_be_bytes(seed);
    let digest: [u8; 32] = sha256_digest(seed_bytes.as_slice());
    let mut id: Vec<u8> = Vec::new();
    let mut i: usize = 0;
    while i < 32
        invariant
            i <= 32,
            id@ == digest@.subrange(0, i as int),
        decreases 32 - i,
    {
        id.push(digest[i]);
        assert(id@ =~= digest@.subrange(0, i + 1));
        i += 1;
    }
    assert(id@ =~= digest@);
    id
}

impl Trip {
    /// What a trip looks like when it has just been made from the driver who
    /// took it, the rider and the request: under way, not yet ended, priced
    /// as the request was, its fare not yet fixed and its identifier empty.
    pub open spec fn is_new_for(
        self,
        drv: Driver,
        rdr: Rider,
        req: RideRequest,
        stamp: TripStamp,
    ) -> bool {
        &&& self.trip_id@ == Seq::<u8>::empty()
        &&& self.rider_id == rdr.rider_id
        &&& self.reference == stamp.reference
        &&& self.pick_up == req.pick_up
        &&& self.drop_off == req.drop_off
        &&& self.driver_location == drv.driver_location
        &&& self.rider_pubkey == rdr.rider_pubkey
        &&& self.driver_pubkey == drv.driver_pubkey
        &&& self.driver_id == drv.driver_id
        &&& self.status == TripStatus::Ongoing
        &&& self.start_ts == stamp.start_ts
        &&& self.end_ts == None::<i64>
        &&& self.distance_m == req.distance_m
        &&& self.item == req.items
        &&& self.fare_estimate == Some(req.estimated_price)
        &&& self.fare_lamports == None::<i64>
        &&& self.rider_email == rdr.email
    }

    /// The trip for a driver, a rider and a request, with a given stamp.
    pub fn assemble(drv: Driver, rdr: Rider, req2: RideRequest, stamp: TripStamp) -> (trip: Self)
        ensures
            trip.is_new_for(drv, rdr, req2, stamp),
    {
        Self {
            trip_id: Vec::new(),
            rider_id: rdr.rider_id,
            reference: stamp.reference,
            pick_up: req2.pick_up,
            drop_off: req2.drop_off,
            driver_location: drv.driver_location,
            rider_pubkey: rdr.rider_pubkey,
            driver_pubkey: drv.driver_pubkey,
            driver_id: drv.driver_id,
            status: TripStatus::Ongoing,
            start_ts: stamp.start_ts,
            end_ts: None,
            distance_m: req2.distance_m,
            item: req2.items,
            fare_estimate: Some(req2.estimated_price),
            fare_lamports: None,
            rider_email: rdr.email,
        }
    }

    /// The trip for a driver, a rider and a request, starting now and under a
    /// fresh reference.
    pub fn new(drv: Driver, rdr: Rider, req2: RideRequest) -> (trip: Self)
        ensures
            trip.is_new_for(
                drv,
                rdr,
                req2,
                TripStamp { start_ts: trip.start_ts, reference: trip.reference },
            ),
            exists|id: u128| trip.reference@ == uuid_text(id),
    {
        let stamp: TripStamp = draw_stamp();
        Self::assemble(drv, rdr, req2, stamp)
    }

    /// Whether the driver stands at the drop-off point.
    pub open spec fn arrived(self) -> bool {
        self.driver_location.same_place_spec(self.drop_off)
    }

    /// The trip after the driver's place has been looked at, at time `now`:
    /// a trip under way whose driver stands at the drop-off point is
    /// completed, ends at `now` and has its fare fixed; any other trip stays
    /// as it is.
    pub open spec fn after_arrival_check(self, now: i64) -> Trip {
        if self.status == TripStatus::Ongoing && self.arrived() {
            Trip {
                status: TripStatus::Completed,
                end_ts: Some(now),
                fare_lamports: fixed_fare(self),
                ..self
            }
        } else {
            self
        }
    }

    /// Looks at the driver's place at a given time.
    pub fn check_arrival(&mut self, now: i64)
        ensures
            *final(self) == old(self).after_arrival_check(now),
    {
        match self.status {
            TripStatus::Ongoing => {
                if self.driver_location.same_place(&self.drop_off) {
                    self.status = TripStatus::Completed;
                    self.end_ts = Some(now);
                    self.compute_fare_lamports();
                }
            },
            _ => {},
        }
    }

    /// Looks at the driver's place now.
    pub fn update_status(&mut self)
        ensures
            exists|now: i64| *final(self) == #[trigger] old(self).after_arrival_check(now),
    {
        let now: i64 = now_utc_secs();
        self.check_arrival(now);
    }

    /// Fixes the fare in settlement units. A fare that is already fixed is
    /// never computed again; without an estimate there is nothing to fix.
    pub fn compute_fare_lamports(&mut self)
        ensures
            *final(self) == (Trip { fare_lamports: fixed_fare(*old(self)), ..*old(self) }),
    {
        if self.fare_lamports.is_none() {
            if let Some(estimate) = self.fare_estimate {
                self.fare_lamports = Some(settle_fare(estimate));
            }
        }
    }

    /// Calls the trip off. Only a trip under way can be called off.
    pub fn cancel(&mut self)
        ensures
            old(self).status == TripStatus::Ongoing ==> *final(self) == (Trip {
                status: TripStatus::Cancelled,
                ..*old(self)
            }),
            old(self).status != TripStatus::Ongoing ==> *final(self) == *old(self),
    {
        match self.status {
            TripStatus::Ongoing => {
                self.status = TripStatus::Cancelled;
            },
            _ => {},
        }
    }

    /// The trip as it is first stored: under way, and under the identifier
    /// grown from `seed`.
    pub fn filed_under(self, seed: u128) -> (trip: Self)
        ensures
            trip.trip_id@ == trip_id_of(seed),
            trip.trip_id@.len() == 32,
            trip == (Trip { trip_id: trip.trip_id, status: TripStatus::Ongoing, ..self }),
    {
        let mut trip: Trip = self;
        trip.trip_id = trip_id_for(seed);
        trip.status = TripStatus::Ongoing;
        trip
    }

    /// The trip as it is first stored, under an identifier grown from a fresh
    /// seed.
    pub fn filed(self) -> (trip: Self)
        ensures
            exists|seed: u128| trip.trip_id@ == trip_id_of(seed),
            trip.trip_id@.len() == 32,
            trip == (Trip { trip_id: trip.trip_id, status: TripStatus::Ongoing, ..self }),
    {
        let seed: u128 = fresh_id();
        self.filed_under(seed)
    }
}

/// The reference of the trip numbered `id`: the number as 32 hexadecimal
/// digits, lower case, in hyphenated groups of 8, 4, 4, 4 and 12.
pub fn reference_for(id: u128) -> (reference: String)
    ensures
        reference@ == uuid_text(id),
{
    uuid_to_text(id)
}

/// Draws the start time and the reference of a new trip.
pub fn draw_stamp() -> (stamp: TripStamp)
    ensures
        exists|id: u128| stamp.reference@ == uuid_text(id),
{
    let start_ts: i64 = now_utc_secs();
    let id: u128 = fresh_id();
    TripStamp { start_ts, reference: reference_for(id) }
}

} // verus!

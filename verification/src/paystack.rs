//! Opening a payment for a trip.

use crate::escrow::copy_bytes;
use crate::trips::Trip;
use vstd::prelude::*;

verus! {

/// Kobo in one naira.
pub const KOBO_PER_NAIRA: i64 = 100;

/// What is sent along with a payment so that it can be traced to its trip.
#[derive(Debug, Clone, PartialEq, Eq)]
pub struct PaymentMetadata {
    pub trip_id: Vec<u8>,
    pub driver_id: u128,
    pub rider_id: u128,
}

/// The request that opens a payment.
#[derive(Debug, Clone, PartialEq, Eq)]
pub struct PaystackInitRequest {
    pub email: String,
    /// The amount to pay, in kobo.
    pub amount: u64,
    pub reference: String,
    pub metadata: PaymentMetadata,
}

/// Why no payment can be opened for a trip.
#[derive(Debug, Clone, Copy, PartialEq, Eq, Structural)]
pub enum AmountError {
    /// The fare estimate is below zero.
    Negative,
    /// The fare estimate in kobo does not fit in 64 bits.
    TooLarge,
}

/// The fare estimate of a trip in naira; a trip without one costs nothing.
pub open spec fn fare_naira(trip: Trip) -> i64 {
    match trip.fare_estimate {
        Some(fare) => fare,
        None => 0,
    }
}

/// What opening a payment for a trip must come to: the request carries the
/// rider's address, the trip's reference and identifiers, and the fare in
/// kobo.
pub open spec fn is_payment_for(res: Result<PaystackInitRequest, AmountError>, trip: Trip) -> bool {
    let fare = fare_naira(trip);
    if fare < 0 {
        res == Err::<PaystackInitRequest, AmountError>(AmountError::Negative)
    } else if fare * KOBO_PER_NAIRA > i64::MAX {
        res == Err::<PaystackInitRequest, AmountError>(AmountError::TooLarge)
    } else {
        &&& res matches Ok(request)
        &&& request.email == trip.rider_email
        &&& request.amount == fare * KOBO_PER_NAIRA
        &&& request.reference == trip.reference
        &&& request.metadata.trip_id@ == trip.trip_id@
        &&& request.metadata.driver_id == trip.driver_id
        &&& request.metadata.rider_id == trip.rider_id
    }
}

/// The request that opens the payment for a trip.
pub fn init_request(trip: &Trip) -> (res: Result<PaystackInitRequest, AmountError>)
    ensures
        is_payment_for(res, *trip),
{
    let fare_ngn: i64 = match trip.fare_estimate {
        Some(fare) => fare,
        None => 0,
    };
    if fare_ngn < 0 {
        return Err(AmountError::Negative);
    }
    if fare_ngn > i64::MAX / KOBO_PER_NAIRA {
        return Err(AmountError::TooLarge);
    }
    let amount_kobo: i64 = fare_ngn * KOBO_PER_NAIRA;
    Ok(
        PaystackInitRequest {
            email: trip.rider_email.clone(),
            amount: amount_kobo as u64,
            reference: trip.reference.clone(),
            metadata: PaymentMetadata {
                trip_id: copy_bytes(&trip.trip_id),
                driver_id: trip.driver_id,
                rider_id: trip.rider_id,
            },
        },
    )
}

} // verus!

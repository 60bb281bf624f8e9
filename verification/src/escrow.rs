//! Preparing a paid trip for settlement: reading the payment notice,
//! splitting the amount, and turning the stored trip into the record that the
//! ledger takes.

use crate::bindings::{
    find_program_address, hex_encode, hex_text, parse_pubkey, program_address, pubkey_bytes,
    sha256, sha256_digest,
};
use crate::ride_program::RideInput;
use crate::trips::Trip;
use vstd::prelude::*;
use vstd::utf8::encode_utf8;

verus! {

/// Share of a payment that goes to the driver, in hundredths.
pub const DRIVER_SHARE_PERCENT: u64 = 80;

/// Why a stored value cannot enter a ledger record.
#[derive(Debug, Clone, Copy, PartialEq, Eq, Structural)]
pub enum ConvertError {
    /// A signed value below zero where an unsigned one is needed.
    Negative,
    /// A byte string that is not exactly 32 bytes long; `got` is its length.
    WrongLength { got: usize },
}

/// Why a trip cannot be settled.
#[derive(Debug, Clone, Copy, PartialEq, Eq, Structural)]
pub enum SettlementError {
    InvalidRiderPubkey,
    InvalidDriverPubkey,
    InvalidStartTs,
    EndTsRequired,
    InvalidEndTs,
    InvalidFare,
    InvalidFareEstimate,
    InvalidTripId,
}

impl SettlementError {
    /// The sentence that tells the payer what is wrong with the trip.
    pub open spec fn message_spec(self) -> Seq<char> {
        match self {
            SettlementError::InvalidRiderPubkey => "Invalid rider pubkey"@,
            SettlementError::InvalidDriverPubkey => "Invalid driver pubkey"@,
            SettlementError::InvalidStartTs => "Invalid start_ts"@,
            SettlementError::EndTsRequired => "end_ts is required"@,
            SettlementError::InvalidEndTs => "Invalid end_ts"@,
            SettlementError::InvalidFare => "Invalid fare"@,
            SettlementError::InvalidFareEstimate => "Invalid fare estimate"@,
            SettlementError::InvalidTripId => "Invalid trip_id"@,
        }
    }

    pub fn message(&self) -> (text: String)
        ensures
            text@ == self.message_spec(),
    {
        match self {
            SettlementError::InvalidRiderPubkey => "Invalid rider pubkey".to_owned(),
            SettlementError::InvalidDriverPubkey => "Invalid driver pubkey".to_owned(),
            SettlementError::InvalidStartTs => "Invalid start_ts".to_owned(),
            SettlementError::EndTsRequired => "end_ts is required".to_owned(),
            SettlementError::InvalidEndTs => "Invalid end_ts".to_owned(),
            SettlementError::InvalidFare => "Invalid fare".to_owned(),
            SettlementError::InvalidFareEstimate => "Invalid fare estimate".to_owned(),
            SettlementError::InvalidTripId => "Invalid trip_id".to_owned(),
        }
    }
}

/// A payment notice.
#[derive(Debug, Clone, PartialEq, Eq)]
pub struct PaystackWebhook {
    pub event: String,
    pub data: PaystackData,
}

#[derive(Debug, Clone, PartialEq, Eq)]
pub struct PaystackData {
    pub reference: String,
    /// The amount paid, in kobo.
    pub amount: u64,
    pub currency: String,
    pub id: i64,
    pub status: String,
    pub customer: PaystackCustomer,
}

#[derive(Debug, Clone, PartialEq, Eq)]
pub struct PaystackCustomer {
    pub email: String,
}

/// What the payer is told once the ride is on the ledger.
#[derive(Debug, Clone, PartialEq, Eq)]
pub struct SettlementReceipt {
    pub status: String,
    pub trip_id: String,
    pub rider: String,
    pub amount_kobo: u64,
}

/// What the driver and the treasury get of a payment.
#[derive(Debug, Clone, Copy, PartialEq, Eq, Structural)]
pub struct PaymentSplit {
    pub driver_share: u64,
    pub treasury_share: u64,
}

/// Converts a signed 64-bit value to unsigned, refusing negative values.
pub fn i64_to_u64(v: i64) -> (res: Result<u64, ConvertError>)
    ensures
        v >= 0 ==> res == Ok::<u64, ConvertError>(v as u64),
        v < 0 ==> res == Err::<u64, ConvertError>(ConvertError::Negative),
{
    if v < 0 {
        Err(ConvertError::Negative)
    } else {
        Ok(v as u64)
    }
}

/// Copies a byte vector into a 32-byte array, refusing any other length.
pub fn vec_to_array_32(v: Vec<u8>) -> (res: Result<[u8; 32], ConvertError>)
    ensures
        v@.len() == 32 ==> res is Ok && res->Ok_0@ == v@,
        v@.len() != 32 ==> res == Err::<[u8; 32], ConvertError>(
            ConvertError::WrongLength { got: v.len() },
        ),
{
    if v.len() != 32 {
        return Err(ConvertError::WrongLength { got: v.len() });
    }
    let mut arr: [u8; 32] = [0u8; 32];
    let mut i: usize = 0;
    while i < 32
        invariant
            i <= 32,
            v@.len() == 32,
            forall|j: int| 0 <= j < i ==> arr@[j] == v@[j],
        decreases 32 - i,
    {
        arr[i] = v[i];
        i += 1;
    }
    assert(arr@ =~= v@);
    Ok(arr)
}

/// An optional signed amount as an optional unsigned one; a negative amount
/// is refused, a missing one stays missing.
pub fn optional_amount(v: Option<i64>) -> (res: Result<Option<u64>, ConvertError>)
    ensures
        match v {
            None => res == Ok::<Option<u64>, ConvertError>(None),
            Some(a) => if a >= 0 {
                res == Ok::<Option<u64>, ConvertError>(Some(a as u64))
            } else {
                res == Err::<Option<u64>, ConvertError>(ConvertError::Negative)
            },
        },
{
    match v {
        None => Ok(None),
        Some(a) => match i64_to_u64(a) {
            Ok(u) => Ok(Some(u)),
            Err(e) => Err(e),
        },
    }
}

/// The key that a base58 text stands for, if it stands for one.
pub fn pubkey_from_string(s: &str) -> (key: Option<[u8; 32]>)
    ensures
        match key {
            Some(k) => pubkey_bytes(s@) == Some(k@),
            None => pubkey_bytes(s@) is None,
        },
{
    parse_pubkey(s)
}

/// Only the notice of a successful charge leads to settlement.
pub fn is_charge_success(payload: &PaystackWebhook) -> (yes: bool)
    ensures
        yes == (payload.event@ == "charge.success"@),
{
    let wanted: String = "charge.success".to_owned();
    payload.event == wanted
}

/// The driver gets eighty hundredths of the amount, rounded down; the
/// treasury gets the rest.
pub open spec fn split_of(amount_kobo: u64) -> PaymentSplit {
    PaymentSplit {
        driver_share: (amount_kobo * DRIVER_SHARE_PERCENT / 100) as u64,
        treasury_share: (amount_kobo - amount_kobo * DRIVER_SHARE_PERCENT / 100) as u64,
    }
}

pub fn split_payment(amount_kobo: u64) -> (split: PaymentSplit)
    ensures
        split == split_of(amount_kobo),
        split.driver_share + split.treasury_share == amount_kobo,
{
    let wide: u128 = (amount_kobo as u128) * (DRIVER_SHARE_PERCENT as u128) / 100;
    let driver_share: u64 = wide as u64;
    PaymentSplit { driver_share, treasury_share: amount_kobo - driver_share }
}

/// The digest that ties a ledger record to the payment: the SHA-256 digest of
/// the trip's reference.
pub fn escrow_tx_hash(reference: &str) -> (hash: [u8; 32])
    ensures
        hash@ == sha256(encode_utf8(reference@)),
{
    sha256_digest(reference.as_bytes())
}

/// The first thing that stands against settling a trip, if anything does,
/// given whether the texts of the rider's and the driver's key stand for a
/// key.
pub open spec fn settlement_refusal(trip: Trip, passenger_known: bool, driver_known: bool) -> Option<
    SettlementError,
> {
    if !passenger_known {
        Some(SettlementError::InvalidRiderPubkey)
    } else if !driver_known {
        Some(SettlementError::InvalidDriverPubkey)
    } else if trip.start_ts < 0 {
        Some(SettlementError::InvalidStartTs)
    } else if trip.end_ts is None {
        Some(SettlementError::EndTsRequired)
    } else if trip.end_ts->0 < 0 {
        Some(SettlementError::InvalidEndTs)
    } else if trip.fare_lamports matches Some(fare) && fare < 0 {
        Some(SettlementError::InvalidFare)
    } else if trip.fare_estimate matches Some(estimate) && estimate < 0 {
        Some(SettlementError::InvalidFareEstimate)
    } else if trip.trip_id@.len() != 32 {
        Some(SettlementError::InvalidTripId)
    } else {
        None
    }
}

/// An optional amount that is not negative, as an unsigned one.
pub open spec fn unsigned(amount: Option<i64>) -> Option<u64> {
    match amount {
        Some(a) => Some(a as u64),
        None => None,
    }
}

/// What the ledger is handed for a trip that can be settled.
pub open spec fn is_record_of(
    input: RideInput,
    trip: Trip,
    passenger: Seq<u8>,
    driver: Seq<u8>,
    hash: Seq<u8>,
    pick_up: String,
    drop_off: String,
) -> bool {
    &&& input.passenger@ == passenger
    &&& input.driver@ == driver
    &&& input.start_ts_program == trip.start_ts
    &&& trip.end_ts matches Some(end) && input.end_ts_program == end
    &&& input.pick_up == pick_up
    &&& input.drop_off == drop_off
    &&& input.distance_m == trip.distance_m
    &&& input.fare_lamports_program == unsigned(trip.fare_lamports)
    &&& input.fare_estimate_program == unsigned(trip.fare_estimate)
    &&& input.escrow_tx_hash@ == hash
}

/// Turns a stored trip into what the ledger is handed, from the keys as
/// they were read and the digest of the reference. The checks are made in a
/// fixed order and the first that fails decides the error.
pub fn assemble_ride_input(
    trip: &Trip,
    passenger: Option<[u8; 32]>,
    driver: Option<[u8; 32]>,
    hash: [u8; 32],
    pick_up: String,
    drop_off: String,
) -> (res: Result<([u8; 32], RideInput), SettlementError>)
    ensures
        match settlement_refusal(*trip, passenger is Some, driver is Some) {
            Some(e) => res == Err::<([u8; 32], RideInput), SettlementError>(e),
            None => res matches Ok((trip_id, input)) && trip_id@ == trip.trip_id@ && is_record_of(
                input,
                *trip,
                passenger->0@,
                driver->0@,
                hash@,
                pick_up,
                drop_off,
            ),
        },
{
    let passenger_key: [u8; 32] = match passenger {
        Some(k) => k,
        None => { return Err(SettlementError::InvalidRiderPubkey); },
    };
    let driver_key: [u8; 32] = match driver {
        Some(k) => k,
        None => { return Err(SettlementError::InvalidDriverPubkey); },
    };
    let start_ts_program: u64 = match i64_to_u64(trip.start_ts) {
        Ok(v) => v,
        Err(_) => { return Err(SettlementError::InvalidStartTs); },
    };
    let end_ts_program: u64 = match trip.end_ts {
        Some(v) => match i64_to_u64(v) {
            Ok(v) => v,
            Err(_) => { return Err(SettlementError::InvalidEndTs); },
        },
        None => { return Err(SettlementError::EndTsRequired); },
    };
    let fare_lamports_program: Option<u64> = match optional_amount(trip.fare_lamports) {
        Ok(v) => v,
        Err(_) => { return Err(SettlementError::InvalidFare); },
    };
    let fare_estimate_program: Option<u64> = match optional_amount(trip.fare_estimate) {
        Ok(v) => v,
        Err(_) => { return Err(SettlementError::InvalidFareEstimate); },
    };
    let trip_id: [u8; 32] = match vec_to_array_32(copy_bytes(&trip.trip_id)) {
        Ok(v) => v,
        Err(_) => { return Err(SettlementError::InvalidTripId); },
    };
    Ok(
        (
            trip_id,
            RideInput {
                passenger: passenger_key,
                driver: driver_key,
                start_ts_program,
                end_ts_program,
                pick_up,
                drop_off,
                distance_m: trip.distance_m,
                fare_lamports_program,
                fare_estimate_program,
                escrow_tx_hash: hash,
            },
        ),
    )
}

/// A copy of a byte string.
pub fn copy_bytes(bytes: &Vec<u8>) -> (copy: Vec<u8>)
    ensures
        copy@ == bytes@,
{
    let mut copy: Vec<u8> = Vec::new();
    let mut i: usize = 0;
    while i < bytes.len()
        invariant
            i <= bytes@.len(),
            copy@ == bytes@.subrange(0, i as int),
        decreases bytes@.len() - i,
    {
        copy.push(bytes[i]);
        assert(copy@ =~= bytes@.subrange(0, i + 1));
        i += 1;
    }
    assert(copy@ =~= bytes@);
    copy
}

/// Turns a stored trip into its identifier and what the ledger is handed:
/// the keys of rider and driver are read from their base58 texts, and the
/// record is tied to the payment by the digest of the trip's reference.
/// `pick_up` and `drop_off` are the place texts to record.
pub fn prepare_settlement(trip: &Trip, pick_up: String, drop_off: String) -> (res: Result<
    ([u8; 32], RideInput),
    SettlementError,
>)
    ensures
        match settlement_refusal(
            *trip,
            pubkey_bytes(trip.rider_pubkey@) is Some,
            pubkey_bytes(trip.driver_pubkey@) is Some,
        ) {
            Some(e) => res == Err::<([u8; 32], RideInput), SettlementError>(e),
            None => res matches Ok((trip_id, input)) && trip_id@ == trip.trip_id@ && is_record_of(
                input,
                *trip,
                pubkey_bytes(trip.rider_pubkey@)->0,
                pubkey_bytes(trip.driver_pubkey@)->0,
                sha256(encode_utf8(trip.reference@)),
                pick_up,
                drop_off,
            ),
        },
{
    let passenger: Option<[u8; 32]> = pubkey_from_string(trip.rider_pubkey.as_str());
    let driver: Option<[u8; 32]> = pubkey_from_string(trip.driver_pubkey.as_str());
    let hash: [u8; 32] = escrow_tx_hash(trip.reference.as_str());
    assemble_ride_input(trip, passenger, driver, hash, pick_up, drop_off)
}

/// The bytes of the word `ride`, the first seed of every ride account.
pub open spec fn ride_seed() -> Seq<u8> {
    seq![114u8, 105u8, 100u8, 101u8]
}

/// The address of the ledger account that holds a trip's record: the one the
/// ledger program derives from the word `ride` and the trip's identifier.
pub fn ride_account_address(trip_id: &[u8; 32], program_id: &[u8; 32]) -> (address: Option<
    [u8; 32],
>)
    ensures
        match address {
            Some(a) => program_address(ride_seed(), trip_id@, program_id@) == Some(a@),
            None => program_address(ride_seed(), trip_id@, program_id@) is None,
        },
{
    let seed: [u8; 4] = [114u8, 105u8, 100u8, 101u8];
    assert(seed@ =~= ride_seed());
    find_program_address(seed.as_slice(), trip_id.as_slice(), program_id)
}

/// What the payer is told once the ride of a notice is on the ledger.
pub fn receipt_for(payload: &PaystackWebhook, trip_id: &[u8; 32]) -> (receipt: SettlementReceipt)
    ensures
        receipt.status@ == "success"@,
        receipt.trip_id@ == hex_text(trip_id@),
        receipt.rider == payload.data.customer.email,
        receipt.amount_kobo == payload.data.amount,
{
    SettlementReceipt {
        status: "success".to_owned(),
        trip_id: hex_encode(trip_id.as_slice()),
        rider: payload.data.customer.email.clone(),
        amount_kobo: payload.data.amount,
    }
}

} // verus!

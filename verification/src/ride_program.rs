//! The ledger's side of settlement: the record kept of a finished ride, and
//! the rules under which a ride is written to it.

use crate::bindings::{sha256, sha256_digest};
use vstd::bytes::{spec_u32_to_le_bytes, spec_u64_to_le_bytes, u32_to_le_bytes, u64_to_le_bytes};
use vstd::prelude::*;
use vstd::utf8::encode_utf8;

verus! {

/// Longest place text that a record can hold, in bytes.
pub const MAX_PLACE_BYTES: usize = 128;

/// Bytes a record takes up: its fields in order, each text with four bytes
/// for its length before it.
pub const RIDE_LEN: usize = 1 + 32 + 32 + 8 + 8 + 4 + 128 + 4 + 128 + 8 + 1 + 8 + 1 + 8 + 32;

/// The record of a ride as the ledger keeps it.
#[derive(Debug, Clone, PartialEq, Eq)]
pub struct Ride {
    pub is_initialized: bool,
    pub passenger: [u8; 32],
    pub driver: [u8; 32],
    pub start_ts: u64,
    pub end_ts: u64,
    pub pick_up: String,
    pub drop_off: String,
    pub distance_m: u64,
    pub fare_lamports: Option<u64>,
    pub fare_estimate: Option<u64>,
    pub escrow_tx_hash: [u8; 32],
}

/// What is handed to the ledger to be recorded.
#[derive(Debug, Clone, PartialEq, Eq)]
pub struct RideInput {
    pub passenger: [u8; 32],
    pub driver: [u8; 32],
    pub start_ts_program: u64,
    pub end_ts_program: u64,
    pub pick_up: String,
    pub drop_off: String,
    pub distance_m: u64,
    pub fare_lamports_program: Option<u64>,
    pub fare_estimate_program: Option<u64>,
    pub escrow_tx_hash: [u8; 32],
}

/// What the ledger announces when a ride has been recorded.
#[derive(Debug, Clone, Copy, PartialEq, Eq)]
pub struct RideRecorded {
    pub trip_id: [u8; 32],
    pub passenger: [u8; 32],
    pub driver: [u8; 32],
    pub fare_lamports: u64,
    pub fare_estimate: u64,
}

/// Why a ride is not recorded.
#[derive(Debug, Clone, Copy, PartialEq, Eq, Structural)]
pub enum RideError {
    /// The record already holds a ride.
    AlreadyRecorded,
    /// A place text is longer than the record can hold.
    StringTooLong,
}

impl RideError {
    pub open spec fn message_spec(self) -> Seq<char> {
        match self {
            RideError::AlreadyRecorded => "Ride already recorded."@,
            RideError::StringTooLong => "String is too long."@,
        }
    }

    pub fn message(&self) -> (text: String)
        ensures
            text@ == self.message_spec(),
    {
        match self {
            RideError::AlreadyRecorded => "Ride already recorded.".to_owned(),
            RideError::StringTooLong => "String is too long.".to_owned(),
        }
    }
}

/// An amount that may be missing counts as zero.
pub open spec fn or_zero(amount: Option<u64>) -> u64 {
    match amount {
        Some(a) => a,
        None => 0,
    }
}

/// Why a ride cannot be written to a record, if anything stands against it.
pub open spec fn record_refusal(ride: Ride, ride_data: RideInput) -> Option<RideError> {
    if ride.is_initialized {
        Some(RideError::AlreadyRecorded)
    } else if encode_utf8(ride_data.pick_up@).len() > MAX_PLACE_BYTES || encode_utf8(
        ride_data.drop_off@,
    ).len() > MAX_PLACE_BYTES {
        Some(RideError::StringTooLong)
    } else {
        None
    }
}

/// The record that holds a ride.
pub open spec fn recorded(ride_data: RideInput) -> Ride {
    Ride {
        is_initialized: true,
        passenger: ride_data.passenger,
        driver: ride_data.driver,
        start_ts: ride_data.start_ts_program,
        end_ts: ride_data.end_ts_program,
        pick_up: ride_data.pick_up,
        drop_off: ride_data.drop_off,
        distance_m: ride_data.distance_m,
        fare_lamports: ride_data.fare_lamports_program,
        fare_estimate: ride_data.fare_estimate_program,
        escrow_tx_hash: ride_data.escrow_tx_hash,
    }
}

/// Writes a ride to an empty record. A record that holds a ride is never
/// written again, and a ride that is refused leaves the record as it was.
pub fn record_ride(ride: &mut Ride, trip_id: [u8; 32], ride_data: RideInput) -> (res: Result<
    RideRecorded,
    RideError,
>)
    ensures
        match record_refusal(*old(ride), ride_data) {
            Some(e) => res == Err::<RideRecorded, RideError>(e) && *final(ride) == *old(ride),
            None => {
                &&& *final(ride) == recorded(ride_data)
                &&& res == Ok::<RideRecorded, RideError>(
                    RideRecorded {
                        trip_id,
                        passenger: ride_data.passenger,
                        driver: ride_data.driver,
                        fare_lamports: or_zero(ride_data.fare_lamports_program),
                        fare_estimate: or_zero(ride_data.fare_estimate_program),
                    },
                )
            },
        },
{
    if ride.is_initialized {
        return Err(RideError::AlreadyRecorded);
    }
    if ride_data.pick_up.as_str().as_bytes().len() > MAX_PLACE_BYTES {
        return Err(RideError::StringTooLong);
    }
    if ride_data.drop_off.as_str().as_bytes().len() > MAX_PLACE_BYTES {
        return Err(RideError::StringTooLong);
    }
    let event = RideRecorded {
        trip_id,
        passenger: ride_data.passenger,
        driver: ride_data.driver,
        fare_lamports: match ride_data.fare_lamports_program {
            Some(a) => a,
            None => 0,
        },
        fare_estimate: match ride_data.fare_estimate_program {
            Some(a) => a,
            None => 0,
        },
    };
    ride.is_initialized = true;
    ride.passenger = ride_data.passenger;
    ride.driver = ride_data.driver;
    ride.start_ts = ride_data.start_ts_program;
    ride.end_ts = ride_data.end_ts_program;
    ride.pick_up = ride_data.pick_up;
    ride.drop_off = ride_data.drop_off;
    ride.distance_m = ride_data.distance_m;
    ride.fare_lamports = ride_data.fare_lamports_program;
    ride.fare_estimate = ride_data.fare_estimate_program;
    ride.escrow_tx_hash = ride_data.escrow_tx_hash;
    Ok(event)
}

/// A text on the wire: its length in bytes as four bytes, least significant
/// first, then its bytes.
pub open spec fn text_encoding(text: Seq<char>) -> Seq<u8> {
    spec_u32_to_le_bytes(encode_utf8(text).len() as u32) + encode_utf8(text)
}

/// An amount that may be missing, on the wire: a zero byte if it is
/// missing, else a one byte and the amount as eight bytes, least significant
/// first.
pub open spec fn amount_encoding(amount: Option<u64>) -> Seq<u8> {
    match amount {
        None => seq![0u8],
        Some(a) => seq![1u8] + spec_u64_to_le_bytes(a),
    }
}

/// What is handed to the ledger, on the wire: its fields in order.
pub open spec fn input_encoding(input: RideInput) -> Seq<u8> {
    input.passenger@ + input.driver@ + spec_u64_to_le_bytes(input.start_ts_program)
        + spec_u64_to_le_bytes(input.end_ts_program) + text_encoding(input.pick_up@)
        + text_encoding(input.drop_off@) + spec_u64_to_le_bytes(input.distance_m)
        + amount_encoding(input.fare_lamports_program) + amount_encoding(
        input.fare_estimate_program,
    ) + input.escrow_tx_hash@
}

/// The eight bytes that name the recording call to the ledger: the start of
/// the digest of the call's qualified name.
pub open spec fn method_tag() -> Seq<u8> {
    sha256(encode_utf8("global:record_ride"@)).take(8)
}

/// The call that records a ride, on the wire: the tag of the call, the
/// trip's identifier, and what is handed over.
pub open spec fn record_ride_call(trip_id: Seq<u8>, input: RideInput) -> Seq<u8> {
    method_tag() + trip_id + input_encoding(input)
}

/// Whether the length of every text fits the four bytes it is written in.
pub open spec fn encodable(input: RideInput) -> bool {
    encode_utf8(input.pick_up@).len() <= u32::MAX && encode_utf8(input.drop_off@).len()
        <= u32::MAX
}

fn append(out: &mut Vec<u8>, bytes: &[u8])
    ensures
        final(out)@ == old(out)@ + bytes@,
{
    out.extend_from_slice(bytes);
    assert(out@ =~= old(out)@ + bytes@);
}

fn append_text(out: &mut Vec<u8>, text: &str)
    requires
        encode_utf8(text@).len() <= u32::MAX,
    ensures
        final(out)@ == old(out)@ + text_encoding(text@),
{
    let bytes = text.as_bytes();
    let length: Vec<u8> = u32_to_le_bytes(bytes.len() as u32);
    append(out, length.as_slice());
    append(out, bytes);
    assert(out@ =~= old(out)@ + text_encoding(text@));
}

fn append_amount(out: &mut Vec<u8>, amount: Option<u64>)
    ensures
        final(out)@ == old(out)@ + amount_encoding(amount),
{
    match amount {
        None => {
            out.push(0u8);
            assert(out@ =~= old(out)@ + amount_encoding(amount));
        },
        Some(a) => {
            out.push(1u8);
            let bytes: Vec<u8> = u64_to_le_bytes(a);
            append(out, bytes.as_slice());
            assert(out@ =~= old(out)@ + amount_encoding(amount));
        },
    }
}

fn append_u64(out: &mut Vec<u8>, value: u64)
    ensures
        final(out)@ == old(out)@ + spec_u64_to_le_bytes(value),
{
    let bytes: Vec<u8> = u64_to_le_bytes(value);
    append(out, bytes.as_slice());
}

/// A call to the ledger on the wire, under a given tag: the tag, the trip's
/// identifier, and what is handed over.
pub open spec fn tagged_call(tag: Seq<u8>, trip_id: Seq<u8>, input: RideInput) -> Seq<u8> {
    tag + trip_id + input_encoding(input)
}

/// The bytes of a call to the ledger under a given tag. There are such bytes
/// unless a place text is too long for its length to be written down.
pub fn encode_call(tag: &[u8], trip_id: &[u8; 32], input: &RideInput) -> (data: Option<Vec<u8>>)
    ensures
        data is Some <==> encodable(*input),
        data matches Some(bytes) ==> bytes@ == tagged_call(tag@, trip_id@, *input),
{
    if input.pick_up.as_str().as_bytes().len() > u32::MAX as usize
        || input.drop_off.as_str().as_bytes().len() > u32::MAX as usize {
        return None;
    }
    let mut out: Vec<u8> = Vec::new();
    append(&mut out, tag);
    append(&mut out, trip_id.as_slice());
    append(&mut out, input.passenger.as_slice());
    append(&mut out, input.driver.as_slice());
    append_u64(&mut out, input.start_ts_program);
    append_u64(&mut out, input.end_ts_program);
    append_text(&mut out, input.pick_up.as_str());
    append_text(&mut out, input.drop_off.as_str());
    append_u64(&mut out, input.distance_m);
    append_amount(&mut out, input.fare_lamports_program);
    append_amount(&mut out, input.fare_estimate_program);
    append(&mut out, input.escrow_tx_hash.as_slice());
    assert(out@ =~= tagged_call(tag@, trip_id@, *input));
    Some(out)
}

/// The call that records a ride, as the bytes to send to the ledger: the
/// call under the tag of the recording call.
pub fn encode_record_ride(trip_id: &[u8; 32], input: &RideInput) -> (data: Option<Vec<u8>>)
    ensures
        data is Some <==> encodable(*input),
        data matches Some(bytes) ==> bytes@ == record_ride_call(trip_id@, *input),
{
    let digest: [u8; 32] = sha256_digest("global:record_ride".as_bytes());
    let mut tag: Vec<u8> = Vec::new();
    let mut i: usize = 0;
    while i < 8
        invariant
            i <= 8,
            tag@ == digest@.take(i as int),
        decreases 8 - i,
    {
        tag.push(digest[i]);
        assert(tag@ =~= digest@.take(i + 1));
        i += 1;
    }
    assert(tag@ == method_tag());
    encode_call(tag.as_slice(), trip_id, input)
}

} // verus!

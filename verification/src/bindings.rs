//! The calls this library makes into other crates. Each function here is
//! believed by the verifier on the strength of its contract alone; the doc
//! comment of each says what is claimed of the function it calls.

use sha2::Digest;
use vstd::prelude::*;

verus! {

/// The SHA-256 digest of a byte string.
pub uninterp spec fn sha256(data: Seq<u8>) -> Seq<u8>;

/// The 32 key bytes that a base58 text stands for, if it stands for any.
pub uninterp spec fn pubkey_bytes(text: Seq<char>) -> Option<Seq<u8>>;

/// The address that a program derives from two seeds, if there is one.
pub uninterp spec fn program_address(first: Seq<u8>, second: Seq<u8>, program_id: Seq<u8>) -> Option<
    Seq<u8>,
>;

/// The sixteen lower-case hexadecimal digits, in order.
pub open spec fn hex_digits() -> Seq<char> {
    seq!['0', '1', '2', '3', '4', '5', '6', '7', '8', '9', 'a', 'b', 'c', 'd', 'e', 'f']
}

/// Lower-case hexadecimal text of a byte string: two digits per byte, the
/// high half of each byte first.
pub open spec fn hex_text(bytes: Seq<u8>) -> Seq<char> {
    Seq::new(
        2 * bytes.len(),
        |i: int|
            if i % 2 == 0 {
                hex_digits()[bytes[i / 2] as int / 16]
            } else {
                hex_digits()[bytes[i / 2] as int % 16]
            },
    )
}

/// The sixteen bytes of a 128-bit number, most significant first.
pub open spec fn be_bytes(id: u128) -> Seq<u8> {
    vstd::bytes::spec_u128_to_le_bytes(id).reverse()
}

/// The hyphenated text of a 128-bit identifier: its 32 hexadecimal digits in
/// groups of 8, 4, 4, 4 and 12.
pub open spec fn uuid_text(id: u128) -> Seq<char> {
    let digits = hex_text(be_bytes(id));
    digits.subrange(0, 8) + seq!['-'] + digits.subrange(8, 12) + seq!['-'] + digits.subrange(
        12,
        16,
    ) + seq!['-'] + digits.subrange(16, 20) + seq!['-'] + digits.subrange(20, 32)
}

/// The decimal digit for a number below ten.
pub open spec fn decimal_digit(n: int) -> char {
    seq!['0', '1', '2', '3', '4', '5', '6', '7', '8', '9'][n]
}

/// The time of day of a moment, given in seconds since the Unix epoch, as
/// an `HH:MM` reading of a 24-hour clock. Days have 86400 seconds; a moment
/// before the epoch falls into its day counted backwards.
pub open spec fn clock_text(secs: int) -> Seq<char> {
    let in_day = secs % 86400;
    let hour = in_day / 3600;
    let minute = (in_day % 3600) / 60;
    seq![
        decimal_digit(hour / 10),
        decimal_digit(hour % 10),
        ':',
        decimal_digit(minute / 10),
        decimal_digit(minute % 10),
    ]
}

/// First second of the year 1 and last second of the year 9999, as Unix
/// timestamps: the span over which `clock_reading` is promised to answer.
pub const CLOCK_MIN_SECS: i64 = -62_135_596_800;

pub const CLOCK_MAX_SECS: i64 = 253_402_300_799;

/// `sha2::Sha256::digest`: the result is the SHA-256 digest of `data`, which
/// is always 32 bytes long.
#[verifier::external_body]
pub(crate) fn sha256_digest(data: &[u8]) -> (out: [u8; 32])
    ensures
        out@ == sha256(data@),
{
    sha2::Sha256::digest(data).into()
}

/// `hex::encode`: every byte becomes two lower-case hexadecimal digits.
#[verifier::external_body]
pub(crate) fn hex_encode(data: &[u8]) -> (text: String)
    ensures
        text@ == hex_text(data@),
{
    hex::encode(data)
}

/// `solana_pubkey::Pubkey::from_str`: decodes base58 text into a 32-byte
/// key. The answer depends on the text alone; texts that are no key give
/// `None`.
#[verifier::external_body]
pub(crate) fn parse_pubkey(text: &str) -> (key: Option<[u8; 32]>)
    ensures
        match key {
            Some(k) => pubkey_bytes(text@) == Some(k@),
            None => pubkey_bytes(text@) is None,
        },
{
    match text.parse::<solana_pubkey::Pubkey>() {
        Ok(key) => Some(key.to_bytes()),
        Err(_) => None,
    }
}

/// `solana_pubkey::Pubkey::try_find_program_address` on two seeds: the
/// address off the curve that the seeds and the program's key hash to. The
/// answer depends on the three byte strings alone.
#[verifier::external_body]
pub(crate) fn find_program_address(first: &[u8], second: &[u8], program_id: &[u8; 32]) -> (address:
    Option<[u8; 32]>)
    ensures
        match address {
            Some(a) => program_address(first@, second@, program_id@) == Some(a@),
            None => program_address(first@, second@, program_id@) is None,
        },
{
    let program = solana_pubkey::Pubkey::new_from_array(*program_id);
    match solana_pubkey::Pubkey::try_find_program_address(&[first, second], &program) {
        Some((address, _)) => Some(address.to_bytes()),
        None => None,
    }
}

/// `solana_pubkey::Pubkey::new_unique`, as base58 text. Each call gives
/// another key; nothing is promised of its value.
#[verifier::external_body]
pub(crate) fn unique_pubkey_text() -> String {
    solana_pubkey::Pubkey::new_unique().to_string()
}

/// `uuid::Uuid::new_v4`, as a number. The value is random, so nothing is
/// promised of it. The call fails only if the system has no randomness to
/// give.
#[verifier::external_body]
pub(crate) fn fresh_id() -> u128 {
    uuid::Uuid::new_v4().as_u128()
}

/// `uuid::Uuid::to_string` on the identifier with the given value: lower-case
/// hyphenated text.
#[verifier::external_body]
pub(crate) fn uuid_to_text(id: u128) -> (text: String)
    ensures
        text@ == uuid_text(id),
{
    uuid::Uuid::from_u128(id).to_string()
}

/// `chrono::Utc::now`, as whole seconds since the Unix epoch. Nothing is
/// promised of the value. The call fails only if the system clock stands
/// before 1970.
#[verifier::external_body]
pub(crate) fn now_utc_secs() -> i64 {
    chrono::Utc::now().timestamp()
}

/// `chrono::DateTime::from_timestamp` followed by `format("%H:%M")`: the
/// UTC time of day of a Unix timestamp. Timestamps within the years 1 to
/// 9999 always have a reading; whenever there is one, it is the hour and
/// minute of the day, two digits each.
#[verifier::external_body]
pub(crate) fn clock_reading(secs: i64) -> (text: Option<String>)
    ensures
        CLOCK_MIN_SECS <= secs <= CLOCK_MAX_SECS ==> text is Some,
        text matches Some(t) ==> t@ == clock_text(secs as int),
{
    match chrono::DateTime::from_timestamp(secs, 0) {
        Some(at) => Some(at.format("%H:%M").to_string()),
        None => None,
    }
}

} // verus!

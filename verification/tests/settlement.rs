use ride_logic::escrow::{
    assemble_ride_input, copy_bytes, escrow_tx_hash, is_charge_success, optional_amount,
    prepare_settlement, pubkey_from_string, receipt_for, ride_account_address, split_payment,
    ConvertError, PaymentSplit, PaystackCustomer, PaystackData, PaystackWebhook, SettlementError,
};
use ride_logic::geo::GeoPoint;
use ride_logic::ride_program::{
    encode_call, encode_record_ride, record_ride, Ride, RideError, RideInput, RideRecorded, MAX_PLACE_BYTES,
    RIDE_LEN,
};
use ride_logic::trips::{Trip, TripStatus};
use sha2::{Digest, Sha256};

const SYSTEM_KEY: &str = "11111111111111111111111111111111";
const PROGRAM_KEY: &str = "Fg6PaFpoGXkYsidMpWTK6W2BeZ7FEfcYkg6Zt3b9r5Mi";

fn settled_trip() -> Trip {
    Trip {
        trip_id: (0u8..32).collect(),
        rider_id: 1,
        reference: "ref-123".to_string(),
        pick_up: GeoPoint::new(1, 2, "a".to_string()),
        drop_off: GeoPoint::new(3, 4, "b".to_string()),
        driver_location: GeoPoint::new(3, 4, "b".to_string()),
        rider_pubkey: SYSTEM_KEY.to_string(),
        driver_pubkey: PROGRAM_KEY.to_string(),
        driver_id: 2,
        status: TripStatus::Completed,
        start_ts: 1_700_000_000,
        end_ts: Some(1_700_000_900),
        distance_m: 4200,
        item: Vec::new(),
        fare_estimate: Some(1500),
        fare_lamports: Some(192_000),
        rider_email: "ada@example.com".to_string(),
    }
}

fn webhook(event: &str) -> PaystackWebhook {
    PaystackWebhook {
        event: event.to_string(),
        data: PaystackData {
            reference: "ref-123".to_string(),
            amount: 150_000,
            currency: "NGN".to_string(),
            id: 77,
            status: "success".to_string(),
            customer: PaystackCustomer { email: "ada@example.com".to_string() },
        },
    }
}

fn ride_input() -> RideInput {
    RideInput {
        passenger: [1; 32],
        driver: [2; 32],
        start_ts_program: 10,
        end_ts_program: 20,
        pick_up: "here".to_string(),
        drop_off: "there".to_string(),
        distance_m: 4200,
        fare_lamports_program: Some(192_000),
        fare_estimate_program: None,
        escrow_tx_hash: [3; 32],
    }
}

fn empty_ride() -> Ride {
    Ride {
        is_initialized: false,
        passenger: [0; 32],
        driver: [0; 32],
        start_ts: 0,
        end_ts: 0,
        pick_up: String::new(),
        drop_off: String::new(),
        distance_m: 0,
        fare_lamports: None,
        fare_estimate: None,
        escrow_tx_hash: [0; 32],
    }
}

#[test]
fn only_charge_success_leads_to_settlement() {
    assert!(is_charge_success(&webhook("charge.success")));
    assert!(!is_charge_success(&webhook("charge.failed")));
    assert!(!is_charge_success(&webhook("")));
    assert!(!is_charge_success(&webhook("charge.success ")));
}

#[test]
fn driver_gets_eighty_percent_rounded_down() {
    assert_eq!(split_payment(1000), PaymentSplit { driver_share: 800, treasury_share: 200 });
    assert_eq!(split_payment(0), PaymentSplit { driver_share: 0, treasury_share: 0 });
    assert_eq!(split_payment(1), PaymentSplit { driver_share: 0, treasury_share: 1 });
    assert_eq!(split_payment(4), PaymentSplit { driver_share: 3, treasury_share: 1 });
    assert_eq!(split_payment(150_000), PaymentSplit { driver_share: 120_000, treasury_share: 30_000 });
}

#[test]
fn split_of_the_largest_amount_does_not_overflow() {
    let split = split_payment(u64::MAX);
    assert_eq!(split.driver_share, ((u64::MAX as u128) * 80 / 100) as u64);
    assert_eq!(split.driver_share + split.treasury_share, u64::MAX);
}

#[test]
fn optional_amounts_convert_or_are_refused() {
    assert_eq!(optional_amount(None), Ok(None));
    assert_eq!(optional_amount(Some(0)), Ok(Some(0)));
    assert_eq!(optional_amount(Some(5)), Ok(Some(5)));
    assert_eq!(optional_amount(Some(-5)), Err(ConvertError::Negative));
}

#[test]
fn base58_keys_are_read() {
    assert_eq!(pubkey_from_string(SYSTEM_KEY), Some([0u8; 32]));
    let expected = PROGRAM_KEY.parse::<solana_pubkey::Pubkey>().unwrap().to_bytes();
    assert_eq!(pubkey_from_string(PROGRAM_KEY), Some(expected));
    assert_ne!(expected, [0u8; 32]);
}

#[test]
fn texts_that_are_no_key_are_refused() {
    assert_eq!(pubkey_from_string(""), None);
    assert_eq!(pubkey_from_string("not a key"), None);
    assert_eq!(pubkey_from_string("0OIl"), None);
    assert_eq!(pubkey_from_string(&"1".repeat(45)), None);
    assert_eq!(pubkey_from_string("\"11111111111111111111111111111111\""), None);
}

#[test]
fn escrow_hash_is_the_sha256_of_the_reference() {
    let expected: [u8; 32] = [
        0xba, 0x78, 0x16, 0xbf, 0x8f, 0x01, 0xcf, 0xea, 0x41, 0x41, 0x40, 0xde, 0x5d, 0xae, 0x22,
        0x23, 0xb0, 0x03, 0x61, 0xa3, 0x96, 0x17, 0x7a, 0x9c, 0xb4, 0x10, 0xff, 0x61, 0xf2, 0x00,
        0x15, 0xad,
    ];
    assert_eq!(escrow_tx_hash("abc"), expected);
    let other: [u8; 32] = Sha256::digest("ref-123".as_bytes()).into();
    assert_eq!(escrow_tx_hash("ref-123"), other);
}

#[test]
fn settled_trip_becomes_a_ledger_input() {
    let trip = settled_trip();
    let (trip_id, input) =
        prepare_settlement(&trip, "pick text".to_string(), "drop text".to_string()).unwrap();
    assert_eq!(trip_id.to_vec(), trip.trip_id);
    assert_eq!(
        input,
        RideInput {
            passenger: [0; 32],
            driver: PROGRAM_KEY.parse::<solana_pubkey::Pubkey>().unwrap().to_bytes(),
            start_ts_program: 1_700_000_000,
            end_ts_program: 1_700_000_900,
            pick_up: "pick text".to_string(),
            drop_off: "drop text".to_string(),
            distance_m: 4200,
            fare_lamports_program: Some(192_000),
            fare_estimate_program: Some(1500),
            escrow_tx_hash: Sha256::digest("ref-123".as_bytes()).into(),
        }
    );
}

#[test]
fn missing_fares_stay_missing() {
    let mut trip = settled_trip();
    trip.fare_lamports = None;
    trip.fare_estimate = None;
    let (_, input) = prepare_settlement(&trip, String::new(), String::new()).unwrap();
    assert_eq!(input.fare_lamports_program, None);
    assert_eq!(input.fare_estimate_program, None);
}

#[test]
fn each_defect_gives_its_own_error() {
    let fails = |change: &dyn Fn(&mut Trip)| {
        let mut trip = settled_trip();
        change(&mut trip);
        prepare_settlement(&trip, String::new(), String::new()).unwrap_err()
    };
    assert_eq!(fails(&|t| t.rider_pubkey = "bad".into()), SettlementError::InvalidRiderPubkey);
    assert_eq!(fails(&|t| t.driver_pubkey = "bad".into()), SettlementError::InvalidDriverPubkey);
    assert_eq!(fails(&|t| t.start_ts = -1), SettlementError::InvalidStartTs);
    assert_eq!(fails(&|t| t.end_ts = None), SettlementError::EndTsRequired);
    assert_eq!(fails(&|t| t.end_ts = Some(-1)), SettlementError::InvalidEndTs);
    assert_eq!(fails(&|t| t.fare_lamports = Some(-1)), SettlementError::InvalidFare);
    assert_eq!(fails(&|t| t.fare_estimate = Some(-1)), SettlementError::InvalidFareEstimate);
    assert_eq!(fails(&|t| t.trip_id = vec![1, 2, 3]), SettlementError::InvalidTripId);
    assert_eq!(fails(&|t| t.trip_id = Vec::new()), SettlementError::InvalidTripId);
}

#[test]
fn first_defect_in_order_decides() {
    let mut trip = settled_trip();
    trip.rider_pubkey = "bad".to_string();
    trip.driver_pubkey = "bad".to_string();
    trip.start_ts = -1;
    trip.end_ts = None;
    trip.trip_id = Vec::new();
    let go = |t: &Trip| prepare_settlement(t, String::new(), String::new()).unwrap_err();
    assert_eq!(go(&trip), SettlementError::InvalidRiderPubkey);
    trip.rider_pubkey = SYSTEM_KEY.to_string();
    assert_eq!(go(&trip), SettlementError::InvalidDriverPubkey);
    trip.driver_pubkey = SYSTEM_KEY.to_string();
    assert_eq!(go(&trip), SettlementError::InvalidStartTs);
    trip.start_ts = 0;
    assert_eq!(go(&trip), SettlementError::EndTsRequired);
    trip.end_ts = Some(0);
    trip.fare_lamports = Some(-1);
    trip.fare_estimate = Some(-1);
    assert_eq!(go(&trip), SettlementError::InvalidFare);
    trip.fare_lamports = None;
    assert_eq!(go(&trip), SettlementError::InvalidFareEstimate);
    trip.fare_estimate = None;
    assert_eq!(go(&trip), SettlementError::InvalidTripId);
}

#[test]
fn assembling_takes_keys_and_digest_as_given() {
    let trip = settled_trip();
    let (trip_id, input) = assemble_ride_input(
        &trip,
        Some([7; 32]),
        Some([8; 32]),
        [9; 32],
        "p".to_string(),
        "d".to_string(),
    )
    .unwrap();
    assert_eq!(trip_id.to_vec(), trip.trip_id);
    assert_eq!(input.passenger, [7; 32]);
    assert_eq!(input.driver, [8; 32]);
    assert_eq!(input.escrow_tx_hash, [9; 32]);
    assert_eq!(
        assemble_ride_input(&trip, None, Some([8; 32]), [9; 32], String::new(), String::new()),
        Err(SettlementError::InvalidRiderPubkey)
    );
    assert_eq!(
        assemble_ride_input(&trip, Some([7; 32]), None, [9; 32], String::new(), String::new()),
        Err(SettlementError::InvalidDriverPubkey)
    );
}

#[test]
fn ride_account_is_derived_from_the_trip_id() {
    let program = PROGRAM_KEY.parse::<solana_pubkey::Pubkey>().unwrap();
    let trip_id = [5u8; 32];
    let expected =
        solana_pubkey::Pubkey::find_program_address(&[b"ride", &trip_id], &program).0.to_bytes();
    assert_eq!(ride_account_address(&trip_id, &program.to_bytes()), Some(expected));
    assert_ne!(
        ride_account_address(&[6u8; 32], &program.to_bytes()),
        ride_account_address(&trip_id, &program.to_bytes())
    );
    assert_ne!(expected, trip_id);
}

#[test]
fn receipt_names_the_trip_in_lower_case_hex() {
    let mut trip_id = [0u8; 32];
    trip_id[0] = 0x01;
    trip_id[1] = 0xab;
    trip_id[31] = 0xff;
    let receipt = receipt_for(&webhook("charge.success"), &trip_id);
    assert_eq!(receipt.status, "success");
    assert_eq!(receipt.trip_id, format!("01ab{}ff", "00".repeat(29)));
    assert_eq!(receipt.trip_id, hex::encode(trip_id));
    assert_eq!(receipt.rider, "ada@example.com");
    assert_eq!(receipt.amount_kobo, 150_000);
}

#[test]
fn bytes_are_copied_as_they_are() {
    assert_eq!(copy_bytes(&vec![1, 2, 3]), vec![1, 2, 3]);
    assert_eq!(copy_bytes(&Vec::new()), Vec::<u8>::new());
}

#[test]
fn ride_is_recorded_into_an_empty_record() {
    let mut ride = empty_ride();
    let event = record_ride(&mut ride, [4; 32], ride_input()).unwrap();
    assert_eq!(
        event,
        RideRecorded {
            trip_id: [4; 32],
            passenger: [1; 32],
            driver: [2; 32],
            fare_lamports: 192_000,
            fare_estimate: 0,
        }
    );
    assert_eq!(
        ride,
        Ride {
            is_initialized: true,
            passenger: [1; 32],
            driver: [2; 32],
            start_ts: 10,
            end_ts: 20,
            pick_up: "here".to_string(),
            drop_off: "there".to_string(),
            distance_m: 4200,
            fare_lamports: Some(192_000),
            fare_estimate: None,
            escrow_tx_hash: [3; 32],
        }
    );
}

#[test]
fn recorded_ride_is_never_written_again() {
    let mut ride = empty_ride();
    record_ride(&mut ride, [4; 32], ride_input()).unwrap();
    let before = ride.clone();
    let mut again = ride_input();
    again.start_ts_program = 999;
    assert_eq!(record_ride(&mut ride, [4; 32], again), Err(RideError::AlreadyRecorded));
    assert_eq!(ride, before);
}

#[test]
fn place_texts_longer_than_128_bytes_are_refused() {
    assert_eq!(MAX_PLACE_BYTES, 128);
    let mut ride = empty_ride();
    let mut long_pick = ride_input();
    long_pick.pick_up = "x".repeat(129);
    assert_eq!(record_ride(&mut ride, [4; 32], long_pick), Err(RideError::StringTooLong));
    let mut long_drop = ride_input();
    long_drop.drop_off = "x".repeat(129);
    assert_eq!(record_ride(&mut ride, [4; 32], long_drop), Err(RideError::StringTooLong));
    assert_eq!(ride, empty_ride());
    // length is counted in bytes: 65 two-byte letters are too long
    let mut wide = ride_input();
    wide.pick_up = "é".repeat(65);
    assert_eq!(record_ride(&mut ride, [4; 32], wide), Err(RideError::StringTooLong));
    let mut exact = ride_input();
    exact.pick_up = "x".repeat(128);
    exact.drop_off = "é".repeat(64);
    assert!(record_ride(&mut ride, [4; 32], exact).is_ok());
}

#[test]
fn already_recorded_is_reported_before_long_texts() {
    let mut ride = empty_ride();
    ride.is_initialized = true;
    let mut long_pick = ride_input();
    long_pick.pick_up = "x".repeat(500);
    assert_eq!(record_ride(&mut ride, [4; 32], long_pick), Err(RideError::AlreadyRecorded));
}

#[test]
fn ledger_errors_have_their_messages_and_the_record_its_size() {
    assert_eq!(RideError::AlreadyRecorded.message(), "Ride already recorded.");
    assert_eq!(RideError::StringTooLong.message(), "String is too long.");
    assert_eq!(RIDE_LEN, 403);
}

#[test]
fn recording_call_is_laid_out_field_by_field() {
    let trip_id = [4u8; 32];
    let data = encode_record_ride(&trip_id, &ride_input()).unwrap();
    let mut expected: Vec<u8> = Sha256::digest(b"global:record_ride")[..8].to_vec();
    expected.extend_from_slice(&trip_id);
    expected.extend_from_slice(&[1; 32]);
    expected.extend_from_slice(&[2; 32]);
    expected.extend_from_slice(&10u64.to_le_bytes());
    expected.extend_from_slice(&20u64.to_le_bytes());
    expected.extend_from_slice(&4u32.to_le_bytes());
    expected.extend_from_slice(b"here");
    expected.extend_from_slice(&5u32.to_le_bytes());
    expected.extend_from_slice(b"there");
    expected.extend_from_slice(&4200u64.to_le_bytes());
    expected.push(1);
    expected.extend_from_slice(&192_000u64.to_le_bytes());
    expected.push(0);
    expected.extend_from_slice(&[3; 32]);
    assert_eq!(data, expected);
    assert_eq!(data.len(), 8 + 32 + 32 + 32 + 8 + 8 + 4 + 4 + 4 + 5 + 8 + 9 + 1 + 32);
}

#[test]
fn recording_call_counts_text_length_in_bytes() {
    let mut input = ride_input();
    input.pick_up = "é".to_string();
    input.drop_off = String::new();
    let data = encode_record_ride(&[0u8; 32], &input).unwrap();
    let texts = &data[8 + 32 + 32 + 32 + 16..];
    assert_eq!(&texts[..4], &2u32.to_le_bytes());
    assert_eq!(&texts[4..6], "é".as_bytes());
    assert_eq!(&texts[6..10], &0u32.to_le_bytes());
}

#[test]
fn call_under_a_given_tag_starts_with_that_tag() {
    let data = encode_call(&[9, 9], &[4u8; 32], &ride_input()).unwrap();
    assert_eq!(&data[..2], &[9, 9]);
    assert_eq!(&data[2..34], &[4u8; 32]);
    assert_eq!(&data[34..66], &[1u8; 32]);
    let recorded = encode_record_ride(&[4u8; 32], &ride_input()).unwrap();
    assert_eq!(&recorded[8..], &data[2..]);
}

#[test]
fn settlement_errors_have_their_messages() {
    assert_eq!(SettlementError::InvalidRiderPubkey.message(), "Invalid rider pubkey");
    assert_eq!(SettlementError::InvalidDriverPubkey.message(), "Invalid driver pubkey");
    assert_eq!(SettlementError::InvalidStartTs.message(), "Invalid start_ts");
    assert_eq!(SettlementError::EndTsRequired.message(), "end_ts is required");
    assert_eq!(SettlementError::InvalidEndTs.message(), "Invalid end_ts");
    assert_eq!(SettlementError::InvalidFare.message(), "Invalid fare");
    assert_eq!(SettlementError::InvalidFareEstimate.message(), "Invalid fare estimate");
    assert_eq!(SettlementError::InvalidTripId.message(), "Invalid trip_id");
}

use ride_logic::admin::Rider;
use ride_logic::drivers::{Driver, DriverResponse, DriverStatus, VehicleType};
use ride_logic::geo::GeoPoint;
use ride_logic::matching::{
    Action, Candidate, Event, MatchConfig, MatchOutcome, Matcher, ProtocolError,
};
use ride_logic::registry::{PendingNotification, Registry};
use ride_logic::riders::{RideRequest, RideType};
use ride_logic::trips::{TripStamp, TripStatus};

const RIDER: u128 = 500;
const PRICE: i64 = 1234;

fn point(lat: i64, lng: i64, name: &str) -> GeoPoint {
    GeoPoint::new(lat, lng, name.to_string())
}

fn request(ride_type: RideType) -> RideRequest {
    RideRequest {
        request_id: 900,
        rider_id: RIDER,
        pick_up: point(6_500_000, 3_300_000, "pick"),
        drop_off: point(6_600_000, 3_400_000, "drop"),
        estimated_price: PRICE,
        distance_m: 15_600,
        estimated_time_min: 24,
        ride_type,
        items: Vec::new(),
        payment_method: "card".to_string(),
    }
}

fn rider() -> Rider {
    Rider {
        rider_id: RIDER,
        rider_pubkey: "rider-key".to_string(),
        name: "Ada".to_string(),
        email: "ada@example.com".to_string(),
        phone: "0800".to_string(),
    }
}

fn driver(id: u128, vehicle_type: VehicleType) -> Driver {
    Driver {
        driver_id: id,
        driver_pubkey: format!("driver-key-{}", id),
        name: format!("driver {}", id),
        email: format!("d{}@example.com", id),
        phone: format!("0700{}", id),
        status: DriverStatus::Available,
        driver_location: point(6_510_000, 3_310_000, "somewhere"),
        license_number: Some(format!("LIC{}", id)),
        vehicle_type,
        driver_response: DriverResponse::Timeout,
        vehicle: Some("Zero SR".to_string()),
    }
}

fn candidate(id: u128, vehicle_type: VehicleType, metres: u64) -> Candidate {
    Candidate { driver: driver(id, vehicle_type), pickup_distance_m: metres }
}

fn started(ride_type: RideType, registry: &mut Registry) -> Matcher {
    let matcher = Matcher::new(MatchConfig::standard(), request(ride_type), rider());
    let (matcher, action) = matcher.step(registry, Event::Begin);
    assert_eq!(
        action,
        Ok(Action::QueryDirectory {
            vehicle_type: match ride_type {
                RideType::ASAP => VehicleType::EV,
                RideType::ASAPEXPRESS => VehicleType::Bike,
            },
            limit: 10,
        })
    );
    matcher
}

#[test]
fn standard_config_has_the_documented_defaults() {
    let config = MatchConfig::standard();
    assert_eq!(config.max_rounds, 4);
    assert_eq!(config.candidates_per_round, 10);
    assert_eq!(config.response_timeout_secs, 50);
    assert_eq!(config.backoff_millis, 500);
    assert_eq!(config.proximity_limit_m, 5000);
}

#[test]
fn standard_rides_ask_for_ev_and_express_rides_for_bikes() {
    let mut registry = Registry::new();
    started(RideType::ASAP, &mut registry);
    started(RideType::ASAPEXPRESS, &mut registry);
}

#[test]
fn accepted_offer_yields_an_ongoing_trip_with_that_driver() {
    let mut registry = Registry::new();
    let matcher = started(RideType::ASAP, &mut registry);

    let (matcher, action) =
        matcher.step(&mut registry, Event::Candidates(vec![candidate(1, VehicleType::EV, 2000)]));
    assert_eq!(action, Ok(Action::NotifyDriver { driver_id: 1 }));
    assert_eq!(registry.pending(1), Some(PendingNotification { driver_id: 1, rider_id: RIDER }));
    assert_eq!(matcher.offered_driver(), Some(1));

    let (matcher, action) = matcher.step(&mut registry, Event::NotifySent);
    assert_eq!(action, Ok(Action::AwaitReply { driver_id: 1, timeout_secs: 50 }));

    // the driver's reply resolves the slot, then reaches the search
    registry.resolve(1, DriverResponse::Accepted);
    let (matcher, action) = matcher.step(&mut registry, Event::Replied(DriverResponse::Accepted));
    assert_eq!(action, Ok(Action::CountOngoingTrips { driver_id: 1 }));

    let stamp = TripStamp { start_ts: 1_700_000_000, reference: "ref-1".to_string() };
    let (matcher, action) = matcher.advance(&mut registry, Event::OngoingTrips(0), stamp);
    assert_eq!(action, Ok(Action::PersistTrip));
    let held = matcher.pending_trip().expect("a trip to store").clone();
    assert_eq!(held.driver_id, 1);
    assert_eq!(held.rider_id, RIDER);
    assert_eq!(held.status, TripStatus::Ongoing);
    assert_eq!(held.fare_estimate, Some(PRICE));
    assert_eq!(held.fare_lamports, None);
    assert_eq!(held.start_ts, 1_700_000_000);
    assert_eq!(held.end_ts, None);
    assert_eq!(held.reference, "ref-1");
    assert_eq!(held.pick_up, point(6_500_000, 3_300_000, "pick"));
    assert_eq!(held.drop_off, point(6_600_000, 3_400_000, "drop"));
    assert_eq!(held.driver_location, point(6_510_000, 3_310_000, "somewhere"));
    assert_eq!(held.rider_pubkey, "rider-key");
    assert_eq!(held.driver_pubkey, "driver-key-1");
    assert_eq!(held.rider_email, "ada@example.com");
    assert_eq!(held.distance_m, 15_600);
    assert!(held.trip_id.is_empty());

    let (matcher, action) = matcher.step(&mut registry, Event::TripPersisted);
    match action {
        Ok(Action::Finish(MatchOutcome::Matched { trip, driver })) => {
            assert_eq!(trip, held);
            assert_eq!(driver.name, "driver 1");
            assert_eq!(driver.phone, "07001");
            assert_eq!(driver.vehicle, Some("Zero SR".to_string()));
            assert_eq!(driver.license_number, Some("LIC1".to_string()));
        }
        other => panic!("unexpected {:?}", other),
    }
    assert!(matcher.is_finished());
    assert_eq!(registry.len(), 0);
}

#[test]
fn step_stamps_the_trip_with_a_fresh_reference() {
    let mut registry = Registry::new();
    let matcher = started(RideType::ASAP, &mut registry);
    let (matcher, _) =
        matcher.step(&mut registry, Event::Candidates(vec![candidate(1, VehicleType::EV, 2000)]));
    let (matcher, _) = matcher.step(&mut registry, Event::NotifySent);
    let (matcher, _) = matcher.step(&mut registry, Event::Replied(DriverResponse::Accepted));
    let (matcher, action) = matcher.step(&mut registry, Event::OngoingTrips(0));
    assert_eq!(action, Ok(Action::PersistTrip));
    let trip = matcher.pending_trip().unwrap();
    assert_eq!(trip.reference.len(), 36);
    assert!(trip.start_ts > 1_600_000_000);
    assert_eq!(trip.status, TripStatus::Ongoing);
}

#[test]
fn four_rounds_of_rejections_end_without_a_driver_and_leave_no_slot() {
    let mut registry = Registry::new();
    let mut matcher = started(RideType::ASAP, &mut registry);
    for round in 1..=4 {
        let (next, action) = matcher
            .step(&mut registry, Event::Candidates(vec![candidate(1, VehicleType::EV, 2000)]));
        assert_eq!(action, Ok(Action::NotifyDriver { driver_id: 1 }));
        assert_eq!(registry.len(), 1);
        let (next, action) = next.step(&mut registry, Event::NotifySent);
        assert_eq!(action, Ok(Action::AwaitReply { driver_id: 1, timeout_secs: 50 }));
        registry.resolve(1, DriverResponse::Rejected);
        let (next, action) = next.step(&mut registry, Event::Replied(DriverResponse::Rejected));
        if round < 4 {
            assert_eq!(
                action,
                Ok(Action::QueryDirectory { vehicle_type: VehicleType::EV, limit: 10 })
            );
            assert!(!next.is_finished());
        } else {
            assert_eq!(action, Ok(Action::Finish(MatchOutcome::NoDriverAvailable)));
            assert!(next.is_finished());
        }
        matcher = next;
    }
    assert_eq!(registry.len(), 0);
}

#[test]
fn rejection_without_prior_resolve_still_leaves_no_slot() {
    let mut registry = Registry::new();
    let matcher = started(RideType::ASAP, &mut registry);
    let (matcher, _) =
        matcher.step(&mut registry, Event::Candidates(vec![candidate(1, VehicleType::EV, 2000)]));
    let (matcher, _) = matcher.step(&mut registry, Event::NotifySent);
    assert!(registry.is_pending(1));
    let (_, action) = matcher.step(&mut registry, Event::Replied(DriverResponse::Rejected));
    assert_eq!(action, Ok(Action::QueryDirectory { vehicle_type: VehicleType::EV, limit: 10 }));
    assert!(!registry.is_pending(1));
}

#[test]
fn driver_at_cap_who_accepts_is_treated_as_rejection() {
    let mut registry = Registry::new();
    let matcher = started(RideType::ASAP, &mut registry);
    let (matcher, action) = matcher.step(
        &mut registry,
        Event::Candidates(vec![
            candidate(1, VehicleType::EV, 2000),
            candidate(2, VehicleType::EV, 3000),
        ]),
    );
    assert_eq!(action, Ok(Action::NotifyDriver { driver_id: 1 }));
    let (matcher, _) = matcher.step(&mut registry, Event::NotifySent);
    let (matcher, action) = matcher.step(&mut registry, Event::Replied(DriverResponse::Accepted));
    assert_eq!(action, Ok(Action::CountOngoingTrips { driver_id: 1 }));
    // an EV driver may carry one trip; this one already does
    let (matcher, action) = matcher.step(&mut registry, Event::OngoingTrips(1));
    assert_eq!(action, Ok(Action::NotifyDriver { driver_id: 2 }));
    assert!(matcher.pending_trip().is_none());
    assert!(!registry.is_pending(1));
    assert!(registry.is_pending(2));
}

#[test]
fn bike_driver_may_carry_two_trips() {
    let mut registry = Registry::new();
    let matcher = started(RideType::ASAPEXPRESS, &mut registry);
    let (matcher, _) = matcher
        .step(&mut registry, Event::Candidates(vec![candidate(1, VehicleType::Bike, 100)]));
    let (matcher, _) = matcher.step(&mut registry, Event::NotifySent);
    let (matcher, _) = matcher.step(&mut registry, Event::Replied(DriverResponse::Accepted));
    let (matcher, action) = matcher.step(&mut registry, Event::OngoingTrips(1));
    assert_eq!(action, Ok(Action::PersistTrip));
    assert_eq!(matcher.pending_trip().unwrap().driver_id, 1);
}

#[test]
fn bike_driver_with_two_trips_is_over_cap() {
    let mut registry = Registry::new();
    let matcher = started(RideType::ASAPEXPRESS, &mut registry);
    let (matcher, _) = matcher
        .step(&mut registry, Event::Candidates(vec![candidate(1, VehicleType::Bike, 100)]));
    let (matcher, _) = matcher.step(&mut registry, Event::NotifySent);
    let (matcher, _) = matcher.step(&mut registry, Event::Replied(DriverResponse::Accepted));
    let (matcher, action) = matcher.step(&mut registry, Event::OngoingTrips(2));
    assert_eq!(action, Ok(Action::QueryDirectory { vehicle_type: VehicleType::Bike, limit: 10 }));
    assert!(matcher.pending_trip().is_none());
}

#[test]
fn candidate_at_five_kilometres_is_skipped_without_registering() {
    let mut registry = Registry::new();
    let matcher = started(RideType::ASAP, &mut registry);
    let (matcher, action) =
        matcher.step(&mut registry, Event::Candidates(vec![candidate(1, VehicleType::EV, 5000)]));
    // the round held a candidate, so there is no rest before the next one
    assert_eq!(action, Ok(Action::QueryDirectory { vehicle_type: VehicleType::EV, limit: 10 }));
    assert_eq!(registry.len(), 0);
    assert_eq!(matcher.offered_driver(), None);
    assert_eq!(matcher.rounds_left(), 2);
}

#[test]
fn candidate_just_inside_the_limit_is_offered_the_ride() {
    let mut registry = Registry::new();
    let matcher = started(RideType::ASAP, &mut registry);
    let (_, action) = matcher.step(
        &mut registry,
        Event::Candidates(vec![
            candidate(1, VehicleType::EV, 7000),
            candidate(2, VehicleType::EV, 5000),
            candidate(3, VehicleType::EV, 4999),
            candidate(4, VehicleType::EV, 10),
        ]),
    );
    assert_eq!(action, Ok(Action::NotifyDriver { driver_id: 3 }));
    assert_eq!(registry.len(), 1);
    assert!(registry.is_pending(3));
    assert!(!registry.is_pending(1) && !registry.is_pending(2) && !registry.is_pending(4));
}

#[test]
fn driver_with_a_pending_offer_is_skipped() {
    let mut registry = Registry::new();
    registry.register(1, 777).unwrap();
    let matcher = started(RideType::ASAP, &mut registry);
    let (_, action) = matcher.step(
        &mut registry,
        Event::Candidates(vec![
            candidate(1, VehicleType::EV, 100),
            candidate(2, VehicleType::EV, 200),
        ]),
    );
    assert_eq!(action, Ok(Action::NotifyDriver { driver_id: 2 }));
    // the other search's offer is untouched
    assert_eq!(registry.pending(1), Some(PendingNotification { driver_id: 1, rider_id: 777 }));
    assert_eq!(registry.len(), 2);
}

#[test]
fn failed_notification_cancels_the_offer_and_moves_on() {
    let mut registry = Registry::new();
    let matcher = started(RideType::ASAP, &mut registry);
    let (matcher, _) = matcher.step(
        &mut registry,
        Event::Candidates(vec![
            candidate(1, VehicleType::EV, 100),
            candidate(2, VehicleType::EV, 200),
        ]),
    );
    let (matcher, action) = matcher.step(&mut registry, Event::NotifyFailed);
    assert_eq!(action, Ok(Action::NotifyDriver { driver_id: 2 }));
    assert!(!registry.is_pending(1));
    assert!(registry.is_pending(2));
    assert_eq!(matcher.offered_driver(), Some(2));
}

#[test]
fn timeout_and_closed_channel_count_as_rejection() {
    for event in [
        Event::ReplyTimedOut,
        Event::ChannelClosed,
        Event::Replied(DriverResponse::Timeout),
        Event::Replied(DriverResponse::Rejected),
    ] {
        let mut registry = Registry::new();
        let matcher = started(RideType::ASAP, &mut registry);
        let (matcher, _) = matcher.step(
            &mut registry,
            Event::Candidates(vec![
                candidate(1, VehicleType::EV, 100),
                candidate(2, VehicleType::EV, 200),
            ]),
        );
        let (matcher, _) = matcher.step(&mut registry, Event::NotifySent);
        let (_, action) = matcher.step(&mut registry, event);
        assert_eq!(action, Ok(Action::NotifyDriver { driver_id: 2 }));
        assert!(!registry.is_pending(1));
    }
}

#[test]
fn late_reply_after_timeout_is_harmless() {
    let mut registry = Registry::new();
    let matcher = started(RideType::ASAP, &mut registry);
    let (matcher, _) =
        matcher.step(&mut registry, Event::Candidates(vec![candidate(1, VehicleType::EV, 100)]));
    let (matcher, _) = matcher.step(&mut registry, Event::NotifySent);
    let (_, _) = matcher.step(&mut registry, Event::ReplyTimedOut);
    assert_eq!(
        registry.resolve(1, DriverResponse::Accepted),
        ride_logic::registry::Resolution::NotFound
    );
    assert_eq!(registry.len(), 0);
}

#[test]
fn empty_round_rests_before_the_next_one() {
    let mut registry = Registry::new();
    let matcher = started(RideType::ASAP, &mut registry);
    let (matcher, action) = matcher.step(&mut registry, Event::Candidates(Vec::new()));
    assert_eq!(action, Ok(Action::Sleep { millis: 500 }));
    let (matcher, action) = matcher.step(&mut registry, Event::BackoffElapsed);
    assert_eq!(action, Ok(Action::QueryDirectory { vehicle_type: VehicleType::EV, limit: 10 }));
    assert_eq!(matcher.rounds_left(), 2);
}

#[test]
fn four_empty_rounds_end_without_a_driver() {
    let mut registry = Registry::new();
    let mut matcher = started(RideType::ASAP, &mut registry);
    let mut queries = 1;
    loop {
        let (next, action) = matcher.step(&mut registry, Event::Candidates(Vec::new()));
        assert_eq!(action, Ok(Action::Sleep { millis: 500 }));
        let (next, action) = next.step(&mut registry, Event::BackoffElapsed);
        matcher = next;
        match action {
            Ok(Action::QueryDirectory { .. }) => queries += 1,
            Ok(Action::Finish(MatchOutcome::NoDriverAvailable)) => break,
            other => panic!("unexpected {:?}", other),
        }
    }
    assert_eq!(queries, 4);
    assert!(matcher.is_finished());
}

#[test]
fn directory_failure_aborts_the_search() {
    let mut registry = Registry::new();
    let matcher = started(RideType::ASAP, &mut registry);
    let (matcher, action) = matcher.step(&mut registry, Event::StorageFailed);
    assert_eq!(action, Ok(Action::Finish(MatchOutcome::InfrastructureError)));
    assert!(matcher.is_finished());
}

#[test]
fn failure_to_store_the_trip_aborts_the_search() {
    let mut registry = Registry::new();
    let matcher = started(RideType::ASAP, &mut registry);
    let (matcher, _) =
        matcher.step(&mut registry, Event::Candidates(vec![candidate(1, VehicleType::EV, 100)]));
    let (matcher, _) = matcher.step(&mut registry, Event::NotifySent);
    let (matcher, _) = matcher.step(&mut registry, Event::Replied(DriverResponse::Accepted));
    let (matcher, _) = matcher.step(&mut registry, Event::OngoingTrips(0));
    let (matcher, action) = matcher.step(&mut registry, Event::StorageFailed);
    assert_eq!(action, Ok(Action::Finish(MatchOutcome::InfrastructureError)));
    assert!(matcher.is_finished());
}

#[test]
fn failure_to_count_trips_aborts_the_search() {
    let mut registry = Registry::new();
    let matcher = started(RideType::ASAP, &mut registry);
    let (matcher, _) =
        matcher.step(&mut registry, Event::Candidates(vec![candidate(1, VehicleType::EV, 100)]));
    let (matcher, _) = matcher.step(&mut registry, Event::NotifySent);
    let (matcher, _) = matcher.step(&mut registry, Event::Replied(DriverResponse::Accepted));
    let (_, action) = matcher.step(&mut registry, Event::StorageFailed);
    assert_eq!(action, Ok(Action::Finish(MatchOutcome::InfrastructureError)));
}

#[test]
fn unexpected_report_is_refused_and_changes_nothing() {
    let mut registry = Registry::new();
    let matcher = Matcher::new(MatchConfig::standard(), request(RideType::ASAP), rider());
    let (matcher, action) = matcher.step(&mut registry, Event::NotifySent);
    assert_eq!(action, Err(ProtocolError::UnexpectedEvent));
    assert_eq!(matcher.rounds_left(), 4);
    let (matcher, action) = matcher.step(&mut registry, Event::Begin);
    assert!(action.is_ok());
    let (matcher, action) = matcher.step(&mut registry, Event::Begin);
    assert_eq!(action, Err(ProtocolError::UnexpectedEvent));
    assert_eq!(matcher.rounds_left(), 3);
    let (matcher, _) =
        matcher.step(&mut registry, Event::Candidates(vec![candidate(1, VehicleType::EV, 100)]));
    let (matcher, action) = matcher.step(&mut registry, Event::OngoingTrips(0));
    assert_eq!(action, Err(ProtocolError::UnexpectedEvent));
    assert_eq!(matcher.offered_driver(), Some(1));
    assert!(registry.is_pending(1));
}

#[test]
fn finished_search_refuses_every_report() {
    let mut registry = Registry::new();
    let matcher = started(RideType::ASAP, &mut registry);
    let (matcher, _) = matcher.step(&mut registry, Event::StorageFailed);
    let (matcher, action) = matcher.step(&mut registry, Event::Begin);
    assert_eq!(action, Err(ProtocolError::UnexpectedEvent));
    assert!(matcher.is_finished());
}

#[test]
fn only_the_first_ten_candidates_of_a_round_are_looked_at() {
    let mut registry = Registry::new();
    let matcher = started(RideType::ASAP, &mut registry);
    let mut list: Vec<Candidate> =
        (1..=10).map(|id| candidate(id, VehicleType::EV, 9000)).collect();
    list.push(candidate(11, VehicleType::EV, 100));
    let (_, action) = matcher.step(&mut registry, Event::Candidates(list));
    assert_eq!(action, Ok(Action::QueryDirectory { vehicle_type: VehicleType::EV, limit: 10 }));
    assert_eq!(registry.len(), 0);
}

#[test]
fn search_without_rounds_ends_at_once() {
    let mut registry = Registry::new();
    let config = MatchConfig { max_rounds: 0, ..MatchConfig::standard() };
    let matcher = Matcher::new(config, request(RideType::ASAP), rider());
    let (matcher, action) = matcher.step(&mut registry, Event::Begin);
    assert_eq!(action, Ok(Action::Finish(MatchOutcome::NoDriverAvailable)));
    assert!(matcher.is_finished());
}

#[test]
fn custom_limits_are_handed_out_with_the_actions() {
    let mut registry = Registry::new();
    let config = MatchConfig {
        max_rounds: 2,
        candidates_per_round: 3,
        response_timeout_secs: 7,
        backoff_millis: 20,
        proximity_limit_m: 1000,
    };
    let matcher = Matcher::new(config, request(RideType::ASAPEXPRESS), rider());
    let (matcher, action) = matcher.step(&mut registry, Event::Begin);
    assert_eq!(action, Ok(Action::QueryDirectory { vehicle_type: VehicleType::Bike, limit: 3 }));
    let (matcher, action) = matcher.step(&mut registry, Event::Candidates(Vec::new()));
    assert_eq!(action, Ok(Action::Sleep { millis: 20 }));
    let (matcher, _) = matcher.step(&mut registry, Event::BackoffElapsed);
    let (matcher, action) = matcher.step(
        &mut registry,
        Event::Candidates(vec![
            candidate(1, VehicleType::Bike, 1000),
            candidate(2, VehicleType::Bike, 999),
        ]),
    );
    assert_eq!(action, Ok(Action::NotifyDriver { driver_id: 2 }));
    let (_, action) = matcher.step(&mut registry, Event::NotifySent);
    assert_eq!(action, Ok(Action::AwaitReply { driver_id: 2, timeout_secs: 7 }));
}

#[test]
fn every_run_ends_within_the_step_bound() {
    // worst case: every candidate is notified, accepts and is over the cap
    let mut registry = Registry::new();
    let mut matcher = Matcher::new(MatchConfig::standard(), request(RideType::ASAP), rider());
    let mut event = Event::Begin;
    let mut steps = 0;
    loop {
        let (next, action) = matcher.step(&mut registry, event);
        matcher = next;
        steps += 1;
        event = match action.unwrap() {
            Action::QueryDirectory { .. } => Event::Candidates(
                (1..=10).map(|id| candidate(id, VehicleType::EV, 10)).collect(),
            ),
            Action::NotifyDriver { .. } => Event::NotifySent,
            Action::AwaitReply { .. } => Event::Replied(DriverResponse::Accepted),
            Action::CountOngoingTrips { .. } => Event::OngoingTrips(5),
            Action::Finish(outcome) => {
                assert_eq!(outcome, MatchOutcome::NoDriverAvailable);
                break;
            }
            other => panic!("unexpected {:?}", other),
        };
    }
    assert!(steps <= 2 + 4 * (3 * 10 + 3));
    assert_eq!(registry.len(), 0);
}

#[test]
fn moving_on_leaves_another_riders_offer_alone() {
    let mut registry = Registry::new();
    let matcher = started(RideType::ASAP, &mut registry);
    let (matcher, _) = matcher.step(
        &mut registry,
        Event::Candidates(vec![
            candidate(1, VehicleType::EV, 100),
            candidate(2, VehicleType::EV, 200),
        ]),
    );
    let (matcher, _) = matcher.step(&mut registry, Event::NotifySent);
    // the driver's reply resolves our slot, and another rider's search files its own
    registry.resolve(1, DriverResponse::Rejected);
    registry.register(1, 777).unwrap();
    let (_, action) = matcher.step(&mut registry, Event::Replied(DriverResponse::Rejected));
    assert_eq!(action, Ok(Action::NotifyDriver { driver_id: 2 }));
    assert_eq!(registry.pending(1), Some(PendingNotification { driver_id: 1, rider_id: 777 }));
    assert_eq!(registry.pending(2), Some(PendingNotification { driver_id: 2, rider_id: RIDER }));
}

//! Finding a driver for a ride request.
//!
//! The search is a state machine. Whoever runs it performs the action that
//! a step hands out (ask the directory, notify a driver, wait for the reply,
//! count the driver's trips, store the trip, sleep) and reports what came of
//! it as the next event. All decisions are taken here: which candidate is
//! offered the ride, when the offer is withdrawn, when the search moves on,
//! and how it ends.

use crate::admin::Rider;
use crate::drivers::{vehicle_filter, vehicle_for, Driver, DriverInfo, DriverResponse, VehicleType};
use crate::limiter::within_cap;
use crate::registry::{release_model, PendingNotification, Registry, Slots};
use crate::riders::RideRequest;
use crate::trips::{draw_stamp, Trip, TripStamp};
use vstd::prelude::*;

verus! {

/// The bounds of a search.
#[derive(Debug, Clone, Copy, PartialEq, Eq, Structural)]
pub struct MatchConfig {
    /// How many times the directory is asked.
    pub max_rounds: u32,
    /// How many candidates of one answer are looked at.
    pub candidates_per_round: usize,
    /// How long a driver has to reply, in seconds.
    pub response_timeout_secs: u64,
    /// How long to rest after an empty answer, in milliseconds.
    pub backoff_millis: u64,
    /// A driver this far from the pick-up point, in metres, or farther is
    /// not offered the ride.
    pub proximity_limit_m: u64,
}

/// Four rounds of ten candidates, fifty seconds to reply, half a second of
/// rest, five kilometres.
pub open spec fn standard_config() -> MatchConfig {
    MatchConfig {
        max_rounds: 4,
        candidates_per_round: 10,
        response_timeout_secs: 50,
        backoff_millis: 500,
        proximity_limit_m: 5000,
    }
}

impl MatchConfig {
    pub fn standard() -> (config: Self)
        ensures
            config == standard_config(),
    {
        MatchConfig {
            max_rounds: 4,
            candidates_per_round: 10,
            response_timeout_secs: 50,
            backoff_millis: 500,
            proximity_limit_m: 5000,
        }
    }
}

/// A driver the directory proposes, with the distance from the pick-up point
/// to where the driver is, in metres.
#[derive(Debug, Clone, PartialEq, Eq)]
pub struct Candidate {
    pub driver: Driver,
    pub pickup_distance_m: u64,
}

/// What the search is waiting for while it still looks for a driver.
#[derive(Debug, Clone, PartialEq, Eq)]
pub enum SearchStep {
    /// Nothing has been asked yet.
    Start,
    /// The directory has been asked for candidates.
    AwaitingCandidates,
    /// Resting after an empty answer.
    Backoff,
    /// The driver holds an offer; the notification is on its way.
    Notifying(Driver),
    /// The driver has been notified and has yet to reply.
    AwaitingReply(Driver),
    /// The driver accepted; the driver's trips under way are being counted.
    CheckingCap(Driver),
}

/// What is reported to the search.
#[derive(Debug, Clone, PartialEq, Eq)]
pub enum Event {
    /// The search is to begin.
    Begin,
    /// The directory answered.
    Candidates(Vec<Candidate>),
    /// The directory or the trip store failed.
    StorageFailed,
    /// The rest is over.
    BackoffElapsed,
    /// The notification reached the driver.
    NotifySent,
    /// The notification could not be sent.
    NotifyFailed,
    /// The driver replied.
    Replied(DriverResponse),
    /// The time to reply ran out.
    ReplyTimedOut,
    /// The reply can no longer arrive.
    ChannelClosed,
    /// The driver has this many trips under way.
    OngoingTrips(u64),
    /// The trip has been stored.
    TripPersisted,
}

/// How a search ends.
#[derive(Debug, Clone, PartialEq, Eq)]
pub enum MatchOutcome {
    Matched { trip: Trip, driver: DriverInfo },
    NoDriverAvailable,
    InfrastructureError,
}

/// What the search asks for next.
#[derive(Debug, Clone, PartialEq, Eq)]
pub enum Action {
    /// Ask the directory for up to `limit` available drivers of this class.
    QueryDirectory { vehicle_type: VehicleType, limit: usize },
    /// Rest.
    Sleep { millis: u64 },
    /// Tell the driver of the request.
    NotifyDriver { driver_id: u128 },
    /// Wait for the driver's reply, no longer than this.
    AwaitReply { driver_id: u128, timeout_secs: u64 },
    /// Count the trips the driver has under way.
    CountOngoingTrips { driver_id: u128 },
    /// Store the trip that `pending_trip` shows.
    PersistTrip,
    /// The search is over.
    Finish(MatchOutcome),
}

/// A report that does not answer what the search asked for.
#[derive(Debug, Clone, Copy, PartialEq, Eq, Structural)]
pub enum ProtocolError {
    UnexpectedEvent,
}

/// Where a search stands.
pub enum Stage {
    Searching { request: RideRequest, rider: Rider, queue: Vec<Candidate>, step: SearchStep },
    Persisting { trip: Trip, driver: DriverInfo },
    Finished,
}

/// A search for a driver.
pub struct Matcher {
    config: MatchConfig,
    rounds_left: u32,
    stage: Stage,
}

/// Where a search stands, with the candidates still to be looked at as a
/// sequence.
pub enum StageView {
    Searching { request: RideRequest, rider: Rider, queue: Seq<Candidate>, step: SearchStep },
    Persisting { trip: Trip, driver: DriverInfo },
    Finished,
}

pub struct MatcherView {
    pub config: MatchConfig,
    pub rounds_left: u32,
    pub stage: StageView,
}

/// A step of the search: the search after it, the registry after it, and
/// what the search asks for.
pub struct Transition {
    pub next: MatcherView,
    pub slots: Slots,
    pub output: Result<Action, ProtocolError>,
}

impl View for Stage {
    type V = StageView;

    open spec fn view(&self) -> StageView {
        match *self {
            Stage::Searching { request, rider, queue, step } => StageView::Searching {
                request,
                rider,
                queue: queue@,
                step,
            },
            Stage::Persisting { trip, driver } => StageView::Persisting { trip, driver },
            Stage::Finished => StageView::Finished,
        }
    }
}

impl View for Matcher {
    type V = MatcherView;

    closed spec fn view(&self) -> MatcherView {
        MatcherView { config: self.config, rounds_left: self.rounds_left, stage: self.stage@ }
    }
}

/// A search that has ended.
pub open spec fn finished(config: MatchConfig, rounds_left: u32) -> MatcherView {
    MatcherView { config, rounds_left, stage: StageView::Finished }
}

/// A candidate is offered the ride only if the driver is nearer to the
/// pick-up point than the limit and has no other offer waiting.
pub open spec fn eligible(candidate: Candidate, slots: Slots, config: MatchConfig) -> bool {
    &&& candidate.pickup_distance_m < config.proximity_limit_m
    &&& !slots.contains_key(candidate.driver.driver_id)
}

/// The candidates of a directory answer that are looked at: the first
/// `candidates_per_round` of them.
pub open spec fn intake(list: Seq<Candidate>, config: MatchConfig) -> Seq<Candidate> {
    if config.candidates_per_round <= list.len() {
        list.take(config.candidates_per_round as int)
    } else {
        list
    }
}

/// The unexpected report: nothing changes.
pub open spec fn refuse_model(m: MatcherView, slots: Slots) -> Transition {
    Transition { next: m, slots, output: Err(ProtocolError::UnexpectedEvent) }
}

/// The end of a search for want of storage.
pub open spec fn abort_model(m: MatcherView, slots: Slots) -> Transition {
    Transition {
        next: finished(m.config, m.rounds_left),
        slots,
        output: Ok(Action::Finish(MatchOutcome::InfrastructureError)),
    }
}

/// Starting the next round: the directory is asked once more, unless all
/// rounds are spent, which ends the search without a driver.
pub open spec fn next_round_model(
    config: MatchConfig,
    rounds_left: u32,
    request: RideRequest,
    rider: Rider,
    slots: Slots,
) -> Transition {
    if rounds_left == 0 {
        Transition {
            next: finished(config, rounds_left),
            slots,
            output: Ok(Action::Finish(MatchOutcome::NoDriverAvailable)),
        }
    } else {
        Transition {
            next: MatcherView {
                config,
                rounds_left: (rounds_left - 1) as u32,
                stage: StageView::Searching {
                    request,
                    rider,
                    queue: Seq::empty(),
                    step: SearchStep::AwaitingCandidates,
                },
            },
            slots,
            output: Ok(
                Action::QueryDirectory {
                    vehicle_type: vehicle_for(request.ride_type),
                    limit: config.candidates_per_round,
                },
            ),
        }
    }
}

/// Offering the ride to a candidate: an offer is filed for the driver on
/// behalf of the request's rider, and the driver is to be notified.
pub open spec fn offer_model(
    config: MatchConfig,
    rounds_left: u32,
    request: RideRequest,
    rider: Rider,
    candidate: Candidate,
    rest: Seq<Candidate>,
    slots: Slots,
) -> Transition {
    let driver_id = candidate.driver.driver_id;
    Transition {
        next: MatcherView {
            config,
            rounds_left,
            stage: StageView::Searching {
                request,
                rider,
                queue: rest,
                step: SearchStep::Notifying(candidate.driver),
            },
        },
        slots: slots.insert(
            driver_id,
            PendingNotification { driver_id, rider_id: request.rider_id },
        ),
        output: Ok(Action::NotifyDriver { driver_id }),
    }
}

/// Moving on through the candidates of a round, in the order the directory
/// gave them: candidates that are not eligible are passed over without a
/// trace, the first eligible one is offered the ride, and when none is left
/// the next round starts.
pub open spec fn seek_model(
    config: MatchConfig,
    rounds_left: u32,
    request: RideRequest,
    rider: Rider,
    queue: Seq<Candidate>,
    slots: Slots,
) -> Transition
    decreases queue.len(),
{
    if queue.len() == 0 {
        next_round_model(config, rounds_left, request, rider, slots)
    } else if eligible(queue[0], slots, config) {
        offer_model(config, rounds_left, request, rider, queue[0], queue.drop_first(), slots)
    } else {
        seek_model(config, rounds_left, request, rider, queue.drop_first(), slots)
    }
}

/// The trip that a search holds for storing.
pub open spec fn minted(m: MatcherView) -> Trip {
    match m.stage {
        StageView::Persisting { trip, .. } => trip,
        _ => arbitrary(),
    }
}

/// One step of the search. `trip` is the trip made if the step is the one
/// that accepts a driver.
///
/// - When the search begins, and when a rest is over, the next round starts.
/// - When the directory answers, the first `candidates_per_round` candidates
///   are looked at; with none to look at the search rests, else it moves on
///   through them.
/// - When the notification has reached the driver, the reply is awaited; when
///   it could not be sent, the rider's offer to the driver is released and
///   the search moves on.
/// - When the driver accepts, the offer is released and the driver's trips
///   are counted. Any other reply, a reply that does not come in time and a
///   reply that can no longer come all count as a refusal: the offer is
///   released and the search moves on.
/// - When the trips are counted, a driver within the cap gets the trip, which
///   is then to be stored; a driver at the cap is treated as one who refused.
/// - When the trip is stored, the search ends with the trip and its driver.
/// - When the directory, the count or the store fails, the search ends with
///   an infrastructure error.
/// - Every other report is refused and changes nothing.
pub open spec fn advance_model(m: MatcherView, slots: Slots, event: Event, trip: Trip) -> Transition {
    let config = m.config;
    let left = m.rounds_left;
    match m.stage {
        StageView::Finished => refuse_model(m, slots),
        StageView::Persisting { trip: held, driver } => match event {
            Event::TripPersisted => Transition {
                next: finished(config, left),
                slots,
                output: Ok(Action::Finish(MatchOutcome::Matched { trip: held, driver })),
            },
            Event::StorageFailed => abort_model(m, slots),
            _ => refuse_model(m, slots),
        },
        StageView::Searching { request, rider, queue, step } => match step {
            SearchStep::Start => match event {
                Event::Begin => next_round_model(config, left, request, rider, slots),
                _ => refuse_model(m, slots),
            },
            SearchStep::AwaitingCandidates => match event {
                Event::Candidates(list) => if intake(list@, config).len() == 0 {
                    Transition {
                        next: MatcherView {
                            config,
                            rounds_left: left,
                            stage: StageView::Searching {
                                request,
                                rider,
                                queue: Seq::empty(),
                                step: SearchStep::Backoff,
                            },
                        },
                        slots,
                        output: Ok(Action::Sleep { millis: config.backoff_millis }),
                    }
                } else {
                    seek_model(config, left, request, rider, intake(list@, config), slots)
                },
                Event::StorageFailed => abort_model(m, slots),
                _ => refuse_model(m, slots),
            },
            SearchStep::Backoff => match event {
                Event::BackoffElapsed => next_round_model(config, left, request, rider, slots),
                _ => refuse_model(m, slots),
            },
            SearchStep::Notifying(driver) => match event {
                Event::NotifySent => Transition {
                    next: MatcherView {
                        config,
                        rounds_left: left,
                        stage: StageView::Searching {
                            request,
                            rider,
                            queue,
                            step: SearchStep::AwaitingReply(driver),
                        },
                    },
                    slots,
                    output: Ok(
                        Action::AwaitReply {
                            driver_id: driver.driver_id,
                            timeout_secs: config.response_timeout_secs,
                        },
                    ),
                },
                Event::NotifyFailed => seek_model(
                    config,
                    left,
                    request,
                    rider,
                    queue,
                    release_model(slots, driver.driver_id, request.rider_id).0,
                ),
                _ => refuse_model(m, slots),
            },
            SearchStep::AwaitingReply(driver) => match event {
                Event::Replied(DriverResponse::Accepted) => Transition {
                    next: MatcherView {
                        config,
                        rounds_left: left,
                        stage: StageView::Searching {
                            request,
                            rider,
                            queue,
                            step: SearchStep::CheckingCap(driver),
                        },
                    },
                    slots: release_model(slots, driver.driver_id, request.rider_id).0,
                    output: Ok(Action::CountOngoingTrips { driver_id: driver.driver_id }),
                },
                Event::Replied(_) | Event::ReplyTimedOut | Event::ChannelClosed => seek_model(
                    config,
                    left,
                    request,
                    rider,
                    queue,
                    release_model(slots, driver.driver_id, request.rider_id).0,
                ),
                _ => refuse_model(m, slots),
            },
            SearchStep::CheckingCap(driver) => match event {
                Event::OngoingTrips(ongoing) => if within_cap(ongoing, driver.vehicle_type) {
                    Transition {
                        next: MatcherView {
                            config,
                            rounds_left: left,
                            stage: StageView::Persisting { trip, driver: driver.info_spec() },
                        },
                        slots,
                        output: Ok(Action::PersistTrip),
                    }
                } else {
                    seek_model(config, left, request, rider, queue, slots)
                },
                Event::StorageFailed => abort_model(m, slots),
                _ => refuse_model(m, slots),
            },
        },
    }
}

/// Whether this step accepts a driver: the driver said yes and is found to
/// have room for one more trip.
pub open spec fn accepts(m: MatcherView, event: Event) -> bool {
    &&& m.stage matches StageView::Searching { step: SearchStep::CheckingCap(driver), .. }
    &&& event matches Event::OngoingTrips(ongoing)
    &&& within_cap(ongoing, driver.vehicle_type)
}

/// The trip of an accepting step is the new trip of the driver, the rider and
/// the request of the search.
pub open spec fn minted_for(m: MatcherView, trip: Trip, stamp: TripStamp) -> bool {
    m.stage matches StageView::Searching { request, rider, step: SearchStep::CheckingCap(driver), .. }
        ==> trip.is_new_for(driver, rider, request, stamp)
}

fn next_round(config: MatchConfig, rounds_left: u32, request: RideRequest, rider: Rider) -> (res: (
    Matcher,
    Result<Action, ProtocolError>,
))
    ensures
        res.0@ == next_round_model(config, rounds_left, request, rider, Slots::empty()).next,
        res.1 == next_round_model(config, rounds_left, request, rider, Slots::empty()).output,
{
    if rounds_left == 0 {
        (
            Matcher { config, rounds_left, stage: Stage::Finished },
            Ok(Action::Finish(MatchOutcome::NoDriverAvailable)),
        )
    } else {
        let vehicle_type: VehicleType = vehicle_filter(request.ride_type);
        (
            Matcher {
                config,
                rounds_left: rounds_left - 1,
                stage: Stage::Searching {
                    request,
                    rider,
                    queue: Vec::new(),
                    step: SearchStep::AwaitingCandidates,
                },
            },
            Ok(Action::QueryDirectory { vehicle_type, limit: config.candidates_per_round }),
        )
    }
}

fn seek(
    config: MatchConfig,
    rounds_left: u32,
    request: RideRequest,
    rider: Rider,
    candidates: Vec<Candidate>,
    registry: &mut Registry,
) -> (res: (Matcher, Result<Action, ProtocolError>))
    ensures
        ({
            let t = seek_model(config, rounds_left, request, rider, candidates@, old(registry)@);
            &&& res.0@ == t.next
            &&& final(registry)@ == t.slots
            &&& res.1 == t.output
        }),
{
    let ghost whole = candidates@;
    let ghost slots = registry@;
    let mut queue = candidates;
    while queue.len() > 0
        invariant
            registry@ == slots,
            slots == old(registry)@,
            whole == candidates@,
            seek_model(config, rounds_left, request, rider, queue@, slots) == seek_model(
                config,
                rounds_left,
                request,
                rider,
                whole,
                slots,
            ),
        decreases queue@.len(),
    {
        let ghost before = queue@;
        let candidate: Candidate = queue.remove(0);
        assert(queue@ =~= before.drop_first());
        assert(candidate == before[0]);
        if candidate.pickup_distance_m < config.proximity_limit_m {
            let driver_id: u128 = candidate.driver.driver_id;
            match registry.register(driver_id, request.rider_id) {
                Ok(_) => {
                    assert(eligible(before[0], slots, config));
                    assert(seek_model(config, rounds_left, request, rider, before, slots)
                        == offer_model(
                        config,
                        rounds_left,
                        request,
                        rider,
                        before[0],
                        before.drop_first(),
                        slots,
                    ));
                    return (
                        Matcher {
                            config,
                            rounds_left,
                            stage: Stage::Searching {
                                request,
                                rider,
                                queue,
                                step: SearchStep::Notifying(candidate.driver),
                            },
                        },
                        Ok(Action::NotifyDriver { driver_id }),
                    );
                },
                Err(_) => {},
            }
        }
    }
    assert(queue@ =~= Seq::<Candidate>::empty());
    next_round(config, rounds_left, request, rider)
}

/// Makes sure that no offer of this rider to this driver is left waiting.
fn withdraw(registry: &mut Registry, driver_id: u128, rider_id: u128)
    ensures
        final(registry)@ == release_model(old(registry)@, driver_id, rider_id).0,
{
    registry.release(driver_id, rider_id);
}

fn refuse(config: MatchConfig, rounds_left: u32, stage: Stage) -> (res: (
    Matcher,
    Result<Action, ProtocolError>,
))
    ensures
        res.0@ == (MatcherView { config, rounds_left, stage: stage@ }),
        res.1 == Err::<Action, ProtocolError>(ProtocolError::UnexpectedEvent),
{
    (Matcher { config, rounds_left, stage }, Err(ProtocolError::UnexpectedEvent))
}

fn abort(config: MatchConfig, rounds_left: u32) -> (res: (Matcher, Result<Action, ProtocolError>))
    ensures
        res.0@ == finished(config, rounds_left),
        res.1 == Ok::<Action, ProtocolError>(Action::Finish(MatchOutcome::InfrastructureError)),
{
    (
        Matcher { config, rounds_left, stage: Stage::Finished },
        Ok(Action::Finish(MatchOutcome::InfrastructureError)),
    )
}

impl Matcher {
    /// A search for a driver for `request`, made by `rider`, that has not
    /// begun yet.
    pub fn new(config: MatchConfig, request: RideRequest, rider: Rider) -> (m: Self)
        ensures
            m@ == (MatcherView {
                config,
                rounds_left: config.max_rounds,
                stage: StageView::Searching {
                    request,
                    rider,
                    queue: Seq::empty(),
                    step: SearchStep::Start,
                },
            }),
    {
        Matcher {
            config,
            rounds_left: config.max_rounds,
            stage: Stage::Searching { request, rider, queue: Vec::new(), step: SearchStep::Start },
        }
    }

    /// Whether the search is over.
    pub fn is_finished(&self) -> (over: bool)
        ensures
            over == (self@.stage is Finished),
    {
        match self.stage {
            Stage::Finished => true,
            _ => false,
        }
    }

    /// How many more times the directory may be asked.
    pub fn rounds_left(&self) -> (left: u32)
        ensures
            left == self@.rounds_left,
    {
        self.rounds_left
    }

    /// The trip that is to be stored, while the search waits for that.
    pub fn pending_trip(&self) -> (trip: Option<&Trip>)
        ensures
            match self@.stage {
                StageView::Persisting { trip: held, .. } => trip == Some(&held),
                _ => trip is None,
            },
    {
        match &self.stage {
            Stage::Persisting { trip, .. } => Some(trip),
            _ => None,
        }
    }

    /// The driver who holds the offer of this search, if one does.
    pub fn offered_driver(&self) -> (driver: Option<u128>)
        ensures
            driver == offered(self@),
    {
        match &self.stage {
            Stage::Searching { step, .. } => match step {
                SearchStep::Notifying(d) => Some(d.driver_id),
                SearchStep::AwaitingReply(d) => Some(d.driver_id),
                _ => None,
            },
            _ => None,
        }
    }

    /// One step of the search, with the stamp to put on the trip should this
    /// step accept a driver.
    pub fn advance(self, registry: &mut Registry, event: Event, stamp: TripStamp) -> (res: (
        Matcher,
        Result<Action, ProtocolError>,
    ))
        ensures
            ({
                let t = advance_model(self@, old(registry)@, event, minted(res.0@));
                &&& res.0@ == t.next
                &&& final(registry)@ == t.slots
                &&& res.1 == t.output
            }),
            accepts(self@, event) ==> minted_for(self@, minted(res.0@), stamp),
    {
        let config = self.config;
        let rounds_left = self.rounds_left;
        match self.stage {
            Stage::Finished => refuse(config, rounds_left, Stage::Finished),
            Stage::Persisting { trip, driver } => match event {
                Event::TripPersisted => (
                    Matcher { config, rounds_left, stage: Stage::Finished },
                    Ok(Action::Finish(MatchOutcome::Matched { trip, driver })),
                ),
                Event::StorageFailed => abort(config, rounds_left),
                _ => refuse(config, rounds_left, Stage::Persisting { trip, driver }),
            },
            Stage::Searching { request, rider, queue, step } => match step {
                SearchStep::Start => match event {
                    Event::Begin => next_round(config, rounds_left, request, rider),
                    _ => refuse(
                        config,
                        rounds_left,
                        Stage::Searching { request, rider, queue, step: SearchStep::Start },
                    ),
                },
                SearchStep::AwaitingCandidates => match event {
                    Event::Candidates(list) => {
                        let mut list = list;
                        list.truncate(config.candidates_per_round);
                        if list.len() == 0 {
                            assert(list@ =~= Seq::<Candidate>::empty());
                            (
                                Matcher {
                                    config,
                                    rounds_left,
                                    stage: Stage::Searching {
                                        request,
                                        rider,
                                        queue: list,
                                        step: SearchStep::Backoff,
                                    },
                                },
                                Ok(Action::Sleep { millis: config.backoff_millis }),
                            )
                        } else {
                            seek(config, rounds_left, request, rider, list, registry)
                        }
                    },
                    Event::StorageFailed => abort(config, rounds_left),
                    _ => refuse(
                        config,
                        rounds_left,
                        Stage::Searching {
                            request,
                            rider,
                            queue,
                            step: SearchStep::AwaitingCandidates,
                        },
                    ),
                },
                SearchStep::Backoff => match event {
                    Event::BackoffElapsed => next_round(config, rounds_left, request, rider),
                    _ => refuse(
                        config,
                        rounds_left,
                        Stage::Searching { request, rider, queue, step: SearchStep::Backoff },
                    ),
                },
                SearchStep::Notifying(driver) => match event {
                    Event::NotifySent => {
                        let driver_id: u128 = driver.driver_id;
                        (
                            Matcher {
                                config,
                                rounds_left,
                                stage: Stage::Searching {
                                    request,
                                    rider,
                                    queue,
                                    step: SearchStep::AwaitingReply(driver),
                                },
                            },
                            Ok(
                                Action::AwaitReply {
                                    driver_id,
                                    timeout_secs: config.response_timeout_secs,
                                },
                            ),
                        )
                    },
                    Event::NotifyFailed => {
                        withdraw(registry, driver.driver_id, request.rider_id);
                        seek(config, rounds_left, request, rider, queue, registry)
                    },
                    _ => refuse(
                        config,
                        rounds_left,
                        Stage::Searching {
                            request,
                            rider,
                            queue,
                            step: SearchStep::Notifying(driver),
                        },
                    ),
                },
                SearchStep::AwaitingReply(driver) => match event {
                    Event::Replied(DriverResponse::Accepted) => {
                        let driver_id: u128 = driver.driver_id;
                        withdraw(registry, driver_id, request.rider_id);
                        (
                            Matcher {
                                config,
                                rounds_left,
                                stage: Stage::Searching {
                                    request,
                                    rider,
                                    queue,
                                    step: SearchStep::CheckingCap(driver),
                                },
                            },
                            Ok(Action::CountOngoingTrips { driver_id }),
                        )
                    },
                    Event::Replied(_) | Event::ReplyTimedOut | Event::ChannelClosed => {
                        withdraw(registry, driver.driver_id, request.rider_id);
                        seek(config, rounds_left, request, rider, queue, registry)
                    },
                    _ => refuse(
                        config,
                        rounds_left,
                        Stage::Searching {
                            request,
                            rider,
                            queue,
                            step: SearchStep::AwaitingReply(driver),
                        },
                    ),
                },
                SearchStep::CheckingCap(driver) => match event {
                    Event::OngoingTrips(ongoing) => {
                        if within_cap(ongoing, driver.vehicle_type) {
                            let info: DriverInfo = driver.info();
                            let trip: Trip = Trip::assemble(driver, rider, request, stamp);
                            (
                                Matcher {
                                    config,
                                    rounds_left,
                                    stage: Stage::Persisting { trip, driver: info },
                                },
                                Ok(Action::PersistTrip),
                            )
                        } else {
                            seek(config, rounds_left, request, rider, queue, registry)
                        }
                    },
                    Event::StorageFailed => abort(config, rounds_left),
                    _ => refuse(
                        config,
                        rounds_left,
                        Stage::Searching {
                            request,
                            rider,
                            queue,
                            step: SearchStep::CheckingCap(driver),
                        },
                    ),
                },
            },
        }
    }

    /// One step of the search. Should this step accept a driver, the trip
    /// starts now and gets a fresh reference.
    pub fn step(self, registry: &mut Registry, event: Event) -> (res: (
        Matcher,
        Result<Action, ProtocolError>,
    ))
        ensures
            ({
                let t = advance_model(self@, old(registry)@, event, minted(res.0@));
                &&& res.0@ == t.next
                &&& final(registry)@ == t.slots
                &&& res.1 == t.output
            }),
            accepts(self@, event) ==> minted_for(
                self@,
                minted(res.0@),
                TripStamp {
                    start_ts: minted(res.0@).start_ts,
                    reference: minted(res.0@).reference,
                },
            ),
    {
        let stamp: TripStamp = match &self.stage {
            Stage::Searching { step: SearchStep::CheckingCap(_), .. } => draw_stamp(),
            _ => TripStamp { start_ts: 0, reference: String::new() },
        };
        self.advance(registry, event, stamp)
    }
}

/// The driver who holds the offer of a search, if one does.
pub open spec fn offered(m: MatcherView) -> Option<u128> {
    match m.stage {
        StageView::Searching { step: SearchStep::Notifying(d), .. } => Some(d.driver_id),
        StageView::Searching { step: SearchStep::AwaitingReply(d), .. } => Some(d.driver_id),
        _ => None,
    }
}

} // verus!

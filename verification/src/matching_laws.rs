//! What holds of every search, whatever is reported to it.

use crate::admin::Rider;
use crate::limiter::within_cap;
use crate::matching::{
    accepts, advance_model, eligible, next_round_model, offer_model, offered, seek_model, Action,
    Candidate, Event, MatchConfig, MatchOutcome, MatcherView, SearchStep, StageView,
};
use crate::registry::{release_model, Slots};
use crate::riders::RideRequest;
use crate::trips::Trip;
use vstd::prelude::*;

verus! {

/// The place in a round of the first candidate who can be offered the ride.
pub open spec fn first_eligible(queue: Seq<Candidate>, slots: Slots, config: MatchConfig) -> Option<
    int,
>
    decreases queue.len(),
{
    if queue.len() == 0 {
        None
    } else if eligible(queue[0], slots, config) {
        Some(0)
    } else {
        match first_eligible(queue.drop_first(), slots, config) {
            Some(i) => Some(i + 1),
            None => None,
        }
    }
}

/// `first_eligible` names an eligible candidate before whom none is
/// eligible, and names none only if none is eligible.
pub proof fn lemma_first_eligible(queue: Seq<Candidate>, slots: Slots, config: MatchConfig)
    ensures
        match first_eligible(queue, slots, config) {
            Some(i) => {
                &&& 0 <= i < queue.len()
                &&& eligible(queue[i], slots, config)
                &&& forall|j: int| 0 <= j < i ==> !eligible(#[trigger] queue[j], slots, config)
            },
            None => forall|j: int|
                0 <= j < queue.len() ==> !eligible(#[trigger] queue[j], slots, config),
        },
    decreases queue.len(),
{
    if queue.len() > 0 && !eligible(queue[0], slots, config) {
        let rest = queue.drop_first();
        lemma_first_eligible(rest, slots, config);
        assert forall|j: int| 1 <= j < queue.len() implies queue[j] == rest[j - 1] by {}
        match first_eligible(rest, slots, config) {
            Some(i) => {
                assert forall|j: int| 0 <= j < i + 1 implies !eligible(
                    #[trigger] queue[j],
                    slots,
                    config,
                ) by {
                    if j > 0 {
                        assert(queue[j] == rest[j - 1]);
                    }
                }
            },
            None => {
                assert forall|j: int| 0 <= j < queue.len() implies !eligible(
                    #[trigger] queue[j],
                    slots,
                    config,
                ) by {
                    if j > 0 {
                        assert(queue[j] == rest[j - 1]);
                    }
                }
            },
        }
    }
}

/// Moving on through a round offers the ride to the first eligible
/// candidate, keeps those after that candidate for later, and files exactly
/// one offer; with no eligible candidate it files nothing and starts the
/// next round.
pub proof fn lemma_seek_offers_first_eligible(
    config: MatchConfig,
    rounds_left: u32,
    request: RideRequest,
    rider: Rider,
    queue: Seq<Candidate>,
    slots: Slots,
)
    ensures
        seek_model(config, rounds_left, request, rider, queue, slots) == (match first_eligible(
            queue,
            slots,
            config,
        ) {
            Some(i) => offer_model(
                config,
                rounds_left,
                request,
                rider,
                queue[i],
                queue.skip(i + 1),
                slots,
            ),
            None => next_round_model(config, rounds_left, request, rider, slots),
        }),
    decreases queue.len(),
{
    if queue.len() > 0 {
        let rest = queue.drop_first();
        if eligible(queue[0], slots, config) {
            assert(queue.skip(1) =~= rest);
        } else {
            lemma_seek_offers_first_eligible(config, rounds_left, request, rider, rest, slots);
            match first_eligible(rest, slots, config) {
                Some(i) => {
                    lemma_first_eligible(rest, slots, config);
                    assert(queue[i + 1] == rest[i]);
                    assert(queue.skip(i + 2) =~= rest.skip(i + 1));
                },
                None => {},
            }
        }
    }
}

/// The proximity gate: a round in which every candidate is as far from the
/// pick-up point as the limit, or farther, notifies nobody and leaves the
/// registry as it was.
pub proof fn lemma_far_candidates_leave_no_trace(
    config: MatchConfig,
    rounds_left: u32,
    request: RideRequest,
    rider: Rider,
    queue: Seq<Candidate>,
    slots: Slots,
)
    requires
        forall|j: int|
            0 <= j < queue.len() ==> (#[trigger] queue[j]).pickup_distance_m
                >= config.proximity_limit_m,
    ensures
        seek_model(config, rounds_left, request, rider, queue, slots) == next_round_model(
            config,
            rounds_left,
            request,
            rider,
            slots,
        ),
        seek_model(config, rounds_left, request, rider, queue, slots).slots == slots,
{
    lemma_first_eligible(queue, slots, config);
    lemma_seek_offers_first_eligible(config, rounds_left, request, rider, queue, slots);
}

/// The proximity gate, candidate by candidate: whoever is notified is
/// nearer to the pick-up point than the limit and had no offer waiting, and
/// no offer is filed for anyone else.
pub proof fn lemma_only_near_candidates_are_offered(
    config: MatchConfig,
    rounds_left: u32,
    request: RideRequest,
    rider: Rider,
    queue: Seq<Candidate>,
    slots: Slots,
)
    ensures
        ({
            let t = seek_model(config, rounds_left, request, rider, queue, slots);
            match t.output {
                Ok(Action::NotifyDriver { driver_id }) => {
                    &&& !slots.contains_key(driver_id)
                    &&& t.slots == slots.insert(driver_id, t.slots[driver_id])
                    &&& t.slots[driver_id].rider_id == request.rider_id
                    &&& exists|i: int|
                        0 <= i < queue.len() && (#[trigger] queue[i]).driver.driver_id == driver_id
                            && queue[i].pickup_distance_m < config.proximity_limit_m
                },
                _ => t.slots == slots,
            }
        }),
{
    lemma_first_eligible(queue, slots, config);
    lemma_seek_offers_first_eligible(config, rounds_left, request, rider, queue, slots);
}

/// Moving on never makes a trip: it ends in a new offer, a new round, or
/// the end of the search without a driver.
pub proof fn lemma_seek_makes_no_trip(
    config: MatchConfig,
    rounds_left: u32,
    request: RideRequest,
    rider: Rider,
    queue: Seq<Candidate>,
    slots: Slots,
)
    ensures
        ({
            let t = seek_model(config, rounds_left, request, rider, queue, slots);
            &&& !(t.next.stage is Persisting)
            &&& t.output != Ok::<Action, crate::matching::ProtocolError>(Action::PersistTrip)
            &&& !(t.output matches Ok(Action::Finish(MatchOutcome::Matched { .. })))
        }),
{
    lemma_seek_offers_first_eligible(config, rounds_left, request, rider, queue, slots);
}

/// A trip is made in one step only: the one in which a driver who said yes
/// is found to have room for one more trip. In every other step no trip is
/// made.
pub proof fn lemma_trip_only_within_cap(m: MatcherView, slots: Slots, event: Event, trip: Trip)
    requires
        !(m.stage is Persisting),
    ensures
        (advance_model(m, slots, event, trip).next.stage is Persisting) <==> accepts(m, event),
{
    match m.stage {
        StageView::Searching { request, rider, queue, step } => {
            lemma_seek_makes_no_trip(m.config, m.rounds_left, request, rider, queue, slots);
            match step {
                SearchStep::AwaitingCandidates => {
                    if let Event::Candidates(list) = event {
                        lemma_seek_makes_no_trip(
                            m.config,
                            m.rounds_left,
                            request,
                            rider,
                            crate::matching::intake(list@, m.config),
                            slots,
                        );
                    }
                },
                SearchStep::Notifying(driver) => {
                    lemma_seek_makes_no_trip(
                        m.config,
                        m.rounds_left,
                        request,
                        rider,
                        queue,
                        release_model(slots, driver.driver_id, request.rider_id).0,
                    );
                },
                SearchStep::AwaitingReply(driver) => {
                    lemma_seek_makes_no_trip(
                        m.config,
                        m.rounds_left,
                        request,
                        rider,
                        queue,
                        release_model(slots, driver.driver_id, request.rider_id).0,
                    );
                },
                _ => {},
            }
        },
        _ => {},
    }
}

/// A driver who says yes but already has as many trips under way as the cap
/// allows is treated as one who said no: no trip is made, and the search
/// moves on to the next candidate.
pub proof fn lemma_over_cap_is_rejection(
    m: MatcherView,
    slots: Slots,
    ongoing: u64,
    trip: Trip,
)
    requires
        m.stage matches StageView::Searching { step: SearchStep::CheckingCap(driver), .. }
            && !within_cap(ongoing, driver.vehicle_type),
    ensures
        ({
            let t = advance_model(m, slots, Event::OngoingTrips(ongoing), trip);
            &&& m.stage matches StageView::Searching { request, rider, queue, .. } && t
                == seek_model(m.config, m.rounds_left, request, rider, queue, slots)
            &&& !(t.next.stage is Persisting)
            &&& !(t.output matches Ok(Action::Finish(MatchOutcome::Matched { .. })))
        }),
{
    match m.stage {
        StageView::Searching { request, rider, queue, step } => {
            lemma_seek_makes_no_trip(m.config, m.rounds_left, request, rider, queue, slots);
        },
        _ => {},
    }
}

/// A step touches the registry only for the driver who held the offer of
/// this search before the step and the driver who holds it after. The offers
/// of all other drivers stay as they are.
pub proof fn lemma_step_touches_own_offers_only(
    m: MatcherView,
    slots: Slots,
    event: Event,
    trip: Trip,
    other: u128,
)
    requires
        offered(m) != Some(other),
        offered(advance_model(m, slots, event, trip).next) != Some(other),
    ensures
        ({
            let t = advance_model(m, slots, event, trip);
            &&& t.slots.contains_key(other) == slots.contains_key(other)
            &&& slots.contains_key(other) ==> t.slots[other] == slots[other]
        }),
{
    match m.stage {
        StageView::Searching { request, rider, queue, step } => {
            match step {
                SearchStep::AwaitingCandidates => {
                    if let Event::Candidates(list) = event {
                        lemma_seek_offers_first_eligible(
                            m.config,
                            m.rounds_left,
                            request,
                            rider,
                            crate::matching::intake(list@, m.config),
                            slots,
                        );
                    }
                },
                SearchStep::Notifying(driver) => {
                    lemma_seek_offers_first_eligible(
                        m.config,
                        m.rounds_left,
                        request,
                        rider,
                        queue,
                        release_model(slots, driver.driver_id, request.rider_id).0,
                    );
                },
                SearchStep::AwaitingReply(driver) => {
                    lemma_seek_offers_first_eligible(
                        m.config,
                        m.rounds_left,
                        request,
                        rider,
                        queue,
                        release_model(slots, driver.driver_id, request.rider_id).0,
                    );
                },
                SearchStep::CheckingCap(driver) => {
                    lemma_seek_offers_first_eligible(
                        m.config,
                        m.rounds_left,
                        request,
                        rider,
                        queue,
                        slots,
                    );
                },
                _ => {},
            }
        },
        _ => {},
    }
}

/// The rider on whose behalf a search files its offers.
pub open spec fn searching_for(m: MatcherView) -> Option<u128> {
    match m.stage {
        StageView::Searching { request, .. } => Some(request.rider_id),
        _ => None,
    }
}

/// The registry holds no offer but the one of this search.
pub open spec fn holds_own_offer_only(m: MatcherView, slots: Slots) -> bool {
    forall|d: u128| #[trigger]
        slots.contains_key(d) ==> offered(m) == Some(d) && searching_for(m) == Some(
            slots[d].rider_id,
        )
}

/// A search that works on a registry of its own leaves nothing behind: if
/// before a step the registry holds no offer but the one of this search, the
/// same is true after it. A search that is over holds no offer, so its
/// registry is empty.
pub proof fn lemma_no_offer_left_behind(m: MatcherView, slots: Slots, event: Event, trip: Trip)
    requires
        holds_own_offer_only(m, slots),
    ensures
        ({
            let t = advance_model(m, slots, event, trip);
            &&& holds_own_offer_only(t.next, t.slots)
            &&& t.next.stage is Finished ==> t.slots =~= Slots::empty()
        }),
{
    let t = advance_model(m, slots, event, trip);
    lemma_offer_withdrawn_on_moving_on(m, slots, event, trip);
    lemma_new_offer_is_own(m, slots, event, trip);
    assert forall|d: u128| #[trigger] t.slots.contains_key(d) implies offered(t.next) == Some(d)
        && searching_for(t.next) == Some(t.slots[d].rider_id) by {
        if offered(m) == Some(d) {
            lemma_kept_offer_is_untouched(m, slots, event, trip, d);
        } else if offered(t.next) != Some(d) {
            lemma_step_touches_own_offers_only(m, slots, event, trip, d);
        }
    }
}

/// When the offer of a search passes from one driver to another, or to
/// nobody, no offer of the search's rider to the first driver is left in
/// the registry. An offer that another rider has filed for that driver since
/// is not touched.
pub proof fn lemma_offer_withdrawn_on_moving_on(
    m: MatcherView,
    slots: Slots,
    event: Event,
    trip: Trip,
)
    ensures
        ({
            let t = advance_model(m, slots, event, trip);
            forall|d: u128|
                offered(m) == Some(d) && offered(t.next) != Some(d) ==> !(
                #[trigger] t.slots.contains_key(d) && searching_for(m) == Some(
                    t.slots[d].rider_id,
                ))
        }),
{
    match m.stage {
        StageView::Searching { request, rider, queue, step } => {
            match step {
                SearchStep::Notifying(driver) => {
                    lemma_seek_offers_first_eligible(
                        m.config,
                        m.rounds_left,
                        request,
                        rider,
                        queue,
                        release_model(slots, driver.driver_id, request.rider_id).0,
                    );
                },
                SearchStep::AwaitingReply(driver) => {
                    lemma_seek_offers_first_eligible(
                        m.config,
                        m.rounds_left,
                        request,
                        rider,
                        queue,
                        release_model(slots, driver.driver_id, request.rider_id).0,
                    );
                },
                _ => {},
            }
        },
        _ => {},
    }
}

/// An offer that a step files is filed on behalf of the search's rider.
pub proof fn lemma_new_offer_is_own(m: MatcherView, slots: Slots, event: Event, trip: Trip)
    ensures
        ({
            let t = advance_model(m, slots, event, trip);
            forall|d: u128|
                offered(t.next) == Some(d) && offered(m) != Some(d) ==> #[trigger] t.slots.contains_key(
                    d,
                ) && searching_for(t.next) == Some(t.slots[d].rider_id)
        }),
{
    match m.stage {
        StageView::Searching { request, rider, queue, step } => {
            match step {
                SearchStep::AwaitingCandidates => {
                    if let Event::Candidates(list) = event {
                        lemma_seek_offers_first_eligible(
                            m.config,
                            m.rounds_left,
                            request,
                            rider,
                            crate::matching::intake(list@, m.config),
                            slots,
                        );
                    }
                },
                SearchStep::Notifying(driver) => {
                    lemma_seek_offers_first_eligible(
                        m.config,
                        m.rounds_left,
                        request,
                        rider,
                        queue,
                        release_model(slots, driver.driver_id, request.rider_id).0,
                    );
                },
                SearchStep::AwaitingReply(driver) => {
                    lemma_seek_offers_first_eligible(
                        m.config,
                        m.rounds_left,
                        request,
                        rider,
                        queue,
                        release_model(slots, driver.driver_id, request.rider_id).0,
                    );
                },
                SearchStep::CheckingCap(driver) => {
                    lemma_seek_offers_first_eligible(
                        m.config,
                        m.rounds_left,
                        request,
                        rider,
                        queue,
                        slots,
                    );
                },
                _ => {},
            }
        },
        _ => {},
    }
}

/// The slot of the driver who holds the offer of a search is, after a
/// step, either as it was or filed anew for the same search; and as long as
/// a search looks for a driver, it does so for the same rider.
pub proof fn lemma_kept_offer_is_untouched(
    m: MatcherView,
    slots: Slots,
    event: Event,
    trip: Trip,
    d: u128,
)
    requires
        offered(m) == Some(d),
    ensures
        ({
            let t = advance_model(m, slots, event, trip);
            &&& t.slots.contains_key(d) ==> (slots.contains_key(d) && t.slots[d] == slots[d]) || (
            offered(t.next) == Some(d) && searching_for(t.next) == Some(t.slots[d].rider_id))
            &&& t.next.stage is Searching ==> searching_for(t.next) == searching_for(m)
        }),
{
    match m.stage {
        StageView::Searching { request, rider, queue, step } => {
            match step {
                SearchStep::Notifying(driver) => {
                    lemma_seek_offers_first_eligible(
                        m.config,
                        m.rounds_left,
                        request,
                        rider,
                        queue,
                        release_model(slots, driver.driver_id, request.rider_id).0,
                    );
                },
                SearchStep::AwaitingReply(driver) => {
                    lemma_seek_offers_first_eligible(
                        m.config,
                        m.rounds_left,
                        request,
                        rider,
                        queue,
                        release_model(slots, driver.driver_id, request.rider_id).0,
                    );
                },
                _ => {},
            }
        },
        _ => {},
    }
}

/// The most steps that one round can take: three for each candidate looked
/// at, and three for asking, resting and moving on.
pub open spec fn round_cost(config: MatchConfig) -> int {
    3 * config.candidates_per_round + 3
}

/// An upper bound on the steps a search can still take.
pub open spec fn fuel(m: MatcherView) -> int {
    match m.stage {
        StageView::Finished => 0,
        StageView::Persisting { .. } => 1,
        StageView::Searching { queue, step, .. } => 2 + m.rounds_left * round_cost(m.config)
            + match step {
            SearchStep::Start => 0,
            SearchStep::AwaitingCandidates => 3 * m.config.candidates_per_round + 2,
            SearchStep::Backoff => 0,
            SearchStep::Notifying(_) => 3 * (queue.len() as int) + 2,
            SearchStep::AwaitingReply(_) => 3 * (queue.len() as int) + 1,
            SearchStep::CheckingCap(_) => 3 * (queue.len() as int),
        },
    }
}

proof fn lemma_round_product(rounds_left: u32, config: MatchConfig)
    requires
        rounds_left > 0,
    ensures
        (rounds_left - 1) * round_cost(config) == rounds_left * round_cost(config) - round_cost(
            config,
        ),
        rounds_left * round_cost(config) >= 0,
{
    let cost = round_cost(config);
    assert((rounds_left - 1) * cost == rounds_left * cost - cost) by (nonlinear_arith);
    assert(rounds_left * cost >= 0) by (nonlinear_arith)
        requires
            rounds_left > 0,
            cost >= 0,
    ;
}

proof fn lemma_next_round_fuel(
    config: MatchConfig,
    rounds_left: u32,
    request: RideRequest,
    rider: Rider,
    slots: Slots,
)
    ensures
        fuel(next_round_model(config, rounds_left, request, rider, slots).next) < 2 + rounds_left
            * round_cost(config),
{
    if rounds_left > 0 {
        lemma_round_product(rounds_left, config);
    }
}

proof fn lemma_seek_fuel(
    config: MatchConfig,
    rounds_left: u32,
    request: RideRequest,
    rider: Rider,
    queue: Seq<Candidate>,
    slots: Slots,
)
    ensures
        fuel(seek_model(config, rounds_left, request, rider, queue, slots).next) < 2 + rounds_left
            * round_cost(config) + 3 * queue.len(),
        seek_model(config, rounds_left, request, rider, queue, slots).output is Ok,
{
    lemma_first_eligible(queue, slots, config);
    lemma_seek_offers_first_eligible(config, rounds_left, request, rider, queue, slots);
    lemma_next_round_fuel(config, rounds_left, request, rider, slots);
}

/// Every search ends: a step that is taken uses up fuel, of which a new
/// search has `2 + max_rounds * round_cost`. A report that is refused leaves
/// the search as it was.
pub proof fn lemma_step_burns_fuel(m: MatcherView, slots: Slots, event: Event, trip: Trip)
    ensures
        ({
            let t = advance_model(m, slots, event, trip);
            &&& t.output is Ok ==> 0 <= fuel(t.next) < fuel(m)
            &&& t.output is Err ==> t.next == m && t.slots == slots
            &&& fuel(m) == 0 ==> t.output is Err
        }),
{
    let config = m.config;
    let left = m.rounds_left;
    if left > 0 {
        lemma_round_product(left, config);
    }
    lemma_fuel_is_natural(m);
    match m.stage {
        StageView::Searching { request, rider, queue, step } => {
            lemma_next_round_fuel(config, left, request, rider, slots);
            lemma_fuel_is_natural(advance_model(m, slots, event, trip).next);
            match step {
                SearchStep::AwaitingCandidates => {
                    if let Event::Candidates(list) = event {
                        lemma_seek_fuel(
                            config,
                            left,
                            request,
                            rider,
                            crate::matching::intake(list@, config),
                            slots,
                        );
                    }
                },
                SearchStep::Notifying(driver) => {
                    lemma_seek_fuel(
                        config,
                        left,
                        request,
                        rider,
                        queue,
                        release_model(slots, driver.driver_id, request.rider_id).0,
                    );
                },
                SearchStep::AwaitingReply(driver) => {
                    lemma_seek_fuel(
                        config,
                        left,
                        request,
                        rider,
                        queue,
                        release_model(slots, driver.driver_id, request.rider_id).0,
                    );
                },
                SearchStep::CheckingCap(driver) => {
                    lemma_seek_fuel(config, left, request, rider, queue, slots);
                },
                _ => {},
            }
        },
        _ => {},
    }
}

proof fn lemma_fuel_is_natural(m: MatcherView)
    ensures
        fuel(m) >= 0,
{
    let cost = round_cost(m.config);
    assert(m.rounds_left * cost >= 0) by (nonlinear_arith)
        requires
            m.rounds_left >= 0,
            cost >= 0,
    ;
}

} // verus!

//! The registry of pending driver notifications: for every driver who has
//! been offered a ride and has not answered yet, one slot that is resolved or
//! cancelled exactly once.

use crate::drivers::DriverResponse;
use std::collections::HashMap;
use vstd::prelude::*;

verus! {

broadcast use vstd::std_specs::hash::group_hash_axioms;

/// A ride offer that waits for its driver's reply.
#[derive(Debug, Clone, Copy, PartialEq, Eq, Structural)]
pub struct PendingNotification {
    pub driver_id: u128,
    pub rider_id: u128,
}

/// Why a registration is refused.
#[derive(Debug, Clone, Copy, PartialEq, Eq, Structural)]
pub enum RegistryError {
    /// The driver already has an offer waiting.
    AlreadyPending,
}

/// What became of a reply handed to the registry.
#[derive(Debug, Clone, Copy, PartialEq, Eq, Structural)]
pub enum Resolution {
    /// The reply met a waiting offer, which is now gone from the registry.
    Delivered { slot: PendingNotification, outcome: DriverResponse },
    /// No offer was waiting for this driver: the reply came too late, or
    /// twice. This is no failure.
    NotFound,
}

/// The waiting offers, by driver.
pub type Slots = Map<u128, PendingNotification>;

/// Registering an offer: refused if the driver has one waiting, else added.
pub open spec fn register_model(slots: Slots, driver_id: u128, rider_id: u128) -> (
    Slots,
    Result<PendingNotification, RegistryError>,
) {
    if slots.contains_key(driver_id) {
        (slots, Err(RegistryError::AlreadyPending))
    } else {
        let slot = PendingNotification { driver_id, rider_id };
        (slots.insert(driver_id, slot), Ok(slot))
    }
}

/// Handing in a reply: it is delivered to the driver's waiting offer, which
/// leaves the registry; without one nothing changes.
pub open spec fn resolve_model(slots: Slots, driver_id: u128, outcome: DriverResponse) -> (
    Slots,
    Resolution,
) {
    if slots.contains_key(driver_id) {
        (slots.remove(driver_id), Resolution::Delivered { slot: slots[driver_id], outcome })
    } else {
        (slots, Resolution::NotFound)
    }
}

/// Withdrawing an offer: it leaves the registry unanswered.
pub open spec fn cancel_model(slots: Slots, driver_id: u128) -> (
    Slots,
    Option<PendingNotification>,
) {
    if slots.contains_key(driver_id) {
        (slots.remove(driver_id), Some(slots[driver_id]))
    } else {
        (slots, None)
    }
}

/// Withdrawing an offer on behalf of the rider it was made for: the offer
/// leaves the registry only if it is that rider's. An offer that another
/// rider has filed for the same driver in the meantime stays.
pub open spec fn release_model(slots: Slots, driver_id: u128, rider_id: u128) -> (
    Slots,
    Option<PendingNotification>,
) {
    if slots.contains_key(driver_id) && slots[driver_id].rider_id == rider_id {
        (slots.remove(driver_id), Some(slots[driver_id]))
    } else {
        (slots, None)
    }
}

/// Every slot is filed under its own driver.
pub open spec fn keyed_by_driver(slots: Slots) -> bool {
    forall|d: u128| #[trigger] slots.contains_key(d) ==> slots[d].driver_id == d
}

/// The registry holds, for each driver with an offer waiting, the rider the
/// offer was made for.
pub struct Registry {
    riders: HashMap<u128, u128>,
}

impl View for Registry {
    type V = Slots;

    closed spec fn view(&self) -> Slots {
        Map::new(
            |d: u128| self.riders@.contains_key(d),
            |d: u128| PendingNotification { driver_id: d, rider_id: self.riders@[d] },
        )
    }
}

impl Registry {
    /// A registry with nothing waiting.
    pub fn new() -> (registry: Self)
        ensures
            registry@ == Slots::empty(),
    {
        let registry = Registry { riders: HashMap::new() };
        assert(registry@ =~= Slots::empty());
        registry
    }

    /// Files an offer to `driver_id` on behalf of `rider_id`.
    pub fn register(&mut self, driver_id: u128, rider_id: u128) -> (res: Result<
        PendingNotification,
        RegistryError,
    >)
        ensures
            (final(self)@, res) == register_model(old(self)@, driver_id, rider_id),
    {
        if self.riders.contains_key(&driver_id) {
            Err(RegistryError::AlreadyPending)
        } else {
            let slot = PendingNotification { driver_id, rider_id };
            self.riders.insert(driver_id, rider_id);
            assert(self@ =~= old(self)@.insert(driver_id, slot));
            Ok(slot)
        }
    }

    /// Hands in a driver's reply.
    pub fn resolve(&mut self, driver_id: u128, outcome: DriverResponse) -> (res: Resolution)
        ensures
            (final(self)@, res) == resolve_model(old(self)@, driver_id, outcome),
    {
        match self.riders.remove(&driver_id) {
            Some(rider_id) => {
                assert(self@ =~= old(self)@.remove(driver_id));
                Resolution::Delivered {
                    slot: PendingNotification { driver_id, rider_id },
                    outcome,
                }
            },
            None => {
                assert(self@ =~= old(self)@);
                Resolution::NotFound
            },
        }
    }

    /// Withdraws the offer to a driver, if one is waiting.
    pub fn cancel(&mut self, driver_id: u128) -> (res: Option<PendingNotification>)
        ensures
            (final(self)@, res) == cancel_model(old(self)@, driver_id),
    {
        match self.riders.remove(&driver_id) {
            Some(rider_id) => {
                assert(self@ =~= old(self)@.remove(driver_id));
                Some(PendingNotification { driver_id, rider_id })
            },
            None => {
                assert(self@ =~= old(self)@);
                None
            },
        }
    }

    /// Withdraws the offer that `rider_id` has waiting with a driver, if there
    /// is one.
    pub fn release(&mut self, driver_id: u128, rider_id: u128) -> (res: Option<
        PendingNotification,
    >)
        ensures
            (final(self)@, res) == release_model(old(self)@, driver_id, rider_id),
    {
        match self.pending(driver_id) {
            Some(slot) => {
                if slot.rider_id == rider_id {
                    self.cancel(driver_id)
                } else {
                    None
                }
            },
            None => None,
        }
    }

    /// Whether an offer to this driver is waiting.
    pub fn is_pending(&self, driver_id: u128) -> (pending: bool)
        ensures
            pending == self@.contains_key(driver_id),
    {
        self.riders.contains_key(&driver_id)
    }

    /// The offer waiting for a driver, if there is one. Every waiting offer is
    /// filed under the driver it was made to, so no driver has two.
    pub fn pending(&self, driver_id: u128) -> (slot: Option<PendingNotification>)
        ensures
            keyed_by_driver(self@),
            slot == (if self@.contains_key(driver_id) {
                Some(self@[driver_id])
            } else {
                None
            }),
    {
        match self.riders.get(&driver_id) {
            Some(rider_id) => Some(PendingNotification { driver_id, rider_id: *rider_id }),
            None => None,
        }
    }

    /// The number of offers waiting.
    pub fn len(&self) -> (count: usize)
        ensures
            count == self@.len(),
            self@.dom().finite(),
    {
        assert(self@.dom() =~= self.riders@.dom());
        self.riders.len()
    }
}

/// The model keeps every slot filed under its own driver.
pub proof fn lemma_models_keep_keys(
    slots: Slots,
    driver_id: u128,
    rider_id: u128,
    outcome: DriverResponse,
)
    requires
        keyed_by_driver(slots),
    ensures
        keyed_by_driver(register_model(slots, driver_id, rider_id).0),
        keyed_by_driver(resolve_model(slots, driver_id, outcome).0),
        keyed_by_driver(cancel_model(slots, driver_id).0),
        keyed_by_driver(release_model(slots, driver_id, rider_id).0),
{
}

/// Of two registrations for one driver with nothing between them, the second
/// is always refused and changes nothing; when the driver had no offer
/// waiting, the first succeeds. So exactly one of the two succeeds, whichever
/// of the two callers comes first.
pub proof fn lemma_one_of_two_registers(slots: Slots, driver_id: u128, first: u128, second: u128)
    ensures
        ({
            let (after_first, first_res) = register_model(slots, driver_id, first);
            let (after_second, second_res) = register_model(after_first, driver_id, second);
            &&& second_res == Err::<PendingNotification, RegistryError>(
                RegistryError::AlreadyPending,
            )
            &&& after_second == after_first
            &&& !slots.contains_key(driver_id) ==> first_res == Ok::<
                PendingNotification,
                RegistryError,
            >(PendingNotification { driver_id, rider_id: first })
        }),
{
}

/// A reply that arrives after the offer was withdrawn finds nothing and
/// changes nothing.
pub proof fn lemma_resolve_after_cancel(slots: Slots, driver_id: u128, outcome: DriverResponse)
    ensures
        ({
            let withdrawn = cancel_model(slots, driver_id).0;
            resolve_model(withdrawn, driver_id, outcome) == (withdrawn, Resolution::NotFound)
        }),
{
}

/// A reply that arrives after the rider's offer was released finds either
/// nothing or the offer of another rider; it never finds the released one.
pub proof fn lemma_resolve_after_release(
    slots: Slots,
    driver_id: u128,
    rider_id: u128,
    outcome: DriverResponse,
)
    ensures
        ({
            let released = release_model(slots, driver_id, rider_id).0;
            match resolve_model(released, driver_id, outcome).1 {
                Resolution::NotFound => true,
                Resolution::Delivered { slot, .. } => slot.rider_id != rider_id,
            }
        }),
{
}

/// Resolving one offer twice has the effect of the first resolution only:
/// the second reply finds nothing and changes nothing, whatever it says.
pub proof fn lemma_resolve_twice(
    slots: Slots,
    driver_id: u128,
    first: DriverResponse,
    second: DriverResponse,
)
    ensures
        ({
            let resolved = resolve_model(slots, driver_id, first).0;
            resolve_model(resolved, driver_id, second) == (resolved, Resolution::NotFound)
        }),
{
}

/// Resolving or withdrawing an offer to one driver leaves every other
/// driver's offer as it was.
pub proof fn lemma_other_drivers_untouched(
    slots: Slots,
    driver_id: u128,
    other: u128,
    rider_id: u128,
    outcome: DriverResponse,
)
    requires
        other != driver_id,
    ensures
        register_model(slots, driver_id, rider_id).0.contains_key(other) == slots.contains_key(
            other,
        ),
        resolve_model(slots, driver_id, outcome).0.contains_key(other) == slots.contains_key(other),
        cancel_model(slots, driver_id).0.contains_key(other) == slots.contains_key(other),
        slots.contains_key(other) ==> {
            &&& register_model(slots, driver_id, rider_id).0[other] == slots[other]
            &&& resolve_model(slots, driver_id, outcome).0[other] == slots[other]
            &&& cancel_model(slots, driver_id).0[other] == slots[other]
        },
{
}

} // verus!

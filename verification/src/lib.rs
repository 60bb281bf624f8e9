//! Verified core of a ride-hailing backend: driver matching, the registry of
//! pending driver notifications, the per-driver trip cap, the trip lifecycle
//! and the preparation of a finished trip for settlement.

pub mod admin;
pub mod bindings;
pub mod drivers;
pub mod escrow;
pub mod geo;
pub mod items;
pub mod limiter;
pub mod matching;
pub mod matching_laws;
pub mod notifications;
pub mod paystack;
pub mod registry;
pub mod ride_program;
pub mod riders;
pub mod trips;

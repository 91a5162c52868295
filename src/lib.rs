//! Escrow of a fungible asset between a buyer and a seller, released after a
//! time lock or by the ruling of an arbiter once a dispute has been raised.
//!
//! The lifecycle controller is a verified state machine over [`Escrow`]
//! records. Custody transfers are not performed here: each transition that
//! moves value calls a transfer capability handed in by its caller, and fails
//! as a whole, leaving the record untouched, when that capability reports a
//! failure. The general properties of the lifecycle are stated and proved in
//! [`laws`].

pub mod record;
pub mod controller;
pub mod laws;

pub use record::{
    ArbitrationDecision, Custody, DisputeEvidence, ErrorCode, Escrow, EscrowStatus, Identity,
    Transfer, EVIDENCE_ENTRY_OVERHEAD, VARIABLE_CAPACITY,
};
pub use controller::{ai_arbitrate, create_escrow, raise_dispute, time_release};

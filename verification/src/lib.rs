//! A verified escrow lifecycle manager.
//!
//! A client places funds in custody for a freelancer; the funds are released
//! to the freelancer on the client's say-so, or refunded to the client once a
//! deadline has elapsed. The manager owns every escrow record and is the sole
//! authority for state transitions. The host ledger it runs on — clock,
//! durable record store, caller authorization, balance transfers, event sink —
//! is modelled by [`ledger::Ledger`], so that every rule of the lifecycle
//! state machine is stated and proved over plain values.

pub mod contract;
pub mod ledger;
pub mod types;

//! Economic ledger engine for a shared-pool yield mechanism.
//!
//! Participants deposit value into common vaults, receive a mining-power
//! allocation priced against the vaults' aggregate value, and accrue and
//! claim a time-prorated share of the vaults' inflow, net of protocol fees
//! and optional referral bonuses.
//!
//! Every operation is a deterministic, overflow-checked transition on plain
//! integer state: it either returns the complete successor state together
//! with the settlement instructions the host must carry out, or an error and
//! no state change at all. Custody (moving funds), account storage, caller
//! authentication and the clock belong to the host; the engine only consumes
//! balances, identities and timestamps as values.

pub mod actions;
pub mod earnings;
pub mod errors;
pub mod ledger;
pub mod math;
pub mod pricing;
pub mod referral;
pub mod state;

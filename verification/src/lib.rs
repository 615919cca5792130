//! A metered, pay-as-you-go session ledger.
//!
//! A payer locks a deposit, a provider is credited as usage accrues, and
//! settlement splits the locked funds between the two. Every operation is
//! stated as a contract over the record it acts on.

pub mod base64ct;
pub mod blake3;
pub mod constant_time_eq;
pub mod gateway;
pub mod identity;
pub mod laws;
pub mod ledger;
pub mod session;
pub mod zerorouter;

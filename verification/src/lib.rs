//! Accounting core of a pooled-deposit value vault.
//!
//! The library tracks proportional ownership of a shared, yield-bearing pool
//! ("shares"), books time-weighted loyalty points per position, and maintains
//! a per-vault referral graph with a flat bonus for inviters.  Every function
//! here is pure bookkeeping over plain integer records; the hosting
//! environment supplies value transfer, durable record storage and the clock,
//! and commits or discards the records this library hands back.

pub mod errors;
pub mod orchestrator;
pub mod points;
pub mod referral;
pub mod share_ledger;
pub mod state;

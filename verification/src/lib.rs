//! A periodic, resumable fee-distribution engine for a liquidity position
//! whose trading fees accrue in a single ("quote") denomination.
//!
//! On a 24-hour cadence the engine takes the fees claimed from the venue,
//! proves none accrued in the base denomination, and splits the claimed
//! amount between time-locked investors (pro rata by remaining locked
//! allocation, subject to a policy ceiling and a daily cap) and the
//! creator, who receives the residual when the day closes.
//!
//! The host environment performs the external claim and transfer
//! operations; the engine here is a verified state-transition function
//! over plain values, producing payout instructions and audit events.

pub mod errors;
pub mod events;
pub mod state;
pub mod math;
pub mod distribution;
pub mod initialize;
pub mod policy;

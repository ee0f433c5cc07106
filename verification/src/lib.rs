//! A token-bonding and reward-distribution ledger.
//!
//! Participants lock (bond) tokens tied to an NFT or compressed-NFT leaf for
//! a configured period and earn a share of a continuously funded reward pool,
//! proportional to their stake and to a liveliness score that decays as a
//! position approaches its unlock time.
//!
//! The crate is a verified numeric core: fixed-point helpers ([`math`]), the
//! reward accumulator and liveliness ledger ([`rewards`]), the per-position
//! score ([`score`]), the record types ([`states`]), the per-operation state
//! transitions ([`ops`]), the administrative setters ([`admin`]) and the laws
//! relating the operations ([`laws`]). Host-side concerns (account
//! resolution, token transfers, the clock) stay outside: every operation
//! takes the records it touches and the current time explicitly, and either
//! commits all of its mutations or none.

pub mod admin;
pub mod asset;
pub mod constants;
pub mod errors;
pub mod laws;
pub mod math;
pub mod ops;
pub mod rewards;
pub mod score;
pub mod states;

pub use constants::{DIVISION_SAFETY_CONST, MAX_PERCENT, SLOTS_IN_YEAR};
pub use errors::Errors;

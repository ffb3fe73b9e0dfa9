//! Verified decision logic of the Predictify Hybrid prediction-market
//! contract: the emergency circuit breaker, the force-resolve idempotency
//! ledger and the market-resolution rules.
//!
//! The contract's storage, ledger clock, admin registry, oracle calls and
//! event publication live outside this crate; the functions here take what
//! they read from them as plain values and hand back the new state.

pub mod address;
pub mod error;
pub mod text;
pub mod circuit_breaker;
pub mod circuit_breaker_laws;
pub mod force_resolve;
pub mod market;
pub mod outcome_cache;
pub mod resolution;
pub mod resolution_laws;

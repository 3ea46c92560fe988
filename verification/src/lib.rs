//! Core logic of an isolated money-market lending pool and its shared
//! insurance backstop.
//!
//! The backstop side distributes a reward-token stream across a bounded
//! "reward zone" of pools, weighted by their non-queued deposits, through a
//! chain of monotonic fixed-point indexes; each pool then splits its share
//! between its backstop depositors and its own users. The pool side prices
//! liquidations through block-scaled Dutch auctions and gates operations
//! behind a status machine driven by backstop health.
//!
//! All state is modelled as plain values behind an in-memory store, so that
//! every rule is stated in contracts and checked; host-ledger plumbing
//! (cross-contract calls, authorization, durable storage) stays outside.

pub mod auction;
pub mod bad_debt;
pub mod constants;
pub mod deposit;
pub mod distributor;
pub mod errors;
mod fixed_point;
pub mod laws;
pub mod manager;
pub mod pool;
pub mod pool_balance;
pub mod status;
pub mod store;
pub mod user_emissions;

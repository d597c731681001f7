//! A minimal contract: an integer counter and an append-only log of
//! sender-attributed messages, driven by three entry points.
//!
//! `instantiate` creates the single state record, `execute` appends one
//! message and increments the counter, and `query` reads the counter or one
//! message's text. The host runtime persists the record and serializes the
//! messages; this crate holds the state transitions themselves, each with a
//! contract over a mathematical model of the state.

pub mod contract;
pub mod laws;
pub mod msg;
pub mod state;

//! Outbound HTTP client multiplexer of the users service, with the plain
//! data models the service exchanges.
//!
//! Requests from many producers go through one bounded FIFO queue to a single
//! dispatcher; each dispatch attempt is paired with a one-shot correlator, and a
//! bounded retry policy masks transient network failures.

pub mod client;
pub mod config;
pub mod error;
pub mod models;
pub mod queue;
pub mod retry;
pub mod users;

//! Core of a rate-limited transaction benchmark.
//!
//! The library decides what a benchmark run does: which transfers are sent and
//! when, how accounts are funded, how threads share the work, what counts for
//! the measurement, and how batches in flight are accounted for. It reads no
//! clock and talks to no cluster: its callers do, and report back what they
//! found. Points in time are nanoseconds since an origin that they choose.
//!
//! `solana`, `parallel` and `number` hold the calls into the SDK and its command
//! line helpers, into Rayon and into the standard library whose contracts are
//! taken on trust.
pub mod args;
pub mod batch_id;
pub mod confirmation;
pub mod funding;
pub mod in_flight_tracker;
pub mod number;
pub mod pairing;
pub mod parallel;
pub mod producer;
pub mod progress;
pub mod rate_limiter;
pub mod sender;
pub mod solana;
pub mod stats;
pub mod transaction;
pub mod workload;

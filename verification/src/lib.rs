//! Derived state for a live dashboard over a fetch, prove, submit pipeline.
//!
//! The workers of the pipeline append loosely structured events to a log. Once
//! per tick the dashboard recomputes from that log what it shows: the task in
//! flight, throughput and proving time, the state of the current backoff, and
//! whether a fetch is outstanding.

pub mod backoff;
pub mod clock;
pub mod current_task;
pub mod cycle;
pub mod event;
pub mod fetching;
pub mod laws;
pub mod message;
pub mod metrics;
pub mod prover;
pub mod state;
pub mod text;
pub mod throughput;
pub mod window;

//! Latency reporting for completed batch-compute jobs.
//!
//! The library decodes the job summaries returned by the batch service's
//! command-line client, computes per-job cold-start, run and total
//! durations, and renders them either as a fixed-width table or as a
//! selected subset of columns. A separate module plans the burst of
//! synthetic submissions used to exercise cold starts under load.

pub mod dispatch;
pub mod durations;
pub mod json;
pub mod model;
pub mod numfmt;
pub mod report;

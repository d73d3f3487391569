//! Signal-triggered, trace-instrumented call pipeline.
//!
//! An operator signal triggers one four-stage backend call
//! (connect, protocol handshake, remote call, result apply). Each run is
//! recorded in a trace span, counted in a process-wide metric set, and runs
//! strictly after the previous one has finished. A scrape endpoint exposes
//! the metrics as text. The I/O itself (sockets, signals, the trace
//! collector) lives outside this crate; everything here is the logic that
//! decides, counts and records, with its contracts.

pub mod laws;
pub mod metrics;
pub mod pipeline;
pub mod scrape;
pub mod span;

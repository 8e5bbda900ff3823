//! Canister health metrics in the Prometheus text exposition format.
//!
//! The library takes a snapshot of a small set of runtime gauges (stable
//! memory size, wasm memory size, cycles balance), encodes them as
//! exposition-format text, and wraps the result in an HTTP-style response.

pub mod counters;
pub mod decimal;
pub mod encoder;
pub mod exposition;
pub mod response;

pub use response::get_metrics;

//! In-process metrics aggregation engine for a telephony host.
//!
//! The crate keeps a registry of named counters and gauges, applies
//! call/session and registration lifecycle events to them, recomputes the
//! derived answer-seizure-ratio and average-call-duration gauges, serves
//! operator commands that create and adjust dynamically named metrics, and
//! serializes the whole registry to line-oriented exposition text.
//!
//! Metric values are exact fixed-point decimals with six fractional digits
//! (see [`fixed::Fixed`]); the host-facing glue that binds event callbacks
//! and the scrape endpoint lives outside this crate and drives it through
//! plain values.

pub mod fixed;
pub mod builtin;
pub mod decimal;
pub mod metric;
pub mod registry;
pub mod engine;
pub mod expo;
pub mod command;

pub use fixed::Fixed;
pub use registry::Registry;
pub use engine::Event;
pub use engine::EventKind;

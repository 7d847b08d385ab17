//! Tracing and metrics helpers for HTTP services reporting to Datadog.
//!
//! The verified core: route templating for low-cardinality resource names,
//! the attribute schema of a request span and its one-shot lifecycle, trace
//! context propagation, and the settings derived from the configuration.
pub mod config;
pub mod context;
pub mod http_utils;
pub mod span;
pub mod statsd;
pub mod tracer;

pub use config::Config;

//! A small HTTP service core: configuration checks, per-request tracing
//! context, latency records and a dependency health aggregator.
pub mod config;
pub mod health;
pub mod pipeline;
pub mod request;

pub use config::Config;

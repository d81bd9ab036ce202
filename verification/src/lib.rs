//! Core of a family of proxy extension templates (access logger, HTTP filter,
//! network filter): immutable configuration snapshots, a metrics registry,
//! live-instance tracking, correlation of asynchronous side calls with timeout
//! eviction, and the per-instance filter state machines that suspend stream
//! processing while a side call is in flight and resume it when the correlated
//! response arrives.
//!
//! The host boundary (wire ABI, raw I/O, logging) stays outside this crate;
//! events and configuration bytes reach the core as plain values. The model
//! is single-threaded and cooperative: the host delivers one event at a time
//! per instance, and nothing here blocks or spawns threads.

pub mod arith;
pub mod config;
pub mod correlator;
pub mod errors;
pub mod headers;
pub mod http;
pub mod instance;
pub mod laws;
pub mod logger;
pub mod metrics;
pub mod network;
pub mod stats;

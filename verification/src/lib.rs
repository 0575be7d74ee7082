//! Verified core of an ICMP reachability probe.
//!
//! The library holds the probe engine's logic: the running statistics
//! aggregate, the per-run configuration, the loop state machine that
//! decides when a run stops, and the verdict builder that turns final
//! statistics and thresholds into a structured result record.
//!
//! All I/O — name resolution, the echo transport itself, signal
//! handling and serialization — lives outside the library and hands it
//! plain values.

pub mod config;
pub mod engine;
pub mod laws;
pub mod report;
pub mod stats;

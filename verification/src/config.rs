//! Per-run configuration of the probe.
//!
//! A `ProbeConfig` is immutable for the whole run.  Thresholds are held
//! as plain integers: the maximum acceptable loss in hundredths of a
//! percent (so a threshold with two decimal places compares exactly)
//! and the maximum acceptable average latency in whole milliseconds.

use vstd::prelude::*;
use crate::stats::FULL_LOSS_HUNDREDTHS;

verus! {

/// Configuration of one probe run.
///
/// `count == 0` means endless mode: the run stops only on external
/// cancellation.
#[derive(Clone)]
pub struct ProbeConfig {
    /// Target host string (literal address or name to resolve).
    pub target: String,
    /// Packet count bound; zero for endless mode.
    pub count: u32,
    /// Pause between sends, in milliseconds.
    pub interval_millis: u64,
    /// Per-packet response deadline, in milliseconds.
    pub timeout_millis: u64,
    /// Time-to-live hint for the transport.
    pub ttl: u8,
    /// Maximum acceptable loss, in hundredths of a percent.
    pub max_loss_hundredths: u32,
    /// Maximum acceptable average round-trip time, in milliseconds.
    pub max_latency_millis: u64,
    /// Display name for reporting; defaults to the target.
    pub server_name: Option<String>,
    /// Suppress per-packet output, keep only the final record.
    pub quiet: bool,
}

impl ProbeConfig {
    /// Well-formedness: the loss threshold is a percentage.
    pub open spec fn wf(self) -> bool {
        self.max_loss_hundredths <= FULL_LOSS_HUNDREDTHS
    }

    /// The name that reports carry: the configured display name, or the
    /// target when none was configured.
    pub open spec fn spec_server_name(self) -> Seq<char> {
        match self.server_name {
            Some(name) => name@,
            None => self.target@,
        }
    }

    /// Owned copy of the report name.
    pub fn effective_server_name(&self) -> (r: String)
        ensures
            r@ == self.spec_server_name(),
    {
        match &self.server_name {
            Some(name) => name.clone(),
            None => self.target.clone(),
        }
    }
}

} // verus!

//! The verdict builder and the structured result record.
//!
//! A run ends in exactly one terminal record: a resolution failure
//! carries an error message and no data; a completed run (even one
//! with full loss) carries data and no error.  The pass/fail verdict
//! compares measured loss and average latency against the configured
//! thresholds, and a run without a single reply never passes.

use vstd::prelude::*;
use vstd::string::StringExecFns;
use crate::config::ProbeConfig;
use crate::stats::PingStats;

verus! {

/// Measured aggregates of a completed run, as reported.
#[derive(Clone, Copy, Debug, PartialEq, Eq, Structural)]
pub struct PingData {
    /// Average round-trip time, truncated to whole milliseconds.
    pub latency: i64,
    /// Packet loss in hundredths of a percent.
    pub packetloss_hundredths: u32,
    pub packets_sent: u32,
    pub packets_received: u32,
}

/// Terminal record of a run.  Exactly one of `error` and `data` is
/// present: `error` after a resolution failure, `data` after a
/// completed run.
#[derive(Clone, Debug, PartialEq)]
pub struct PingResult {
    pub checkname: String,
    pub servername: String,
    pub resulttype: String,
    pub success: bool,
    pub error: Option<String>,
    pub data: Option<PingData>,
}

/// Constant category tag of this probe type.
pub open spec fn spec_checkname() -> Seq<char> {
    "ping"@
}

/// Constant result category.
pub open spec fn spec_resulttype() -> Seq<char> {
    "site"@
}

/// Whether the run passes: loss and average latency within their
/// configured bounds, and at least one reply arrived.
pub open spec fn spec_success(config: ProbeConfig, stats: PingStats) -> bool {
    &&& stats.spec_loss_hundredths() <= config.max_loss_hundredths
    &&& stats.spec_avg_rtt_millis() <= config.max_latency_millis
    &&& stats.spec_avg_rtt_millis() != 0
}

/// Everything the record of a completed run must hold, given the final
/// statistics and the configuration.  The builder's postcondition and
/// the idempotence law both speak through this predicate.
pub open spec fn result_matches(config: ProbeConfig, stats: PingStats, r: PingResult) -> bool {
    &&& r.checkname@ == spec_checkname()
    &&& r.servername@ == config.spec_server_name()
    &&& r.resulttype@ == spec_resulttype()
    &&& r.success == spec_success(config, stats)
    &&& r.error is None
    &&& r.data is Some
    &&& r.data->Some_0.latency == stats.spec_avg_rtt_millis()
    &&& r.data->Some_0.packetloss_hundredths == stats.spec_loss_hundredths()
    &&& r.data->Some_0.packets_sent == stats.sent
    &&& r.data->Some_0.packets_received == stats.received
}

/// Everything the record of a run that failed resolution must hold.
pub open spec fn failure_matches(config: ProbeConfig, message: Seq<char>, r: PingResult) -> bool {
    &&& r.checkname@ == spec_checkname()
    &&& r.servername@ == config.spec_server_name()
    &&& r.resulttype@ == spec_resulttype()
    &&& !r.success
    &&& r.error is Some
    &&& r.error->Some_0@ == message
    &&& r.data is None
}

/// Build the terminal record of a completed run.  Pure: the record is
/// fully determined by the two arguments, and building it never fails.
pub fn create_result(config: &ProbeConfig, stats: &PingStats) -> (r: PingResult)
    requires
        config.wf(),
        stats.wf(),
    ensures
        result_matches(*config, *stats, r),
{
    let loss: u32 = stats.packet_loss_hundredths();
    let avg_ms: u64 = stats.avg_rtt_millis();
    let success: bool = loss <= config.max_loss_hundredths
        && avg_ms <= config.max_latency_millis
        && avg_ms != 0;
    PingResult {
        checkname: String::from_str("ping"),
        servername: config.effective_server_name(),
        resulttype: String::from_str("site"),
        success,
        error: None,
        data: Some(
            PingData {
                latency: avg_ms as i64,
                packetloss_hundredths: loss,
                packets_sent: stats.sent,
                packets_received: stats.received,
            },
        ),
    }
}

/// Build the terminal record of a run whose target could not be
/// resolved: the error message is carried, no data is, and the run
/// never counts as a success.
pub fn create_resolution_failure(config: &ProbeConfig, message: String) -> (r: PingResult)
    ensures
        failure_matches(*config, message@, r),
{
    PingResult {
        checkname: String::from_str("ping"),
        servername: config.effective_server_name(),
        resulttype: String::from_str("site"),
        success: false,
        error: Some(message),
        data: None,
    }
}

} // verus!

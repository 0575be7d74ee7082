//! Laws of the probe engine, stated and proved once for all runs.

use vstd::prelude::*;
use vstd::arithmetic::div_mod::{
    lemma_div_is_ordered,
    lemma_div_multiples_vanish,
    lemma_div_pos_is_pos,
};
use vstd::arithmetic::mul::lemma_mul_inequality;
use crate::config::ProbeConfig;
use crate::engine::EchoOutcome;
use crate::report::{result_matches, spec_success, PingResult};
use crate::stats::{PingStats, FULL_LOSS_HUNDREDTHS};

verus! {

/// Unbounded model of a run's statistics, free of machine widths, for
/// reasoning over runs of any length.
pub ghost struct RunModel {
    pub sent: nat,
    pub received: nat,
    pub total_rtt_nanos: nat,
}

/// The statistics that a run with the given sequence of exchange
/// outcomes accumulates, starting from the empty aggregate: every
/// outcome is counted as sent, a reply is also counted as received
/// and its round trip accumulated.
pub open spec fn run_model(outcomes: Seq<EchoOutcome>) -> RunModel
    decreases outcomes.len(),
{
    if outcomes.len() == 0 {
        RunModel { sent: 0, received: 0, total_rtt_nanos: 0 }
    } else {
        let prev = run_model(outcomes.drop_last());
        match outcomes.last() {
            EchoOutcome::Reply { rtt_nanos } => RunModel {
                sent: prev.sent + 1,
                received: prev.received + 1,
                total_rtt_nanos: (prev.total_rtt_nanos + rtt_nanos) as nat,
            },
            _ => RunModel {
                sent: prev.sent + 1,
                received: prev.received,
                total_rtt_nanos: prev.total_rtt_nanos,
            },
        }
    }
}

/// After any number of loop iterations, with any mix of replies and
/// failures, every attempt is counted exactly once and never more
/// replies are counted than attempts: `received <= sent`.
pub proof fn lemma_received_never_exceeds_sent(outcomes: Seq<EchoOutcome>)
    ensures
        run_model(outcomes).sent == outcomes.len(),
        run_model(outcomes).received <= run_model(outcomes).sent,
    decreases outcomes.len(),
{
    if outcomes.len() > 0 {
        lemma_received_never_exceeds_sent(outcomes.drop_last());
    }
}

/// The derived loss is a percentage for every well-formed aggregate:
/// within `[0, 100]` percent (held in hundredths), and an empty run —
/// nothing sent — counts as full loss by convention, never as a
/// division by zero and never as a negative value.
pub proof fn lemma_loss_is_a_percentage(stats: PingStats)
    requires
        stats.wf(),
    ensures
        0 <= stats.spec_loss_hundredths() <= FULL_LOSS_HUNDREDTHS,
        stats.sent == 0 ==> stats.spec_loss_hundredths() == FULL_LOSS_HUNDREDTHS,
{
    if stats.sent > 0 {
        let lost = stats.sent - stats.received;
        lemma_div_pos_is_pos(lost * (FULL_LOSS_HUNDREDTHS as int), stats.sent as int);
        lemma_mul_inequality(lost, stats.sent as int, FULL_LOSS_HUNDREDTHS as int);
        lemma_div_is_ordered(
            lost * (FULL_LOSS_HUNDREDTHS as int),
            (stats.sent as int) * (FULL_LOSS_HUNDREDTHS as int),
            stats.sent as int,
        );
        lemma_div_multiples_vanish(FULL_LOSS_HUNDREDTHS as int, stats.sent as int);
    }
}

/// A run without a single reply has a zero average round-trip time,
/// and a zero average — whatever the configured thresholds — never
/// passes the verdict.
pub proof fn lemma_no_reply_never_passes(config: ProbeConfig, stats: PingStats)
    ensures
        stats.received == 0 ==> stats.spec_avg_rtt_nanos() == 0,
        stats.received == 0 ==> stats.spec_avg_rtt_millis() == 0,
        stats.spec_avg_rtt_millis() == 0 ==> !spec_success(config, stats),
{
}

/// The verdict builder is pure: any two records built from the same
/// final statistics and the same configuration agree in every
/// observable field.
pub proof fn lemma_verdict_idempotent(
    config: ProbeConfig,
    stats: PingStats,
    r1: PingResult,
    r2: PingResult,
)
    requires
        result_matches(config, stats, r1),
        result_matches(config, stats, r2),
    ensures
        r1.checkname@ == r2.checkname@,
        r1.servername@ == r2.servername@,
        r1.resulttype@ == r2.resulttype@,
        r1.success == r2.success,
        r1.error == r2.error,
        r1.data == r2.data,
{
}

} // verus!

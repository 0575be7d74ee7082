//! The probe loop's state machine.
//!
//! The loop itself performs the echo exchanges, the sleeps, and the
//! cancellation watch outside the library; the library decides.  Each
//! iteration hands the engine the outcome of one exchange together
//! with the observed cancellation flag, and the engine records the
//! outcome, advances the iteration counter, and says whether the run
//! goes on.  Termination is decided after recording, never before: the
//! packet in flight always completes (or times out) and is counted
//! before the loop exits.

use vstd::prelude::*;
use crate::stats::PingStats;

verus! {

/// Valid range of an echo sequence identifier: the iteration counter
/// is wrapped into 16 bits, as the transport's identifier field asks.
pub const SEQUENCE_ID_RANGE: u32 = 65536;

/// Outcome of one echo exchange, as the transport reports it.  A
/// timeout and a transport-level failure count identically in the
/// statistics; they differ only in diagnostics.
#[derive(Clone, Copy, Debug, PartialEq, Eq, Structural)]
pub enum EchoOutcome {
    /// A reply arrived within the deadline, after this round trip.
    Reply { rtt_nanos: u64 },
    /// No reply within the per-packet deadline.
    Timeout,
    /// The transport reported some other failure.
    TransportError,
}

/// What the loop does next.
#[derive(Clone, Copy, Debug, PartialEq, Eq, Structural)]
pub enum LoopDirective {
    /// Sleep for the configured interval, then attempt the next echo.
    Continue,
    /// Drain: read the final statistics and build the verdict.
    Stop,
}

/// Loop state: the running statistics and the iteration counter.
#[derive(Clone)]
pub struct ProbeLoop {
    pub stats: PingStats,
    pub sequence: u32,
}

impl ProbeLoop {
    /// Well-formedness: the statistics are well-formed and exactly one
    /// packet has been recorded per completed iteration.
    pub open spec fn wf(self) -> bool {
        &&& self.stats.wf()
        &&& self.stats.sent == self.sequence
    }

    /// The loop stops once a configured bound is reached (a zero count
    /// means endless mode) or cancellation has been observed.
    pub open spec fn spec_should_stop(self, count: u32, cancelled: bool) -> bool {
        (count > 0 && self.sequence >= count) || cancelled
    }

    /// Fresh state: nothing sent, counter at zero.
    pub fn start() -> (r: Self)
        ensures
            r.wf(),
            r.sequence == 0,
            r.stats.sent == 0,
            r.stats.received == 0,
            r.stats.total_rtt_nanos == 0,
    {
        Self { stats: PingStats::new(), sequence: 0 }
    }

    /// Identifier for the next echo: the iteration counter wrapped
    /// into the transport's 16-bit range.  Wrapping over a long
    /// endless run is accepted and expected.
    pub fn sequence_id(&self) -> (r: u16)
        ensures
            r == self.sequence % SEQUENCE_ID_RANGE,
    {
        (self.sequence % SEQUENCE_ID_RANGE) as u16
    }

    /// One full iteration after the exchange came back: record the
    /// outcome (a reply feeds both counters and the accumulated time;
    /// a timeout or transport error feeds only `sent`), advance the
    /// counter, then decide whether the run goes on.
    pub fn step(&mut self, outcome: &EchoOutcome, count: u32, cancelled: bool) -> (d:
        LoopDirective)
        requires
            old(self).wf(),
            old(self).sequence < u32::MAX,
        ensures
            final(self).wf(),
            final(self).sequence == old(self).sequence + 1,
            match *outcome {
                EchoOutcome::Reply { rtt_nanos } => {
                    &&& final(self).stats.sent == old(self).stats.sent + 1
                    &&& final(self).stats.received == old(self).stats.received + 1
                    &&& final(self).stats.total_rtt_nanos == old(self).stats.total_rtt_nanos
                        + rtt_nanos
                },
                _ => {
                    &&& final(self).stats.sent == old(self).stats.sent + 1
                    &&& final(self).stats.received == old(self).stats.received
                    &&& final(self).stats.total_rtt_nanos == old(self).stats.total_rtt_nanos
                },
            },
            d is Stop <==> final(self).spec_should_stop(count, cancelled),
    {
        match outcome {
            EchoOutcome::Reply { rtt_nanos } => self.stats.update_with_success(*rtt_nanos),
            EchoOutcome::Timeout => self.stats.update_with_failure(),
            EchoOutcome::TransportError => self.stats.update_with_failure(),
        }
        self.sequence = self.sequence + 1;
        if (count > 0 && self.sequence >= count) || cancelled {
            LoopDirective::Stop
        } else {
            LoopDirective::Continue
        }
    }
}

} // verus!

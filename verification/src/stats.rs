//! Running statistics of a probe run.
//!
//! `PingStats` aggregates packets sent, packets received, and the
//! cumulative round-trip time of the successful exchanges.  Loss is
//! derived in hundredths of a percent (so thresholds with two decimal
//! places compare exactly, without floating point); average latency is
//! derived in nanoseconds and truncated to whole milliseconds on demand.

use vstd::prelude::*;
use vstd::arithmetic::div_mod::{lemma_div_is_ordered, lemma_div_multiples_vanish};
use vstd::arithmetic::mul::lemma_mul_inequality;

verus! {

/// 100% packet loss, in hundredths of a percent.
pub const FULL_LOSS_HUNDREDTHS: u32 = 10000;

/// Nanoseconds per millisecond.
pub const NANOS_PER_MILLI: u64 = 1000000;

/// Running aggregate of one probe run.
///
/// `total_rtt_nanos` only accumulates the durations of successful
/// exchanges, so it is bounded by `received` whole-`u64` durations.
#[derive(Clone)]
pub struct PingStats {
    pub sent: u32,
    pub received: u32,
    pub total_rtt_nanos: u128,
}

impl PingStats {
    /// Well-formedness: never more replies than requests, and the
    /// accumulated time is at most one maximal duration per reply
    /// (each success adds at most `u64::MAX` nanoseconds).
    pub open spec fn wf(self) -> bool {
        &&& self.received <= self.sent
        &&& self.total_rtt_nanos as int <= (self.received as int) * (u64::MAX as int)
    }

    /// Packet loss in hundredths of a percent: `(sent - received) / sent`,
    /// scaled by 10000 and truncated; an empty run counts as full loss
    /// by convention (never a division by zero).
    pub open spec fn spec_loss_hundredths(self) -> int {
        if self.sent == 0 {
            FULL_LOSS_HUNDREDTHS as int
        } else {
            ((self.sent - self.received) * (FULL_LOSS_HUNDREDTHS as int)) / (self.sent as int)
        }
    }

    /// Average round-trip time in nanoseconds, truncated; zero when no
    /// reply was received.
    pub open spec fn spec_avg_rtt_nanos(self) -> int {
        if self.received == 0 {
            0
        } else {
            (self.total_rtt_nanos as int) / (self.received as int)
        }
    }

    /// Average round-trip time truncated to whole milliseconds.
    pub open spec fn spec_avg_rtt_millis(self) -> int {
        self.spec_avg_rtt_nanos() / (NANOS_PER_MILLI as int)
    }

    /// An empty, well-formed aggregate.
    pub fn new() -> (r: Self)
        ensures
            r.sent == 0,
            r.received == 0,
            r.total_rtt_nanos == 0,
            r.wf(),
    {
        Self { sent: 0, received: 0, total_rtt_nanos: 0 }
    }

    /// One successful exchange: both counters grow and the round-trip
    /// time is accumulated.
    pub fn update_with_success(&mut self, rtt_nanos: u64)
        requires
            old(self).wf(),
            old(self).sent < u32::MAX,
        ensures
            final(self).wf(),
            final(self).sent == old(self).sent + 1,
            final(self).received == old(self).received + 1,
            final(self).total_rtt_nanos == old(self).total_rtt_nanos + rtt_nanos,
    {
        proof {
            lemma_mul_inequality(
                self.received as int + 1,
                u32::MAX as int,
                u64::MAX as int,
            );
        }
        self.sent = self.sent + 1;
        self.received = self.received + 1;
        self.total_rtt_nanos = self.total_rtt_nanos + rtt_nanos as u128;
    }

    /// One failed exchange (timeout or transport error): only `sent`
    /// grows; the failure contributes nothing to the accumulated time.
    pub fn update_with_failure(&mut self)
        requires
            old(self).wf(),
            old(self).sent < u32::MAX,
        ensures
            final(self).wf(),
            final(self).sent == old(self).sent + 1,
            final(self).received == old(self).received,
            final(self).total_rtt_nanos == old(self).total_rtt_nanos,
    {
        self.sent = self.sent + 1;
    }

    /// Packet loss in hundredths of a percent.  Always within
    /// `[0, FULL_LOSS_HUNDREDTHS]`; an empty run reports full loss.
    pub fn packet_loss_hundredths(&self) -> (r: u32)
        requires
            self.wf(),
        ensures
            r == self.spec_loss_hundredths(),
            r <= FULL_LOSS_HUNDREDTHS,
            self.sent == 0 ==> r == FULL_LOSS_HUNDREDTHS,
            self.sent > 0 && self.received == self.sent ==> r == 0,
    {
        if self.sent == 0 {
            return FULL_LOSS_HUNDREDTHS;
        }
        let lost: u32 = self.sent - self.received;
        let scaled: u64 = (lost as u64) * (FULL_LOSS_HUNDREDTHS as u64);
        let loss: u64 = scaled / (self.sent as u64);
        proof {
            lemma_mul_inequality(lost as int, self.sent as int, FULL_LOSS_HUNDREDTHS as int);
            lemma_div_is_ordered(
                scaled as int,
                (self.sent as int) * (FULL_LOSS_HUNDREDTHS as int),
                self.sent as int,
            );
            lemma_div_multiples_vanish(FULL_LOSS_HUNDREDTHS as int, self.sent as int);
        }
        loss as u32
    }

    /// Average round-trip time in nanoseconds (zero when nothing was
    /// received).  Well-formedness bounds it by one maximal duration.
    pub fn avg_rtt(&self) -> (r: u128)
        requires
            self.wf(),
        ensures
            r == self.spec_avg_rtt_nanos(),
            r <= u64::MAX,
            self.received == 0 ==> r == 0,
    {
        if self.received == 0 {
            return 0;
        }
        let avg: u128 = self.total_rtt_nanos / (self.received as u128);
        proof {
            lemma_div_is_ordered(
                self.total_rtt_nanos as int,
                (self.received as int) * (u64::MAX as int),
                self.received as int,
            );
            lemma_div_multiples_vanish(u64::MAX as int, self.received as int);
        }
        avg
    }

    /// Average round-trip time truncated to whole milliseconds.
    pub fn avg_rtt_millis(&self) -> (r: u64)
        requires
            self.wf(),
        ensures
            r == self.spec_avg_rtt_millis(),
            r as int <= (u64::MAX as int) / (NANOS_PER_MILLI as int),
            self.received == 0 ==> r == 0,
    {
        let avg: u128 = self.avg_rtt();
        proof {
            lemma_div_is_ordered(
                self.spec_avg_rtt_nanos(),
                u64::MAX as int,
                NANOS_PER_MILLI as int,
            );
        }
        (avg / (NANOS_PER_MILLI as u128)) as u64
    }
}

} // verus!

//! Network rate tracking: a baseline of cumulative totals and the throughput
//! derived from it.
use vstd::prelude::*;
use crate::counters::{cap, cumulative_totals, received_sum, transmitted_sum, CumulativeCounters};
use vstd::arithmetic::div_mod::{
    lemma_div_by_multiple, lemma_div_is_ordered, lemma_fundamental_div_mod,
    lemma_hoist_over_denominator,
};

verus! {

/// Nanoseconds in one second.
pub const NANOS_PER_SEC: u64 = 1_000_000_000;

/// Throughput in bytes per second between a counter value `prev` and a later
/// value `cur`, `elapsed` nanoseconds apart, truncated and saturated at the
/// largest `u64`. It is zero where no time has passed (or the clock went
/// back) and where the counter went down (a reset, an overflow, or an
/// interface that disappeared).
pub open spec fn rate(prev: int, cur: int, elapsed: int) -> int {
    if elapsed <= 0 || cur < prev {
        0
    } else {
        cap((cur - prev) * NANOS_PER_SEC / elapsed)
    }
}

/// The counter totals observed at one moment, against which the next
/// sample computes a rate.
#[derive(Clone, Copy, Debug, PartialEq, Eq)]
pub struct NetworkBaseline {
    /// When the totals were observed, in nanoseconds on the caller's clock.
    pub time_ns: u64,
    /// Bytes received over all interfaces.
    pub rx_total: u128,
    /// Bytes transmitted over all interfaces.
    pub tx_total: u128,
}

/// The baseline that readings of `interfaces` taken at `now_ns` give.
pub open spec fn baseline_of(interfaces: Seq<CumulativeCounters>, now_ns: u64) -> NetworkBaseline {
    NetworkBaseline {
        time_ns: now_ns,
        rx_total: received_sum(interfaces) as u128,
        tx_total: transmitted_sum(interfaces) as u128,
    }
}

/// Rates `(rx, tx)` from `base` to the readings `interfaces` taken at `now_ns`.
pub open spec fn rates_of(base: NetworkBaseline, interfaces: Seq<CumulativeCounters>, now_ns: u64) -> (
    u64,
    u64,
) {
    let next = baseline_of(interfaces, now_ns);
    let elapsed = now_ns - base.time_ns;
    (
        rate(base.rx_total as int, next.rx_total as int, elapsed) as u64,
        rate(base.tx_total as int, next.tx_total as int, elapsed) as u64,
    )
}

/// The largest whole number of bytes per nanosecond whose rate per second
/// still fits in a `u64`.
const MAX_BYTES_PER_NANO: u128 = 18_446_744_073;

/// Bytes per second from `prev` at `prev_ns` to `cur` at `now_ns`.
pub fn throughput(prev: u128, cur: u128, prev_ns: u64, now_ns: u64) -> (r: u64)
    ensures
        r == rate(prev as int, cur as int, now_ns - prev_ns),
{
    if now_ns <= prev_ns || cur < prev {
        0
    } else {
        let delta: u128 = cur - prev;
        let elapsed: u128 = (now_ns - prev_ns) as u128;
        let per_nano: u128 = delta / elapsed;
        let rest: u128 = delta % elapsed;
        proof {
            lemma_fundamental_div_mod(delta as int, elapsed as int);
        }
        let ghost exact: int = (delta as int) * (NANOS_PER_SEC as int) / (elapsed as int);
        if per_nano > MAX_BYTES_PER_NANO {
            proof {
                let c: int = (MAX_BYTES_PER_NANO + 1) * NANOS_PER_SEC;
                assert(c * elapsed <= delta * NANOS_PER_SEC) by (nonlinear_arith)
                    requires
                        delta == elapsed * per_nano + rest,
                        rest >= 0,
                        per_nano >= MAX_BYTES_PER_NANO + 1,
                        elapsed > 0,
                        c == (MAX_BYTES_PER_NANO + 1) * NANOS_PER_SEC,
                ;
                lemma_div_is_ordered(c * elapsed, delta * NANOS_PER_SEC, elapsed as int);
                lemma_div_by_multiple(c, elapsed as int);
            }
            u64::MAX
        } else {
            assert(rest * NANOS_PER_SEC < 0x1_0000_0000_0000_0000 * NANOS_PER_SEC) by (nonlinear_arith)
                requires
                    rest < elapsed,
                    elapsed <= 0xffff_ffff_ffff_ffff,
            ;
            assert(per_nano * NANOS_PER_SEC <= MAX_BYTES_PER_NANO * NANOS_PER_SEC) by (nonlinear_arith)
                requires
                    per_nano <= MAX_BYTES_PER_NANO,
            ;
            let part: u128 = rest * (NANOS_PER_SEC as u128) / elapsed;
            assert(part <= rest * NANOS_PER_SEC) by (nonlinear_arith)
                requires
                    part == (rest as int) * (NANOS_PER_SEC as int) / (elapsed as int),
                    rest >= 0,
                    elapsed >= 1,
            ;
            let per_sec: u128 = per_nano * (NANOS_PER_SEC as u128) + part;
            proof {
                lemma_hoist_over_denominator(
                    rest * NANOS_PER_SEC,
                    per_nano * NANOS_PER_SEC,
                    elapsed as nat,
                );
                assert(rest * NANOS_PER_SEC + (per_nano * NANOS_PER_SEC) * elapsed == delta
                    * NANOS_PER_SEC) by (nonlinear_arith)
                    requires
                        delta == elapsed * per_nano + rest,
                ;
                assert(per_sec == exact);
            }
            if per_sec > u64::MAX as u128 {
                u64::MAX
            } else {
                per_sec as u64
            }
        }
    }
}

impl NetworkBaseline {
    /// The baseline of the readings `interfaces` taken at `now_ns`: the sum of
    /// each counter over all interfaces.
    pub fn observe(interfaces: &[CumulativeCounters], now_ns: u64) -> (r: NetworkBaseline)
        ensures
            r == baseline_of(interfaces@, now_ns),
    {
        let (rx, tx) = cumulative_totals(interfaces);
        NetworkBaseline { time_ns: now_ns, rx_total: rx, tx_total: tx }
    }

    /// Rates `(rx, tx)` in bytes per second since this baseline, to the
    /// readings `interfaces` taken at `now_ns`; the baseline then becomes
    /// those readings.
    pub fn advance(&mut self, interfaces: &[CumulativeCounters], now_ns: u64) -> (r: (u64, u64))
        ensures
            r == rates_of(*old(self), interfaces@, now_ns),
            *final(self) == baseline_of(interfaces@, now_ns),
    {
        let next = NetworkBaseline::observe(interfaces, now_ns);
        let rx = throughput(self.rx_total, next.rx_total, self.time_ns, now_ns);
        let tx = throughput(self.tx_total, next.tx_total, self.time_ns, now_ns);
        *self = next;
        (rx, tx)
    }
}

} // verus!

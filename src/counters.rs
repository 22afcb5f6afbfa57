//! Counter readings and their sums.
//!
//! Two kinds of counters are kept apart by type: a network interface reports
//! cumulative byte counts (growing since boot, so a rate needs a baseline),
//! while a process reports interval byte counts (reset by the provider on
//! each refresh, so they are summed as they are).
use vstd::prelude::*;
use vstd::multiset::Multiset;

verus! {

/// The largest value a `u64` holds.
pub open spec fn u64_max() -> int {
    0xffff_ffff_ffff_ffffint
}

/// `n`, saturated at the largest `u64`.
pub open spec fn cap(n: int) -> int {
    if n > u64_max() {
        u64_max()
    } else {
        n
    }
}

/// Cumulative byte counters of one network interface.
#[derive(Clone, Copy, Debug, PartialEq, Eq)]
pub struct CumulativeCounters {
    /// Bytes received since boot.
    pub received: u64,
    /// Bytes transmitted since boot.
    pub transmitted: u64,
}

/// Disk byte counters of one process over the provider's last interval.
#[derive(Clone, Copy, Debug, PartialEq, Eq)]
pub struct IntervalCounters {
    /// Bytes read since the provider's last refresh.
    pub read_bytes: u64,
    /// Bytes written since the provider's last refresh.
    pub written_bytes: u64,
}

/// The counters of `s` as `(received, transmitted)` pairs, without their
/// order.
pub open spec fn counter_pairs(s: Seq<CumulativeCounters>) -> Multiset<(u64, u64)> {
    s.map_values(|c: CumulativeCounters| (c.received, c.transmitted)).to_multiset()
}

/// The counters of `s` as `(read, written)` pairs, without their order.
pub open spec fn io_pairs(s: Seq<IntervalCounters>) -> Multiset<(u64, u64)> {
    s.map_values(|c: IntervalCounters| (c.read_bytes, c.written_bytes)).to_multiset()
}

/// Sum of the received counters of `s`.
pub open spec fn received_sum(s: Seq<CumulativeCounters>) -> int
    decreases s.len(),
{
    if s.len() == 0 {
        0
    } else {
        received_sum(s.drop_last()) + s.last().received
    }
}

/// Sum of the transmitted counters of `s`.
pub open spec fn transmitted_sum(s: Seq<CumulativeCounters>) -> int
    decreases s.len(),
{
    if s.len() == 0 {
        0
    } else {
        transmitted_sum(s.drop_last()) + s.last().transmitted
    }
}

/// Sum of the read counters of `s`.
pub open spec fn read_sum(s: Seq<IntervalCounters>) -> int
    decreases s.len(),
{
    if s.len() == 0 {
        0
    } else {
        read_sum(s.drop_last()) + s.last().read_bytes
    }
}

/// Sum of the written counters of `s`.
pub open spec fn written_sum(s: Seq<IntervalCounters>) -> int
    decreases s.len(),
{
    if s.len() == 0 {
        0
    } else {
        written_sum(s.drop_last()) + s.last().written_bytes
    }
}

/// Counter sums are never negative, and at most the largest `u64` per
/// interface.
pub proof fn lemma_cumulative_sum_bounds(s: Seq<CumulativeCounters>)
    ensures
        0 <= received_sum(s) <= s.len() * u64_max(),
        0 <= transmitted_sum(s) <= s.len() * u64_max(),
    decreases s.len(),
{
    if s.len() > 0 {
        lemma_cumulative_sum_bounds(s.drop_last());
        assert((s.len() - 1) * u64_max() + u64_max() == s.len() * u64_max()) by (nonlinear_arith);
    }
}

/// Totals of cumulative counters over all interfaces: `(received,
/// transmitted)`, exact.
pub fn cumulative_totals(interfaces: &[CumulativeCounters]) -> (r: (u128, u128))
    ensures
        r.0 == received_sum(interfaces@),
        r.1 == transmitted_sum(interfaces@),
{
    let mut rx: u128 = 0;
    let mut tx: u128 = 0;
    let mut i: usize = 0;
    while i < interfaces.len()
        invariant
            i <= interfaces@.len(),
            rx == received_sum(interfaces@.take(i as int)),
            tx == transmitted_sum(interfaces@.take(i as int)),
        decreases interfaces@.len() - i,
    {
        let ghost next = interfaces@.take(i as int + 1);
        assert(next.drop_last() == interfaces@.take(i as int));
        proof {
            lemma_cumulative_sum_bounds(next);
            let n = i as int + 1;
            assert(n * u64_max() < 0x1_0000_0000_0000_0000_0000_0000_0000_0000) by (nonlinear_arith)
                requires
                    0 < n <= 0xffff_ffff_ffff_ffff,
            ;
        }
        rx = rx + interfaces[i].received as u128;
        tx = tx + interfaces[i].transmitted as u128;
        i = i + 1;
    }
    assert(interfaces@.take(i as int) == interfaces@);
    (rx, tx)
}

/// Totals of interval counters over all processes, each saturated at the
/// largest `u64`: `(read, written)`. No processes give `(0, 0)`.
pub fn interval_totals(processes: &[IntervalCounters]) -> (r: (u64, u64))
    ensures
        r.0 == cap(read_sum(processes@)),
        r.1 == cap(written_sum(processes@)),
{
    let mut read: u64 = 0;
    let mut written: u64 = 0;
    let mut i: usize = 0;
    while i < processes.len()
        invariant
            i <= processes@.len(),
            read == cap(read_sum(processes@.take(i as int))),
            written == cap(written_sum(processes@.take(i as int))),
        decreases processes@.len() - i,
    {
        assert(processes@.take(i as int + 1).drop_last() == processes@.take(i as int));
        read = read.saturating_add(processes[i].read_bytes);
        written = written.saturating_add(processes[i].written_bytes);
        i = i + 1;
    }
    assert(processes@.take(i as int) == processes@);
    (read, written)
}

} // verus!

//! Properties of the sampler across calls, stated over the models that the
//! functions' contracts use.
use vstd::prelude::*;
use crate::counters::{lemma_cumulative_sum_bounds, received_sum, transmitted_sum, u64_max, CumulativeCounters};
use crate::disk::DiskPolicy;
use crate::monitor::{snapshot_of, ProviderReadings};
use crate::rate::{baseline_of, NetworkBaseline, NANOS_PER_SEC};

verus! {

/// Whether `s` is no longer than a list in memory can be.
pub open spec fn fits_in_memory(s: Seq<CumulativeCounters>) -> bool {
    s.len() <= 0xffff_ffff_ffff_ffff
}

/// A baseline taken from readings of interfaces holds the exact sum of each
/// of their counters, observed at that time.
pub proof fn law_baseline_is_sum(interfaces: Seq<CumulativeCounters>, now_ns: u64)
    requires
        fits_in_memory(interfaces),
    ensures
        baseline_of(interfaces, now_ns).time_ns == now_ns,
        baseline_of(interfaces, now_ns).rx_total == received_sum(interfaces),
        baseline_of(interfaces, now_ns).tx_total == transmitted_sum(interfaces),
{
    lemma_sum_fits(interfaces);
}

proof fn lemma_sum_fits(s: Seq<CumulativeCounters>)
    requires
        fits_in_memory(s),
    ensures
        0 <= received_sum(s) < 0x1_0000_0000_0000_0000_0000_0000_0000_0000,
        0 <= transmitted_sum(s) < 0x1_0000_0000_0000_0000_0000_0000_0000_0000,
{
    lemma_cumulative_sum_bounds(s);
    let n = s.len() as int;
    assert(n * u64_max() < 0x1_0000_0000_0000_0000_0000_0000_0000_0000) by (nonlinear_arith)
        requires
            0 <= n <= 0xffff_ffff_ffff_ffff,
    ;
}

/// Between a baseline taken at `t0` and a sample at a later `t1`, during which
/// the received total grew by some amount, the reported receive rate is that
/// growth per second, truncated; the same holds of the transmit rate. (Where
/// the rate itself does not fit in a `u64`, it is saturated instead.)
pub proof fn law_rate_is_growth_per_second(
    before: Seq<CumulativeCounters>,
    t0: u64,
    policy: DiskPolicy,
    readings: ProviderReadings,
    t1: u64,
)
    requires
        t0 < t1,
        fits_in_memory(before),
        fits_in_memory(readings.interfaces@),
        received_sum(before) <= received_sum(readings.interfaces@),
        transmitted_sum(before) <= transmitted_sum(readings.interfaces@),
        (received_sum(readings.interfaces@) - received_sum(before)) * NANOS_PER_SEC / (t1 - t0)
            <= u64_max(),
        (transmitted_sum(readings.interfaces@) - transmitted_sum(before)) * NANOS_PER_SEC / (t1
            - t0) <= u64_max(),
    ensures
        snapshot_of(baseline_of(before, t0), policy, readings, t1).network_rx_bytes == (
        received_sum(readings.interfaces@) - received_sum(before)) * NANOS_PER_SEC / (t1 - t0),
        snapshot_of(baseline_of(before, t0), policy, readings, t1).network_tx_bytes == (
        transmitted_sum(readings.interfaces@) - transmitted_sum(before)) * NANOS_PER_SEC / (t1
            - t0),
{
    lemma_sum_fits(before);
    lemma_sum_fits(readings.interfaces@);
    let drx = received_sum(readings.interfaces@) - received_sum(before);
    let dtx = transmitted_sum(readings.interfaces@) - transmitted_sum(before);
    let e = t1 - t0;
    assert(drx * NANOS_PER_SEC / e >= 0) by (nonlinear_arith)
        requires
            drx >= 0,
            e > 0,
    ;
    assert(dtx * NANOS_PER_SEC / e >= 0) by (nonlinear_arith)
        requires
            dtx >= 0,
            e > 0,
    ;
}

/// Where the interface counters did not change since the baseline, both
/// rates are zero, however much time has passed.
pub proof fn law_constant_counters_give_zero_rates(
    interfaces: Seq<CumulativeCounters>,
    t0: u64,
    policy: DiskPolicy,
    readings: ProviderReadings,
    t1: u64,
)
    requires
        t0 < t1,
        readings.interfaces@ == interfaces,
    ensures
        snapshot_of(baseline_of(interfaces, t0), policy, readings, t1).network_rx_bytes == 0,
        snapshot_of(baseline_of(interfaces, t0), policy, readings, t1).network_tx_bytes == 0,
{
}

/// A sample taken at the very time of the baseline reports zero rates,
/// whatever the counters say.
pub proof fn law_no_elapsed_time_gives_zero_rates(
    base: NetworkBaseline,
    policy: DiskPolicy,
    readings: ProviderReadings,
)
    ensures
        snapshot_of(base, policy, readings, base.time_ns).network_rx_bytes == 0,
        snapshot_of(base, policy, readings, base.time_ns).network_tx_bytes == 0,
{
}

/// A counter whose current total is below the baseline's (a reset, an
/// overflow, an interface gone) gives a zero rate.
pub proof fn law_counter_decrease_gives_zero_rate(
    base: NetworkBaseline,
    policy: DiskPolicy,
    readings: ProviderReadings,
    now_ns: u64,
)
    ensures
        received_sum(readings.interfaces@) < base.rx_total ==> snapshot_of(
            base,
            policy,
            readings,
            now_ns,
        ).network_rx_bytes == 0,
        transmitted_sum(readings.interfaces@) < base.tx_total ==> snapshot_of(
            base,
            policy,
            readings,
            now_ns,
        ).network_tx_bytes == 0,
{
    lemma_cumulative_sum_bounds(readings.interfaces@);
}

/// A provider that reports no interfaces, disks or processes gives a
/// snapshot whose network and disk figures are all zero, and whose memory
/// figures are those it reported.
pub proof fn law_empty_provider(
    base: NetworkBaseline,
    policy: DiskPolicy,
    readings: ProviderReadings,
    now_ns: u64,
)
    requires
        readings.interfaces@.len() == 0,
        readings.disks@.len() == 0,
        readings.processes@.len() == 0,
    ensures
        snapshot_of(base, policy, readings, now_ns).network_rx_bytes == 0,
        snapshot_of(base, policy, readings, now_ns).network_tx_bytes == 0,
        snapshot_of(base, policy, readings, now_ns).disk_io_read_bytes == 0,
        snapshot_of(base, policy, readings, now_ns).disk_io_write_bytes == 0,
        snapshot_of(base, policy, readings, now_ns).disk_total_bytes == 0,
        snapshot_of(base, policy, readings, now_ns).disk_used_bytes == 0,
        snapshot_of(base, policy, readings, now_ns).disk_free_bytes == 0,
        snapshot_of(base, policy, readings, now_ns).memory_total == readings.memory_total,
        snapshot_of(base, policy, readings, now_ns).memory_used == readings.memory_used,
{
}

/// Every snapshot's free memory is its total less its used memory, wherever
/// the provider reports no more in use than there is.
pub proof fn law_free_memory(
    base: NetworkBaseline,
    policy: DiskPolicy,
    readings: ProviderReadings,
    now_ns: u64,
)
    requires
        readings.memory_used <= readings.memory_total,
    ensures
        snapshot_of(base, policy, readings, now_ns).memory_free == snapshot_of(
            base,
            policy,
            readings,
            now_ns,
        ).memory_total - snapshot_of(base, policy, readings, now_ns).memory_used,
{
}

} // verus!

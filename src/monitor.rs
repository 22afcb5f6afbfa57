//! The resource sampler: keeps the network baseline between calls and turns
//! each set of provider readings into a snapshot.
use vstd::prelude::*;
use crate::counters::{
    cap, counter_pairs, interval_totals, io_pairs, read_sum, written_sum, CumulativeCounters,
    IntervalCounters,
};
use crate::disk::{calculate_disk_stats, capacity_of, counted, disk_triples, DiskPolicy, DiskReading};
use crate::provider::{
    disk_readings, disks_of, interface_counters, interfaces_of, process_io, processes_of,
    total_memory_of, used_memory_of,
};
use crate::rate::{baseline_of, rates_of, NetworkBaseline};

verus! {

/// What the information provider reports at one moment, as plain values.
#[derive(Clone, Debug)]
pub struct ProviderReadings {
    /// The machine's memory, in bytes.
    pub memory_total: u64,
    /// The memory in use, in bytes.
    pub memory_used: u64,
    /// Seconds since boot.
    pub uptime: u64,
    /// Cumulative counters, one entry per network interface.
    pub interfaces: Vec<CumulativeCounters>,
    /// Capacity, one entry per disk.
    pub disks: Vec<DiskReading>,
    /// Disk I/O over the provider's last interval, one entry per process.
    pub processes: Vec<IntervalCounters>,
}

/// One sample of system health, with every integer figure.
#[derive(Clone, Copy, Debug, PartialEq, Eq, Structural)]
pub struct ResourceSnapshot {
    /// The machine's memory, in bytes.
    pub memory_total: u64,
    /// The memory in use, in bytes.
    pub memory_used: u64,
    /// The memory not in use, in bytes.
    pub memory_free: u64,
    /// Cached memory: the provider reports none, so this is always zero.
    pub memory_cached: u64,
    /// Seconds since boot.
    pub uptime: u64,
    /// Bytes received per second since the previous sample.
    pub network_rx_bytes: u64,
    /// Bytes transmitted per second since the previous sample.
    pub network_tx_bytes: u64,
    /// Bytes read by all processes over the provider's last interval.
    pub disk_io_read_bytes: u64,
    /// Bytes written by all processes over the provider's last interval.
    pub disk_io_write_bytes: u64,
    /// Size of the counted disks, in bytes.
    pub disk_total_bytes: u64,
    /// Space in use on the counted disks, in bytes.
    pub disk_used_bytes: u64,
    /// Space available on the counted disks, in bytes.
    pub disk_free_bytes: u64,
}

/// Memory not in use: `total - used`, or zero where the provider reports
/// more in use than there is.
pub open spec fn free_memory(total: u64, used: u64) -> u64 {
    if used <= total {
        (total - used) as u64
    } else {
        0
    }
}

/// Whether `readings` are what `sys`, `networks` and `disks` hold, with
/// `uptime` seconds since boot: the same figures, interfaces, disks (in
/// order) and processes, the two maps walked in any order.
pub open spec fn read_from(
    readings: ProviderReadings,
    sys: sysinfo::System,
    networks: sysinfo::Networks,
    disks: sysinfo::Disks,
    uptime: u64,
) -> bool {
    &&& readings.memory_total == total_memory_of(sys)
    &&& readings.memory_used == used_memory_of(sys)
    &&& readings.uptime == uptime
    &&& counter_pairs(readings.interfaces@) == interfaces_of(networks)
    &&& disk_triples(readings.disks@) == disks_of(disks)
    &&& io_pairs(readings.processes@) == processes_of(sys)
}

/// The snapshot that `readings`, taken at `now_ns`, give against the network
/// baseline `base`, with the disks that `policy` counts.
pub open spec fn snapshot_of(
    base: NetworkBaseline,
    policy: DiskPolicy,
    readings: ProviderReadings,
    now_ns: u64,
) -> ResourceSnapshot {
    let (rx, tx) = rates_of(base, readings.interfaces@, now_ns);
    let (total, used, free) = capacity_of(counted(policy, readings.disks@));
    ResourceSnapshot {
        memory_total: readings.memory_total,
        memory_used: readings.memory_used,
        memory_free: free_memory(readings.memory_total, readings.memory_used),
        memory_cached: 0,
        uptime: readings.uptime,
        network_rx_bytes: rx,
        network_tx_bytes: tx,
        disk_io_read_bytes: cap(read_sum(readings.processes@)) as u64,
        disk_io_write_bytes: cap(written_sum(readings.processes@)) as u64,
        disk_total_bytes: total,
        disk_used_bytes: used,
        disk_free_bytes: free,
    }
}

/// Monitors system-wide statistics. It owns its network baseline: one
/// caller at a time samples through it.
#[derive(Debug)]
pub struct SystemMonitor {
    last_network_update: NetworkBaseline,
    disk_policy: DiskPolicy,
}

impl SystemMonitor {
    /// The network totals and time of the last observation.
    pub closed spec fn baseline(&self) -> NetworkBaseline {
        self.last_network_update
    }

    /// Which disks count toward the capacity totals.
    pub closed spec fn policy(&self) -> DiskPolicy {
        self.disk_policy
    }

    /// A monitor whose baseline is the readings `interfaces` taken at `now_ns`.
    pub fn from_counters(interfaces: &[CumulativeCounters], now_ns: u64, policy: DiskPolicy) -> (r:
        SystemMonitor)
        ensures
            r.baseline() == baseline_of(interfaces@, now_ns),
            r.policy() == policy,
    {
        SystemMonitor {
            last_network_update: NetworkBaseline::observe(interfaces, now_ns),
            disk_policy: policy,
        }
    }

    /// A monitor whose baseline is the interfaces that `networks` lists,
    /// taken at `now_ns`.
    pub fn new(networks: &sysinfo::Networks, now_ns: u64, policy: DiskPolicy) -> (r: SystemMonitor)
        ensures
            exists|interfaces: Seq<CumulativeCounters>|
                counter_pairs(interfaces) == interfaces_of(*networks) && r.baseline()
                    == baseline_of(interfaces, now_ns),
            r.policy() == policy,
    {
        let interfaces = interface_counters(networks);
        SystemMonitor::from_counters(interfaces.as_slice(), now_ns, policy)
    }

    /// Network rates `(rx, tx)` in bytes per second since the baseline, to the
    /// readings `interfaces` taken at `now_ns`; the baseline becomes those
    /// readings.
    pub fn calculate_network_stats(&mut self, interfaces: &[CumulativeCounters], now_ns: u64) -> (r: (
        u64,
        u64,
    ))
        ensures
            r == rates_of(old(self).baseline(), interfaces@, now_ns),
            final(self).baseline() == baseline_of(interfaces@, now_ns),
            final(self).policy() == old(self).policy(),
    {
        self.last_network_update.advance(interfaces, now_ns)
    }

    /// Disk I/O `(read, written)` over all processes, as the provider counted
    /// it over its last interval.
    pub fn calculate_disk_io_stats(&self, processes: &[IntervalCounters]) -> (r: (u64, u64))
        ensures
            r.0 == cap(read_sum(processes@)),
            r.1 == cap(written_sum(processes@)),
    {
        interval_totals(processes)
    }

    /// Capacity totals `(total, used, free)` over the disks that this
    /// monitor's policy counts.
    pub fn calculate_disk_stats(&self, disks: &[DiskReading]) -> (r: (u64, u64, u64))
        ensures
            r == capacity_of(counted(self.policy(), disks@)),
    {
        calculate_disk_stats(disks, self.disk_policy)
    }

    /// The snapshot of `readings`, taken at `now_ns`; the network baseline
    /// becomes those readings.
    pub fn sample(&mut self, readings: &ProviderReadings, now_ns: u64) -> (r: ResourceSnapshot)
        ensures
            r == snapshot_of(old(self).baseline(), old(self).policy(), *readings, now_ns),
            final(self).baseline() == baseline_of(readings.interfaces@, now_ns),
            final(self).policy() == old(self).policy(),
    {
        let (network_rx, network_tx) = self.calculate_network_stats(readings.interfaces.as_slice(), now_ns);
        let (disk_io_read, disk_io_write) = self.calculate_disk_io_stats(readings.processes.as_slice());
        let (disk_total, disk_used, disk_free) = self.calculate_disk_stats(readings.disks.as_slice());
        let memory_free: u64 = if readings.memory_used <= readings.memory_total {
            readings.memory_total - readings.memory_used
        } else {
            0
        };
        ResourceSnapshot {
            memory_total: readings.memory_total,
            memory_used: readings.memory_used,
            memory_free,
            memory_cached: 0,
            uptime: readings.uptime,
            network_rx_bytes: network_rx,
            network_tx_bytes: network_tx,
            disk_io_read_bytes: disk_io_read,
            disk_io_write_bytes: disk_io_write,
            disk_total_bytes: disk_total,
            disk_used_bytes: disk_used,
            disk_free_bytes: disk_free,
        }
    }

    /// The snapshot of what `sys`, `networks` and `disks` hold, taken at
    /// `now_ns` with `uptime` seconds since boot; the network baseline
    /// becomes the interfaces that `networks` lists. The snapshot is the one
    /// that the readings of those values give, in whatever order the
    /// provider's maps are walked.
    pub fn collect_stats(
        &mut self,
        sys: &sysinfo::System,
        networks: &sysinfo::Networks,
        disks: &sysinfo::Disks,
        now_ns: u64,
        uptime: u64,
    ) -> (r: ResourceSnapshot)
        ensures
            exists|readings: ProviderReadings|
                read_from(readings, *sys, *networks, *disks, uptime) && r == snapshot_of(
                    old(self).baseline(),
                    old(self).policy(),
                    readings,
                    now_ns,
                ) && final(self).baseline() == baseline_of(readings.interfaces@, now_ns),
            final(self).policy() == old(self).policy(),
    {
        let readings = ProviderReadings {
            memory_total: sys.total_memory(),
            memory_used: sys.used_memory(),
            uptime,
            interfaces: interface_counters(networks),
            disks: disk_readings(disks),
            processes: process_io(sys),
        };
        assert(read_from(readings, *sys, *networks, *disks, uptime));
        self.sample(&readings, now_ns)
    }

    /// When the baseline was observed, in nanoseconds on the caller's clock.
    pub fn last_sample_time(&self) -> (r: u64)
        ensures
            r == self.baseline().time_ns,
    {
        self.last_network_update.time_ns
    }

    /// Bytes received over all interfaces at the baseline.
    pub fn last_rx_total(&self) -> (r: u128)
        ensures
            r == self.baseline().rx_total,
    {
        self.last_network_update.rx_total
    }

    /// Bytes transmitted over all interfaces at the baseline.
    pub fn last_tx_total(&self) -> (r: u128)
        ensures
            r == self.baseline().tx_total,
    {
        self.last_network_update.tx_total
    }

    /// Which disks count toward the capacity totals.
    pub fn disk_policy(&self) -> (r: DiskPolicy)
        ensures
            r == self.policy(),
    {
        self.disk_policy
    }
}

} // verus!

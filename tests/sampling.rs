use sysmon::disk::{calculate_disk_stats, capacity_totals, filter_disks, is_root_mount};
use sysmon::rate::throughput;
use sysmon::counters::{cumulative_totals, interval_totals};
use sysmon::{
    CumulativeCounters, DiskPolicy, DiskReading, IntervalCounters, NetworkBaseline,
    ProviderReadings, SystemMonitor,
};

const SEC: u64 = 1_000_000_000;

fn iface(received: u64, transmitted: u64) -> CumulativeCounters {
    CumulativeCounters { received, transmitted }
}

fn disk(mount: &str, total: u64, avail: u64) -> DiskReading {
    DiskReading { mount_point: mount.to_string(), total_space: total, available_space: avail }
}

fn two_disks() -> Vec<DiskReading> {
    vec![disk("/", 100, 40), disk("/boot", 10, 5)]
}

fn readings(interfaces: Vec<CumulativeCounters>) -> ProviderReadings {
    ProviderReadings {
        memory_total: 16_000,
        memory_used: 6_000,
        uptime: 3_600,
        interfaces,
        disks: two_disks(),
        processes: vec![],
    }
}

#[test]
fn baseline_is_sum_of_interfaces() {
    let m = SystemMonitor::from_counters(&[iface(100, 10), iface(250, 20)], 7, DiskPolicy::RootOnly);
    assert_eq!(m.last_rx_total(), 350);
    assert_eq!(m.last_tx_total(), 30);
    assert_eq!(m.last_sample_time(), 7);
}

#[test]
fn baseline_of_no_interfaces_is_zero() {
    let b = NetworkBaseline::observe(&[], 3);
    assert_eq!(b, NetworkBaseline { time_ns: 3, rx_total: 0, tx_total: 0 });
}

#[test]
fn rate_is_growth_per_second() {
    let mut m = SystemMonitor::from_counters(&[iface(1_000, 500)], 0, DiskPolicy::RootOnly);
    let s = m.sample(&readings(vec![iface(5_000, 2_500)]), 2 * SEC);
    assert_eq!(s.network_rx_bytes, 2_000);
    assert_eq!(s.network_tx_bytes, 1_000);
    assert_eq!(m.last_rx_total(), 5_000);
    assert_eq!(m.last_tx_total(), 2_500);
    assert_eq!(m.last_sample_time(), 2 * SEC);
}

#[test]
fn rate_is_truncated() {
    let mut m = SystemMonitor::from_counters(&[iface(0, 0)], 0, DiskPolicy::RootOnly);
    let (rx, tx) = m.calculate_network_stats(&[iface(10, 1)], 3 * SEC);
    assert_eq!(rx, 3);
    assert_eq!(tx, 0);
}

#[test]
fn rate_over_half_second() {
    let mut m = SystemMonitor::from_counters(&[iface(0, 0)], SEC, DiskPolicy::RootOnly);
    let (rx, tx) = m.calculate_network_stats(&[iface(300, 7)], SEC + SEC / 2);
    assert_eq!(rx, 600);
    assert_eq!(tx, 14);
}

#[test]
fn constant_counters_give_zero_rate() {
    let mut m = SystemMonitor::from_counters(&[iface(900, 800)], 0, DiskPolicy::RootOnly);
    let (rx, tx) = m.calculate_network_stats(&[iface(900, 800)], 17 * SEC);
    assert_eq!((rx, tx), (0, 0));
}

#[test]
fn identical_timestamps_give_zero_rate() {
    let mut m = SystemMonitor::from_counters(&[iface(0, 0)], 5 * SEC, DiskPolicy::RootOnly);
    let (rx, tx) = m.calculate_network_stats(&[iface(1_000_000, 1_000_000)], 5 * SEC);
    assert_eq!((rx, tx), (0, 0));
    assert_eq!(m.last_rx_total(), 1_000_000);
}

#[test]
fn clock_going_back_gives_zero_rate() {
    assert_eq!(throughput(0, 1_000, 10 * SEC, 9 * SEC), 0);
}

#[test]
fn counter_reset_gives_zero_rate() {
    let mut m = SystemMonitor::from_counters(&[iface(10_000, 10_000)], 0, DiskPolicy::RootOnly);
    let (rx, tx) = m.calculate_network_stats(&[iface(20, 30_000)], SEC);
    assert_eq!(rx, 0);
    assert_eq!(tx, 20_000);
    assert_eq!(m.last_rx_total(), 20);
}

#[test]
fn huge_rate_saturates() {
    assert_eq!(throughput(0, u64::MAX as u128, 0, 1), u64::MAX);
    assert_eq!(throughput(0, u128::MAX, 0, u64::MAX), u64::MAX);
    assert_eq!(throughput(0, 18_446_744_073 * 1_000_000_000 + 999_999_999, 0, SEC), u64::MAX);
}

#[test]
fn large_rates_are_exact() {
    assert_eq!(throughput(0, u64::MAX as u128, 0, SEC), u64::MAX);
    assert_eq!(throughput(1, u64::MAX as u128, 0, SEC), u64::MAX - 1);
    assert_eq!(throughput(0, 5 << 64, 0, 10 * SEC), 1 << 63);
    assert_eq!(throughput(7, 7 + 3 * (1 << 64), 2 * SEC, 6 * SEC), 3 << 62);
}

#[test]
fn baseline_beyond_u64_is_exact() {
    let big = [iface(u64::MAX, 1), iface(u64::MAX, 2)];
    let mut m = SystemMonitor::from_counters(&big, 0, DiskPolicy::RootOnly);
    assert_eq!(m.last_rx_total(), 2 * (u64::MAX as u128));
    assert_eq!(m.last_tx_total(), 3);
    let grown = [iface(u64::MAX, 1), iface(u64::MAX, 2), iface(1_000, 40)];
    let (rx, tx) = m.calculate_network_stats(&grown, SEC);
    assert_eq!((rx, tx), (1_000, 40));
}

#[test]
fn cumulative_sums_are_exact_and_interval_sums_saturate() {
    assert_eq!(cumulative_totals(&[iface(u64::MAX, 1), iface(5, 2)]), (u64::MAX as u128 + 5, 3));
    let p = IntervalCounters { read_bytes: u64::MAX, written_bytes: 0 };
    assert_eq!(interval_totals(&[p, p]), (u64::MAX, 0));
}

#[test]
fn disk_filter_root_only() {
    assert_eq!(calculate_disk_stats(&two_disks(), DiskPolicy::RootOnly), (100, 60, 40));
    let m = SystemMonitor::from_counters(&[], 0, DiskPolicy::RootOnly);
    assert_eq!(m.calculate_disk_stats(&two_disks()), (100, 60, 40));
}

#[test]
fn disk_filter_all_disks() {
    assert_eq!(calculate_disk_stats(&two_disks(), DiskPolicy::AllDisks), (110, 65, 45));
    let m = SystemMonitor::from_counters(&[], 0, DiskPolicy::AllDisks);
    assert_eq!(m.calculate_disk_stats(&two_disks()), (110, 65, 45));
}

#[test]
fn filter_disks_keeps_order() {
    let disks = vec![disk("/home", 1, 1), disk("/", 2, 1), disk("/", 3, 0)];
    let root = filter_disks(&disks, DiskPolicy::RootOnly);
    assert_eq!(root.len(), 2);
    assert_eq!(root[0].total_space, 2);
    assert_eq!(root[1].total_space, 3);
    let all = filter_disks(&disks, DiskPolicy::AllDisks);
    assert_eq!(all.len(), 3);
    assert_eq!(all[0].mount_point, "/home");
}

#[test]
fn root_mount_is_exactly_slash() {
    assert!(is_root_mount(&"/".to_string()));
    assert!(!is_root_mount(&"/boot".to_string()));
    assert!(!is_root_mount(&"".to_string()));
    assert!(!is_root_mount(&"C:\\".to_string()));
}

#[test]
fn no_disks_give_zero_capacity() {
    assert_eq!(capacity_totals(&[]), (0, 0, 0));
    assert_eq!(calculate_disk_stats(&[], DiskPolicy::AllDisks), (0, 0, 0));
    assert_eq!(calculate_disk_stats(&[disk("/boot", 5, 1)], DiskPolicy::RootOnly), (0, 0, 0));
}

#[test]
fn more_available_than_size_counts_no_use() {
    assert_eq!(capacity_totals(&[disk("/", 10, 15), disk("/x", 10, 4)]), (20, 6, 19));
}

#[test]
fn disk_io_sums_processes() {
    let m = SystemMonitor::from_counters(&[], 0, DiskPolicy::RootOnly);
    let procs = [
        IntervalCounters { read_bytes: 100, written_bytes: 1 },
        IntervalCounters { read_bytes: 20, written_bytes: 2 },
        IntervalCounters { read_bytes: 3, written_bytes: 30 },
    ];
    assert_eq!(m.calculate_disk_io_stats(&procs), (123, 33));
    assert_eq!(m.calculate_disk_io_stats(&[]), (0, 0));
}

#[test]
fn empty_provider_gives_zero_figures() {
    let mut m = SystemMonitor::from_counters(&[iface(50, 60)], 0, DiskPolicy::AllDisks);
    let r = ProviderReadings {
        memory_total: 8_000,
        memory_used: 3_000,
        uptime: 12,
        interfaces: vec![],
        disks: vec![],
        processes: vec![],
    };
    let s = m.sample(&r, SEC);
    assert_eq!(s.network_rx_bytes, 0);
    assert_eq!(s.network_tx_bytes, 0);
    assert_eq!(s.disk_io_read_bytes, 0);
    assert_eq!(s.disk_io_write_bytes, 0);
    assert_eq!((s.disk_total_bytes, s.disk_used_bytes, s.disk_free_bytes), (0, 0, 0));
    assert_eq!(s.memory_total, 8_000);
    assert_eq!(s.memory_used, 3_000);
    assert_eq!(s.memory_free, 5_000);
    assert_eq!(s.uptime, 12);
}

#[test]
fn memory_free_is_total_less_used() {
    let mut m = SystemMonitor::from_counters(&[], 0, DiskPolicy::RootOnly);
    let s = m.sample(&readings(vec![]), SEC);
    assert_eq!(s.memory_free, s.memory_total - s.memory_used);
    assert_eq!(s.memory_free, 10_000);
    assert_eq!(s.memory_cached, 0);
}

#[test]
fn memory_used_above_total_gives_no_free() {
    let mut m = SystemMonitor::from_counters(&[], 0, DiskPolicy::RootOnly);
    let mut r = readings(vec![]);
    r.memory_total = 5;
    r.memory_used = 9;
    assert_eq!(m.sample(&r, SEC).memory_free, 0);
}

#[test]
fn full_sample_combines_parts() {
    let mut m = SystemMonitor::from_counters(&[iface(0, 0), iface(100, 100)], 0, DiskPolicy::RootOnly);
    let mut r = readings(vec![iface(400, 100), iface(300, 300)]);
    r.processes = vec![IntervalCounters { read_bytes: 7, written_bytes: 9 }];
    let s = m.sample(&r, 4 * SEC);
    assert_eq!(s.network_rx_bytes, 150);
    assert_eq!(s.network_tx_bytes, 75);
    assert_eq!((s.disk_io_read_bytes, s.disk_io_write_bytes), (7, 9));
    assert_eq!((s.disk_total_bytes, s.disk_used_bytes, s.disk_free_bytes), (100, 60, 40));
    assert_eq!(s.uptime, 3_600);
    let s2 = m.sample(&r, 5 * SEC);
    assert_eq!((s2.network_rx_bytes, s2.network_tx_bytes), (0, 0));
}

//! Readings taken from sysinfo's in-memory views of the system. Refreshing
//! those views is the caller's business: these functions only read what the
//! last refresh left.
use vstd::prelude::*;
use vstd::multiset::Multiset;
use crate::counters::{counter_pairs, io_pairs, CumulativeCounters, IntervalCounters};
use crate::disk::{disk_triples, DiskReading};

verus! {

#[verifier::external_type_specification]
#[verifier::external_body]
pub struct ExSystem(sysinfo::System);

#[verifier::external_type_specification]
#[verifier::external_body]
pub struct ExNetworks(sysinfo::Networks);

#[verifier::external_type_specification]
#[verifier::external_body]
pub struct ExDisks(sysinfo::Disks);

#[verifier::external_type_specification]
#[verifier::external_body]
pub struct ExNetworkData(sysinfo::NetworkData);

#[verifier::external_type_specification]
#[verifier::external_body]
pub struct ExDisk(sysinfo::Disk);

/// The machine's memory, in bytes, as `sys` last read it.
pub uninterp spec fn total_memory_of(sys: sysinfo::System) -> u64;

/// The memory in use, in bytes, as `sys` last read it.
pub uninterp spec fn used_memory_of(sys: sysinfo::System) -> u64;

/// The interfaces that `networks` lists, as `(received, transmitted)`
/// cumulative counter pairs; the map they sit in has no order.
pub uninterp spec fn interfaces_of(networks: sysinfo::Networks) -> Multiset<(u64, u64)>;

/// The processes that `sys` lists, as `(read, written)` byte counts since its
/// last refresh; the map they sit in has no order.
pub uninterp spec fn processes_of(sys: sysinfo::System) -> Multiset<(u64, u64)>;

/// The disks that `disks` lists, in its order, as `(mount point as text,
/// size, available)` triples.
pub uninterp spec fn disks_of(disks: sysinfo::Disks) -> Seq<(Seq<char>, u64, u64)>;

/// Relies on sysinfo's `System::total_memory`, which reads a field that the
/// last refresh set: the same value gives the same total.
pub assume_specification[ sysinfo::System::total_memory ](s: &sysinfo::System) -> (r: u64)
    ensures
        r == total_memory_of(*s),
;

/// Relies on sysinfo's `System::used_memory`, computed from fields that the
/// last refresh set: the same value gives the same figure.
pub assume_specification[ sysinfo::System::used_memory ](s: &sysinfo::System) -> (r: u64)
    ensures
        r == used_memory_of(*s),
;

/// Relies on sysinfo's `Networks` map of interfaces and on
/// `NetworkData::total_received` / `total_transmitted`: one entry per
/// interface, with its cumulative counters. Only the order in which the map
/// is walked is left open.
#[verifier::external_body]
pub(crate) fn interface_counters(networks: &sysinfo::Networks) -> (r: Vec<CumulativeCounters>)
    ensures
        counter_pairs(r@) == interfaces_of(*networks),
{
    networks.iter().map(
        |(_, data)|
            CumulativeCounters {
                received: data.total_received(),
                transmitted: data.total_transmitted(),
            },
    ).collect()
}

/// Relies on sysinfo's `Disks::list` and on `Disk::mount_point`,
/// `total_space` and `available_space`: one entry per disk, with its mount
/// point as text, in the order of the list.
#[verifier::external_body]
pub(crate) fn disk_readings(disks: &sysinfo::Disks) -> (r: Vec<DiskReading>)
    ensures
        disk_triples(r@) == disks_of(*disks),
{
    disks.list().iter().map(
        |d|
            DiskReading {
                mount_point: d.mount_point().to_string_lossy().into_owned(),
                total_space: d.total_space(),
                available_space: d.available_space(),
            },
    ).collect()
}

/// Relies on sysinfo's `System::processes` and `Process::disk_usage`: one
/// entry per process, with the bytes it read and wrote since the last
/// refresh. Only the order in which the map is walked is left open.
#[verifier::external_body]
pub(crate) fn process_io(sys: &sysinfo::System) -> (r: Vec<IntervalCounters>)
    ensures
        io_pairs(r@) == processes_of(*sys),
{
    sys.processes().values().map(
        |p|
            {
                let usage = p.disk_usage();
                IntervalCounters { read_bytes: usage.read_bytes, written_bytes: usage.written_bytes }
            },
    ).collect()
}

} // verus!

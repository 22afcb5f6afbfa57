//! Disk capacity: which disks count toward the totals, and their sums.
use vstd::prelude::*;
use crate::counters::cap;

verus! {

/// Capacity reading of one disk.
#[derive(Clone, Debug)]
pub struct DiskReading {
    /// Where the disk is mounted.
    pub mount_point: String,
    /// Size of the disk, in bytes.
    pub total_space: u64,
    /// Space still available on the disk, in bytes.
    pub available_space: u64,
}

/// Which disks count toward the capacity totals. The choice belongs to the
/// target platform and is made once, when the sampler is built.
#[derive(Clone, Copy, Debug, PartialEq, Eq, Structural)]
pub enum DiskPolicy {
    /// Only the disk mounted at the root of the filesystem, for platforms
    /// whose filesystem has a single root.
    RootOnly,
    /// Every disk, for platforms without a single root mount point.
    AllDisks,
}

/// The mount point of the filesystem's root.
pub open spec fn root_mount() -> Seq<char> {
    seq!['/']
}

/// The disks of `s` as `(mount point, size, available)` triples, in order.
pub open spec fn disk_triples(s: Seq<DiskReading>) -> Seq<(Seq<char>, u64, u64)> {
    s.map_values(|d: DiskReading| (d.mount_point@, d.total_space, d.available_space))
}

/// Whether `policy` counts the disk `d`. Mount points are compared as text:
/// only the exact text `/` is the root, so another spelling of the same path
/// (such as `//` or `/.`) does not count as root.
pub open spec fn counts(policy: DiskPolicy, d: DiskReading) -> bool {
    match policy {
        DiskPolicy::RootOnly => d.mount_point@ == root_mount(),
        DiskPolicy::AllDisks => true,
    }
}

/// The disks of `s` that `policy` counts, in their order.
pub open spec fn counted(policy: DiskPolicy, s: Seq<DiskReading>) -> Seq<DiskReading>
    decreases s.len(),
{
    if s.len() == 0 {
        Seq::empty()
    } else {
        let rest = counted(policy, s.drop_last());
        if counts(policy, s.last()) {
            rest.push(s.last())
        } else {
            rest
        }
    }
}

/// Space in use on `d`: its size less what is available, or zero where the
/// disk reports more available than its size.
pub open spec fn used_space(d: DiskReading) -> int {
    if d.available_space <= d.total_space {
        d.total_space - d.available_space
    } else {
        0
    }
}

/// Sum of the sizes of the disks of `s`.
pub open spec fn total_sum(s: Seq<DiskReading>) -> int
    decreases s.len(),
{
    if s.len() == 0 {
        0
    } else {
        total_sum(s.drop_last()) + s.last().total_space
    }
}

/// Sum of the space in use on the disks of `s`, disk by disk.
pub open spec fn used_sum(s: Seq<DiskReading>) -> int
    decreases s.len(),
{
    if s.len() == 0 {
        0
    } else {
        used_sum(s.drop_last()) + used_space(s.last())
    }
}

/// Sum of the available space on the disks of `s`.
pub open spec fn available_sum(s: Seq<DiskReading>) -> int
    decreases s.len(),
{
    if s.len() == 0 {
        0
    } else {
        available_sum(s.drop_last()) + s.last().available_space
    }
}

/// Capacity totals `(total, used, free)` of the disks of `s`, each saturated
/// at the largest `u64`.
pub open spec fn capacity_of(s: Seq<DiskReading>) -> (u64, u64, u64) {
    (cap(total_sum(s)) as u64, cap(used_sum(s)) as u64, cap(available_sum(s)) as u64)
}

/// Whether `mount_point` is the root of the filesystem, by its text: true
/// exactly for `/`, and not for other spellings of the same path.
pub fn is_root_mount(mount_point: &String) -> (r: bool)
    ensures
        r == (mount_point@ == root_mount()),
{
    let s = mount_point.as_str();
    if s.unicode_len() == 1 && s.get_char(0) == '/' {
        assert(mount_point@ == root_mount());
        true
    } else {
        false
    }
}

impl DiskPolicy {
    /// Whether this policy counts the disk `d`.
    pub fn includes(&self, d: &DiskReading) -> (r: bool)
        ensures
            r == counts(*self, *d),
    {
        match self {
            DiskPolicy::RootOnly => is_root_mount(&d.mount_point),
            DiskPolicy::AllDisks => true,
        }
    }
}

/// The disks of `disks` that `policy` counts, in their order.
pub fn filter_disks(disks: &[DiskReading], policy: DiskPolicy) -> (r: Vec<DiskReading>)
    ensures
        r@ == counted(policy, disks@),
{
    let mut chosen: Vec<DiskReading> = Vec::new();
    let mut i: usize = 0;
    while i < disks.len()
        invariant
            i <= disks@.len(),
            chosen@ == counted(policy, disks@.take(i as int)),
        decreases disks@.len() - i,
    {
        assert(disks@.take(i as int + 1).drop_last() == disks@.take(i as int));
        let d = &disks[i];
        if policy.includes(d) {
            chosen.push(
                DiskReading {
                    mount_point: d.mount_point.clone(),
                    total_space: d.total_space,
                    available_space: d.available_space,
                },
            );
        }
        i = i + 1;
    }
    assert(disks@.take(i as int) == disks@);
    chosen
}

/// Capacity totals `(total, used, free)` over every disk of `disks`. No disks
/// give `(0, 0, 0)`.
pub fn capacity_totals(disks: &[DiskReading]) -> (r: (u64, u64, u64))
    ensures
        r == capacity_of(disks@),
{
    let mut total: u64 = 0;
    let mut used: u64 = 0;
    let mut free: u64 = 0;
    let mut i: usize = 0;
    while i < disks.len()
        invariant
            i <= disks@.len(),
            total == cap(total_sum(disks@.take(i as int))),
            used == cap(used_sum(disks@.take(i as int))),
            free == cap(available_sum(disks@.take(i as int))),
        decreases disks@.len() - i,
    {
        assert(disks@.take(i as int + 1).drop_last() == disks@.take(i as int));
        let d = &disks[i];
        let in_use: u64 = if d.available_space <= d.total_space {
            d.total_space - d.available_space
        } else {
            0
        };
        total = total.saturating_add(d.total_space);
        used = used.saturating_add(in_use);
        free = free.saturating_add(d.available_space);
        i = i + 1;
    }
    assert(disks@.take(i as int) == disks@);
    (total, used, free)
}

/// Capacity totals `(total, used, free)` over the disks of `disks` that
/// `policy` counts.
pub fn calculate_disk_stats(disks: &[DiskReading], policy: DiskPolicy) -> (r: (u64, u64, u64))
    ensures
        r == capacity_of(counted(policy, disks@)),
{
    let chosen = filter_disks(disks, policy);
    capacity_totals(chosen.as_slice())
}

} // verus!

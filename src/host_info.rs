//! Memory and disk figures of the host, read through the `sysinfo` crate.
use vstd::prelude::*;

verus! {

#[verifier::external_type_specification]
#[verifier::external_body]
pub struct ExSystem(sysinfo::System);

#[verifier::external_type_specification]
#[verifier::external_body]
pub struct ExDisks(sysinfo::Disks);

#[verifier::external_type_specification]
#[verifier::external_body]
pub struct ExDisk(sysinfo::Disk);

/// Relies on `sysinfo::System::new`: a handle on the host's figures, none loaded yet.
pub assume_specification[ sysinfo::System::new ]() -> sysinfo::System;

/// Relies on `sysinfo::System::refresh_memory`: reloads the memory figures.
pub assume_specification[ sysinfo::System::refresh_memory ](system: &mut sysinfo::System);

/// Relies on `sysinfo::System::available_memory`: the memory available for use, in bytes.
pub assume_specification[ sysinfo::System::available_memory ](system: &sysinfo::System) -> u64;

/// Relies on `sysinfo::System::total_memory`: the memory size, in bytes.
pub assume_specification[ sysinfo::System::total_memory ](system: &sysinfo::System) -> u64;

/// Relies on `sysinfo::Disks::new_with_refreshed_list`: the host's disks, listed.
pub assume_specification[ sysinfo::Disks::new_with_refreshed_list ]() -> sysinfo::Disks;

/// Relies on `sysinfo::Disks::list`: the disks listed.
pub assume_specification[ sysinfo::Disks::list ](disks: &sysinfo::Disks) -> &[sysinfo::Disk];

/// Relies on `sysinfo::Disk::total_space`: a disk's size, in bytes.
pub assume_specification[ sysinfo::Disk::total_space ](disk: &sysinfo::Disk) -> u64;

/// Relies on `sysinfo::Disk::available_space`: a disk's free space, in bytes.
pub assume_specification[ sysinfo::Disk::available_space ](disk: &sysinfo::Disk) -> u64;

/// The space in use on a disk of `total` bytes with `available` bytes free
/// (none if the figures disagree).
pub open spec fn used_space(total: u64, available: u64) -> nat {
    if available <= total { (total - available) as nat } else { 0 }
}

/// The summed size of `disks`, each given as (size, free space).
pub open spec fn total_space_sum(disks: Seq<(u64, u64)>) -> nat
    decreases disks.len(),
{
    if disks.len() == 0 { 0 } else { total_space_sum(disks.drop_last()) + disks.last().0 as nat }
}

/// The summed space in use on `disks`, each given as (size, free space).
pub open spec fn used_space_sum(disks: Seq<(u64, u64)>) -> nat
    decreases disks.len(),
{
    if disks.len() == 0 {
        0
    } else {
        used_space_sum(disks.drop_last()) + used_space(disks.last().0, disks.last().1)
    }
}

/// `n`, or `u64::MAX` if `n` is larger.
pub open spec fn capped(n: nat) -> u64 {
    if n <= u64::MAX { n as u64 } else { u64::MAX }
}

fn add_capped(acc: u64, x: u64) -> (r: u64)
    ensures
        r == capped(acc as nat + x as nat),
{
    if acc > u64::MAX - x { u64::MAX } else { acc + x }
}

proof fn lemma_used_within_total(disks: Seq<(u64, u64)>)
    ensures
        used_space_sum(disks) <= total_space_sum(disks),
    decreases disks.len(),
{
    if disks.len() > 0 {
        lemma_used_within_total(disks.drop_last());
    }
}

/// The memory in use: `total` less `available` (none if the figures disagree).
pub fn memory_in_use(total: u64, available: u64) -> (r: u64)
    ensures
        r == used_space(total, available),
        r <= total,
{
    if available <= total { total - available } else { 0 }
}

/// The space used and the total size of `disks`, each given as (size, free
/// space), in bytes; a sum too large for a `u64` reads as `u64::MAX`.
pub fn disk_usage(disks: &[(u64, u64)]) -> (r: (u64, u64))
    ensures
        r == (capped(used_space_sum(disks@)), capped(total_space_sum(disks@))),
        r.0 <= r.1,
{
    proof {
        lemma_used_within_total(disks@);
    }
    let mut used: u64 = 0;
    let mut total: u64 = 0;
    let mut i: usize = 0;
    while i < disks.len()
        invariant
            i <= disks@.len(),
            used == capped(used_space_sum(disks@.take(i as int))),
            total == capped(total_space_sum(disks@.take(i as int))),
        decreases disks.len() - i,
    {
        let (size, free) = disks[i];
        assert(disks@.take(i + 1).drop_last() =~= disks@.take(i as int));
        total = add_capped(total, size);
        let in_use: u64 = if free <= size { size - free } else { 0 };
        used = add_capped(used, in_use);
        i = i + 1;
    }
    assert(disks@.take(i as int) =~= disks@);
    (used, total)
}

/// Reads the host's memory and disk figures.
#[derive(Debug, Clone, Copy)]
pub struct SysInfoAdapter;

impl SysInfoAdapter {
    pub fn new() -> (r: SysInfoAdapter) {
        SysInfoAdapter
    }

    /// The used and the total memory, in bytes, as the host reports them now:
    /// the memory not available for use counts as used.
    pub fn get_memory_usage(&self) -> (r: (u64, u64))
        ensures
            r.0 <= r.1,
    {
        let mut system = sysinfo::System::new();
        system.refresh_memory();
        let total = system.total_memory();
        let available = system.available_memory();
        (memory_in_use(total, available), total)
    }

    /// The used and the total space of the host's disks, in bytes, as
    /// [`disk_usage`] sums the sizes and free spaces the host reports now.
    pub fn get_disk_usage(&self) -> (r: (u64, u64))
        ensures
            r.0 <= r.1,
    {
        let disks = sysinfo::Disks::new_with_refreshed_list();
        let list = disks.list();
        let mut spaces: Vec<(u64, u64)> = Vec::new();
        let mut i: usize = 0;
        while i < list.len()
            decreases list.len() - i,
        {
            spaces.push((list[i].total_space(), list[i].available_space()));
            i = i + 1;
        }
        disk_usage(spaces.as_slice())
    }
}

} // verus!

//! Facts about a mounted disk, looked up by its mount point.
use vstd::prelude::*;

use crate::text::eq_str;

verus! {

/// What the system reports of one disk.
pub struct DiskInfo {
    /// The disk's name, as the bytes of the system's string.
    pub name: Vec<u8>,
    pub mount_point: String,
    pub total_space: u64,
    pub available_space: u64,
    pub kind: String,
    /// The file system's name, as the bytes of the system's string.
    pub file_system: Vec<u8>,
    pub is_removable: bool,
}

/// Among the first `n` disks, the position of the first mounted at `mount`.
pub open spec fn first_disk(disks: Seq<DiskInfo>, mount: Seq<char>, n: int) -> Option<int>
    decreases n,
{
    if n <= 0 {
        None
    } else {
        match first_disk(disks, mount, n - 1) {
            Some(j) => Some(j),
            None => if disks[n - 1].mount_point@ == mount {
                Some(n - 1)
            } else {
                None
            },
        }
    }
}

/// The first disk mounted at `mount`.
pub open spec fn disk_at(disks: Seq<DiskInfo>, mount: Seq<char>) -> Option<int> {
    first_disk(disks, mount, disks.len() as int)
}

proof fn lemma_first_disk_stays(disks: Seq<DiskInfo>, mount: Seq<char>, n: int, m: int)
    requires
        n <= m,
        first_disk(disks, mount, n) is Some,
    ensures
        first_disk(disks, mount, m) == first_disk(disks, mount, n),
    decreases m - n,
{
    if n < m {
        lemma_first_disk_stays(disks, mount, n, m - 1);
    }
}

/// The disk looked up at a mount point is the first disk mounted there:
/// it is mounted at that point and no earlier disk is; when none is found,
/// no disk is mounted there.
pub proof fn lemma_disk_at_is_first(disks: Seq<DiskInfo>, mount: Seq<char>, n: int)
    requires
        0 <= n <= disks.len(),
    ensures
        match first_disk(disks, mount, n) {
            Some(i) => 0 <= i < n && disks[i].mount_point@ == mount && forall|k: int|
                0 <= k < i ==> (#[trigger] disks[k]).mount_point@ != mount,
            None => forall|k: int| 0 <= k < n ==> (#[trigger] disks[k]).mount_point@ != mount,
        },
    decreases n,
{
    if n > 0 {
        lemma_disk_at_is_first(disks, mount, n - 1);
    }
}

fn identify_disk(disks: &Vec<DiskInfo>, value: &str) -> (r: Option<usize>)
    ensures
        match r {
            Some(i) => disk_at(disks@, value@) == Some(i as int) && i < disks@.len(),
            None => disk_at(disks@, value@) is None,
        },
{
    let mut i: usize = 0;
    while i < disks.len()
        invariant
            i <= disks@.len(),
            first_disk(disks@, value@, i as int) is None,
        decreases disks.len() - i,
    {
        if eq_str(disks[i].mount_point.as_str(), value) {
            proof {
                lemma_first_disk_stays(disks@, value@, i + 1, disks@.len() as int);
            }
            return Some(i);
        }
        i = i + 1;
    }
    None
}

/// The name of the disk mounted at `value`.
pub fn get_drive(disks: &Vec<DiskInfo>, value: &str) -> (r: Option<Vec<u8>>)
    ensures
        match disk_at(disks@, value@) {
            Some(i) => r matches Some(s) && s@ == disks@[i].name@,
            None => r is None,
        },
{
    match identify_disk(disks, value) {
        Some(i) => Some(disks[i].name.clone()),
        None => None,
    }
}

/// The size of the disk mounted at `value`.
pub fn get_total_space(disks: &Vec<DiskInfo>, value: &str) -> (r: Option<u64>)
    ensures
        r == match disk_at(disks@, value@) {
            Some(i) => Some(disks@[i].total_space),
            None => None,
        },
{
    match identify_disk(disks, value) {
        Some(i) => Some(disks[i].total_space),
        None => None,
    }
}

/// The free space of the disk mounted at `value`.
pub fn get_available_space(disks: &Vec<DiskInfo>, value: &str) -> (r: Option<u64>)
    ensures
        r == match disk_at(disks@, value@) {
            Some(i) => Some(disks@[i].available_space),
            None => None,
        },
{
    match identify_disk(disks, value) {
        Some(i) => Some(disks[i].available_space),
        None => None,
    }
}

/// The used space of the disk mounted at `value`: its size less its free
/// space. The disk's free space must not exceed its size.
pub fn get_used_space(disks: &Vec<DiskInfo>, value: &str) -> (r: Option<u64>)
    requires
        disk_at(disks@, value@) matches Some(i) ==> disks@[i].available_space <= disks@[i].total_space,
    ensures
        r == match disk_at(disks@, value@) {
            Some(i) => Some((disks@[i].total_space - disks@[i].available_space) as u64),
            None => None,
        },
{
    match identify_disk(disks, value) {
        Some(i) => Some(disks[i].total_space - disks[i].available_space),
        None => None,
    }
}

/// The kind (HDD, SSD, …) of the disk mounted at `value`.
pub fn get_kind(disks: &Vec<DiskInfo>, value: &str) -> (r: Option<String>)
    ensures
        match disk_at(disks@, value@) {
            Some(i) => r matches Some(s) && s@ == disks@[i].kind@,
            None => r is None,
        },
{
    match identify_disk(disks, value) {
        Some(i) => Some(disks[i].kind.clone()),
        None => None,
    }
}

/// The file system of the disk mounted at `value`.
pub fn get_file_system(disks: &Vec<DiskInfo>, value: &str) -> (r: Option<Vec<u8>>)
    ensures
        match disk_at(disks@, value@) {
            Some(i) => r matches Some(s) && s@ == disks@[i].file_system@,
            None => r is None,
        },
{
    match identify_disk(disks, value) {
        Some(i) => Some(disks[i].file_system.clone()),
        None => None,
    }
}

/// Whether the disk mounted at `value` is removable.
pub fn get_is_removable(disks: &Vec<DiskInfo>, value: &str) -> (r: Option<bool>)
    ensures
        r == match disk_at(disks@, value@) {
            Some(i) => Some(disks@[i].is_removable),
            None => None,
        },
{
    match identify_disk(disks, value) {
        Some(i) => Some(disks[i].is_removable),
        None => None,
    }
}

} // verus!

use vstd::prelude::*;
use vstd::string::StringExecFns;
use crate::error::{QueryError, not_found_chars};
use crate::numfmt::{gib_chars, append_gib};

verus! {

/// What the library reads of one mounted disk: the display name, the
/// mount point, the file-system name, and the two capacities in bytes.
pub struct DiskInfo {
    pub name: String,
    pub mount_point: String,
    pub file_system: String,
    pub total_space: u64,
    pub available_space: u64,
}

/// Relies on sysinfo::Disks::new_with_refreshed_list: enumerates the
/// host's mounted disks in the order the OS reports them. What comes back
/// depends on the machine, so nothing is promised of the contents.
#[verifier::external_body]
fn refreshed_disks() -> Vec<DiskInfo> {
    let disks = sysinfo::Disks::new_with_refreshed_list();
    let mut out = Vec::new();
    for d in disks.list() {
        out.push(DiskInfo {
            name: d.name().to_string_lossy().into_owned(),
            mount_point: d.mount_point().to_string_lossy().into_owned(),
            file_system: d.file_system().to_string_lossy().into_owned(),
            total_space: d.total_space(),
            available_space: d.available_space(),
        });
    }
    out
}

/// The detail panel text for one disk: its name, mount point and file
/// system, then the total and available capacity in gibibytes with two
/// decimal places.
pub open spec fn disk_detail_chars(d: DiskInfo) -> Seq<char> {
    "Disk name: "@ + d.name@ + "\nMount point: "@ + d.mount_point@ + "\nFile system: "@
        + d.file_system@ + "\nTotal space: "@ + gib_chars(d.total_space as nat)
        + " GiB\nAvailable space: "@ + gib_chars(d.available_space as nat) + " GiB"@
}

/// Formats the detail panel text for one disk.
pub fn disk_detail_string(d: &DiskInfo) -> (r: String)
    ensures
        r@ == disk_detail_chars(*d),
{
    let mut s = String::from_str("Disk name: ");
    s.append(d.name.as_str());
    s.append("\nMount point: ");
    s.append(d.mount_point.as_str());
    s.append("\nFile system: ");
    s.append(d.file_system.as_str());
    s.append("\nTotal space: ");
    append_gib(&mut s, d.total_space);
    s.append(" GiB\nAvailable space: ");
    append_gib(&mut s, d.available_space);
    s.append(" GiB");
    proof {
        assert(s@ =~= disk_detail_chars(*d));
    }
    s
}

/// Whether some disk in the list carries the given name.
pub open spec fn has_disk(disks: Seq<DiskInfo>, name: Seq<char>) -> bool {
    exists|i: int| 0 <= i < disks.len() && disks[i].name@ == name
}

/// Searches the list for the first disk with the given name and formats
/// its detail; when no disk matches, reports the name as not found.
pub fn disk_detail_in(disks: &Vec<DiskInfo>, name: &str) -> (r: Result<String, QueryError>)
    ensures
        has_disk(disks@, name@) ==> r is Ok && exists|i: int|
            0 <= i < disks@.len() && disks@[i].name@ == name@ && (forall|j: int|
                0 <= j < i ==> disks@[j].name@ != name@) && r->Ok_0@ == disk_detail_chars(
                disks@[i],
            ),
        !has_disk(disks@, name@) ==> r is Err && (r->Err_0 matches QueryError::NotFound(n)
            && n@ == name@),
{
    let n = name.to_owned();
    let mut k: usize = 0;
    while k < disks.len()
        invariant
            k <= disks@.len(),
            n@ == name@,
            forall|j: int| 0 <= j < k ==> disks@[j].name@ != name@,
        decreases disks@.len() - k,
    {
        if disks[k].name == n {
            return Ok(disk_detail_string(&disks[k]));
        }
        k += 1;
    }
    Err(QueryError::NotFound(n))
}

/// The display names of the given disks, in order.
pub fn disk_names(disks: &Vec<DiskInfo>) -> (names: Vec<String>)
    ensures
        names@.len() == disks@.len(),
        forall|i: int| 0 <= i < disks@.len() ==> names@[i]@ == disks@[i].name@,
{
    let mut names: Vec<String> = Vec::new();
    let mut k: usize = 0;
    while k < disks.len()
        invariant
            k <= disks@.len(),
            names@.len() == k,
            forall|i: int| 0 <= i < k ==> names@[i]@ == disks@[i].name@,
        decreases disks@.len() - k,
    {
        names.push(disks[k].name.clone());
        k += 1;
    }
    names
}

/// Enumerates the mounted disks and returns their display names in the
/// order the OS reports them. Enumeration itself cannot fail, so the
/// result is always `Ok`; which names come back depends on the host.
pub fn get_partions() -> (r: Result<Vec<String>, QueryError>)
    ensures
        r is Ok,
{
    let disks = refreshed_disks();
    Ok(disk_names(&disks))
}

/// Re-enumerates the disks and formats the detail of the first one whose
/// name matches. Whatever the enumeration returned, an `Ok` is the pinned
/// detail text of a matching disk, and an `Err` reports the queried name
/// as not found.
pub fn disk_check(disk_name: &str) -> (r: Result<String, QueryError>)
    ensures
        r is Ok ==> exists|d: DiskInfo| d.name@ == disk_name@ && r->Ok_0@ == disk_detail_chars(d),
        r is Err ==> (r->Err_0 matches QueryError::NotFound(n) && n@ == disk_name@),
{
    let disks = refreshed_disks();
    let r = disk_detail_in(&disks, disk_name);
    proof {
        if has_disk(disks@, disk_name@) {
            let i = choose|i: int|
                0 <= i < disks@.len() && disks@[i].name@ == disk_name@ && (forall|j: int|
                    0 <= j < i ==> disks@[j].name@ != disk_name@) && r->Ok_0@
                    == disk_detail_chars(disks@[i]);
            assert(disks@[i].name@ == disk_name@ && r->Ok_0@ == disk_detail_chars(disks@[i]));
        }
    }
    r
}

/// The right-panel text in partitions mode: the disk detail, or the not
/// found message behind a fixed prefix.
pub fn disk_panel_text(disk_name: &str) -> (r: String)
    ensures
        (exists|d: DiskInfo| d.name@ == disk_name@ && r@ == disk_detail_chars(d)) || r@
            == "Disk error: "@ + not_found_chars(disk_name@),
{
    match disk_check(disk_name) {
        Ok(text) => text,
        Err(e) => {
            let mut s = String::from_str("Disk error: ");
            s.append(e.message().as_str());
            s
        },
    }
}

} // verus!

//! The table of mounted volumes, and the lookup of one of them by its mount
//! point.

use sysinfo::{DiskExt, System, SystemExt};
use vstd::prelude::*;
use vstd::string::*;
use crate::error::{Failure, ErrorKind};

verus! {

/// One mounted volume.
#[derive(Debug, PartialEq, Eq)]
pub struct Volume {
    /// Where the volume is attached; `None` where that path is not text.
    pub mount_point: Option<String>,
    /// The capacity of the volume in bytes.
    pub total: u64,
    /// The bytes of the volume that are free to use.
    pub available: u64,
}

impl Volume {
    /// The volume as plain values: mount point, capacity, free bytes.
    pub open spec fn record(self) -> (Option<Seq<char>>, u64, u64) {
        (
            match self.mount_point {
                Some(path) => Some(path@),
                None => None,
            },
            self.total,
            self.available,
        )
    }

    /// Whether the volume is attached at exactly `path`.
    pub open spec fn mounted_at(self, path: Seq<char>) -> bool {
        self.mount_point matches Some(point) && point@ == path
    }

    /// Whether the free bytes are within the capacity.
    pub open spec fn consistent(self) -> bool {
        self.available <= self.total
    }
}

/// Whether `index` is the first volume of the table attached at `path`.
pub open spec fn first_mounted_at(table: Seq<Volume>, path: Seq<char>, index: int) -> bool {
    &&& 0 <= index < table.len()
    &&& table[index].mounted_at(path)
    &&& forall|j: int| 0 <= j < index ==> !(#[trigger] table[j]).mounted_at(path)
}

/// Whether no volume of the table is attached at `path`.
pub open spec fn unmounted(table: Seq<Volume>, path: Seq<char>) -> bool {
    forall|j: int| 0 <= j < table.len() ==> !(#[trigger] table[j]).mounted_at(path)
}

/// The message for a mount path that no volume is attached at.
pub open spec fn not_mounted_message(path: Seq<char>) -> Seq<char> {
    path + " not found among mounted volumes"@
}

/// Whether `r` is what a lookup of `path` in `table` gives: the numbers of the
/// first volume attached there, or `NotFound` where none is.
pub open spec fn looked_up(table: Seq<Volume>, path: Seq<char>, r: Result<(u64, u64), Failure>)
    -> bool {
    match r {
        Ok((total, available)) => exists|i: int|
            #![trigger table[i]]
            first_mounted_at(table, path, i) && total == table[i].total && available
                == table[i].available,
        Err(error) => unmounted(table, path) && error.kind == ErrorKind::NotFound
            && error.message@ == not_mounted_message(path),
    }
}

/// Capacity and free bytes of the volume attached at `path`.
///
/// The mount point must equal `path` character for character. Where several
/// volumes are attached there, the first of the table answers. Where none is,
/// the lookup fails with `NotFound`.
pub fn drive_size(table: &Vec<Volume>, path: &String) -> (r: Result<(u64, u64), Failure>)
    ensures
        looked_up(table@, path@, r),
        r matches Ok((total, available)) ==> (forall|i: int|
            0 <= i < table@.len() ==> (#[trigger] table@[i]).consistent()) ==> available <= total,
{
    let mut i: usize = 0;
    while i < table.len()
        invariant
            i <= table.len(),
            forall|j: int| 0 <= j < i ==> !(#[trigger] table@[j]).mounted_at(path@),
        decreases table.len() - i,
    {
        let volume = &table[i];
        let found = match &volume.mount_point {
            Some(point) => *point == *path,
            None => false,
        };
        if found {
            assert(first_mounted_at(table@, path@, i as int));
            return Ok((volume.total, volume.available));
        }
        i += 1;
    }
    Err(
        Failure {
            kind: ErrorKind::NotFound,
            message: path.clone().concat(" not found among mounted volumes"),
        },
    )
}

/// The volumes that a `sysinfo::System` holds since its list was last
/// refreshed, in the order of `disks()`: for each the mount point as text
/// where it is text, `total_space()` and `available_space()`.
pub uninterp spec fn disks_of(system: System) -> Seq<(Option<Seq<char>>, u64, u64)>;

/// Whether `table` holds the disks `disks`, one volume for each, in their
/// order.
pub open spec fn table_of(table: Seq<Volume>, disks: Seq<(Option<Seq<char>>, u64, u64)>) -> bool {
    &&& table.len() == disks.len()
    &&& forall|i: int| 0 <= i < table.len() ==> (#[trigger] table[i]).record() == disks[i]
}

/// Whether `r` is the answer to a query for `path` among `disks`: capacity
/// and free bytes of the first disk mounted at exactly `path`, or `NotFound`
/// where none is mounted there.
pub open spec fn answers(
    disks: Seq<(Option<Seq<char>>, u64, u64)>,
    path: Seq<char>,
    r: Result<(u64, u64), Failure>,
) -> bool {
    match r {
        Ok((total, available)) => exists|i: int|
            #![trigger disks[i]]
            0 <= i < disks.len() && disks[i] == (Some(path), total, available) && forall|j: int|
                0 <= j < i ==> (#[trigger] disks[j]).0 != Some(path),
        Err(error) => (forall|j: int| 0 <= j < disks.len() ==> (#[trigger] disks[j]).0 != Some(path))
            && error.kind == ErrorKind::NotFound && error.message@ == not_mounted_message(path),
    }
}

/// What a lookup in a table gives is the answer among the disks that the
/// table holds.
pub proof fn lemma_lookup_answers(
    table: Seq<Volume>,
    disks: Seq<(Option<Seq<char>>, u64, u64)>,
    path: Seq<char>,
    r: Result<(u64, u64), Failure>,
)
    requires
        table_of(table, disks),
        looked_up(table, path, r),
    ensures
        answers(disks, path, r),
{
    assert forall|j: int| 0 <= j < table.len() implies (table[j].mounted_at(path) <==> (
    #[trigger] disks[j]).0 == Some(path)) by {
        assert(table[j].record() == disks[j]);
    }
    match r {
        Ok((total, available)) => {
            let i = choose|i: int|
                #![trigger table[i]]
                first_mounted_at(table, path, i) && total == table[i].total && available
                    == table[i].available;
            assert(table[i].record() == disks[i]);
            assert(disks[i] == (Some(path), total, available));
        },
        Err(_) => {},
    }
}

/// `sysinfo::System`, which holds the list of disks it last read from the
/// operating system.
#[verifier::external_type_specification]
#[verifier::external_body]
pub struct ExSystem(System);

/// `System::new_all`: a system with everything loaded. What it holds depends
/// on the machine, so nothing is claimed of it.
#[verifier::external_body]
fn new_system() -> System {
    System::new_all()
}

/// `SystemExt::refresh_disks_list`: reads the list of mounted disks anew.
/// What it reads depends on the machine, so nothing is claimed of it.
#[verifier::external_body]
fn refresh_disks(system: &mut System) {
    system.refresh_disks_list();
}

/// The length of `SystemExt::disks`, the slice of disks that the system
/// holds.
#[verifier::external_body]
fn disk_count(system: &System) -> (n: usize)
    ensures
        n == disks_of(*system).len(),
{
    system.disks().len()
}

/// The disk at `index` of `SystemExt::disks`, by its three accessors
/// `mount_point`, `total_space` and `available_space`, each of which returns
/// what the disk stores. A mount point that is not valid Unicode becomes
/// `None`.
#[verifier::external_body]
fn disk_record(system: &System, index: usize) -> (volume: Volume)
    requires
        index < disks_of(*system).len(),
    ensures
        volume.record() == disks_of(*system)[index as int],
{
    let disk = &system.disks()[index];
    Volume {
        mount_point: disk.mount_point().to_str().map(String::from),
        total: disk.total_space(),
        available: disk.available_space(),
    }
}

/// Copies the disks that `system` holds into a table, in their order.
fn read_volumes(system: &System) -> (table: Vec<Volume>)
    ensures
        table_of(table@, disks_of(*system)),
{
    let count = disk_count(system);
    let mut table: Vec<Volume> = Vec::new();
    let mut i: usize = 0;
    while i < count
        invariant
            i <= count,
            count == disks_of(*system).len(),
            table@.len() == i,
            forall|j: int|
                0 <= j < i ==> (#[trigger] table@[j]).record() == disks_of(*system)[j],
        decreases count - i,
    {
        table.push(disk_record(system, i));
        i += 1;
    }
    table
}

/// The volumes mounted on this machine at the time of the call.
///
/// Which they are is read from the operating system. Whatever was read, the
/// table holds it: each disk that the system held after its list was
/// refreshed, in its place.
pub(crate) fn mounted_volumes() -> (table: Vec<Volume>)
    ensures
        exists|system: System| table_of(table@, #[trigger] disks_of(system)),
{
    let mut system = new_system();
    refresh_disks(&mut system);
    read_volumes(&system)
}

} // verus!

//! The two disk queries: the capacity of a mounted volume and the size of a
//! directory subtree.

use sysinfo::System;
use vstd::prelude::*;
use vstd::string::*;
use crate::error::{Failure, ErrorKind};
use crate::tree::{folder_size, size_fits, size_of, Entry, Policy};
use crate::volume::{answers, disks_of, drive_size, lemma_lookup_answers, mounted_volumes};
use crate::volume::{not_mounted_message, table_of};

verus! {

/// The message for a path at which nothing exists.
pub open spec fn missing_message(path: Seq<char>) -> Seq<char> {
    path + " does not exist"@
}

/// Capacity and free bytes, in this order, of the volume mounted at exactly
/// `path` on this machine.
///
/// Which volumes are mounted is read from the operating system at the time
/// of the call, so a success is promised for no path. Whatever was read, the
/// result is the answer for `path` among the disks that the system held: the
/// numbers of the first one mounted there, or `NotFound`, with the path in
/// its message, where none is.
pub fn get_drive_size(path: String) -> (r: Result<(u64, u64), Failure>)
    ensures
        exists|system: System| answers(#[trigger] disks_of(system), path@, r),
        r matches Err(error) ==> error.kind == ErrorKind::NotFound && error.message@
            == not_mounted_message(path@),
{
    let table = mounted_volumes();
    let r = drive_size(&table, &path);
    proof {
        let system = choose|system: System| table_of(table@, #[trigger] disks_of(system));
        lemma_lookup_answers(table@, disks_of(system), path@, r);
    }
    r
}

/// The size in bytes of what a traversal found at `path`.
///
/// `found` is `None` where nothing exists at `path`: the query then fails
/// with `NotFound`. Otherwise it is the entry there with all that lies below
/// it, and the result is the sum of the lengths of its files, or the first
/// failure of the traversal that `policy` does not pass over.
pub fn get_folder_size(path: String, found: Option<Entry>, policy: Policy) -> (r: Result<
    u64,
    Failure,
>)
    requires
        found matches Some(root) ==> size_fits(root, policy),
    ensures
        match found {
            None => r matches Err(error) && error.kind == ErrorKind::NotFound && error.message@
                == missing_message(path@),
            Some(root) => match size_of(root, policy) {
                Ok(n) => r matches Ok(v) && v == n,
                Err(error) => r == Err::<u64, Failure>(error),
            },
        },
{
    match found {
        None => Err(Failure { kind: ErrorKind::NotFound, message: path.concat(" does not exist") }),
        Some(root) => folder_size(&root, policy),
    }
}

} // verus!

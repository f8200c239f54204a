//! A directory subtree as a value, and its aggregate size.
//!
//! A traversal of the file system yields an [`Entry`]: what was found at a
//! path, with everything below it. The size of a subtree is the sum of the
//! lengths of its files. An entry that could not be read stops the
//! aggregation with its error, unless the [`Policy`] says to pass over it.

use vstd::prelude::*;
use crate::error::{Failure, ErrorKind};

verus! {

/// One file-system entry as a traversal sees it.
#[derive(Debug, PartialEq, Eq)]
pub enum Entry {
    /// Anything that is not a directory (a symbolic link too), with its byte
    /// length.
    File(u64),
    /// A directory with its entries in listing order.
    Dir(Vec<Entry>),
    /// An entry whose listing or metadata could not be read, with the
    /// failure.
    Unreadable(Failure),
}

/// How the aggregation treats an entry that could not be read.
#[derive(Clone, Copy, Debug, PartialEq, Eq, Structural)]
pub enum Policy {
    /// The first unreadable entry fails the whole aggregation.
    FailFast,
    /// An entry below the root that was refused for lack of permission counts
    /// as empty; any other failure still fails the whole aggregation.
    BestEffort,
}

impl Policy {
    /// Whether an unreadable entry below the root is passed over.
    pub open spec fn skips(self, error: Failure) -> bool {
        self == Policy::BestEffort && error.kind == ErrorKind::PermissionDenied
    }

    /// Decides whether an unreadable entry below the root is passed over.
    pub fn passes_over(self, error: &Failure) -> (skip: bool)
        ensures
            skip == self.skips(*error),
    {
        self == Policy::BestEffort && error.kind == ErrorKind::PermissionDenied
    }
}

/// The sum of a sequence of byte lengths.
pub open spec fn sum_of(lengths: Seq<u64>) -> nat
    decreases lengths.len(),
{
    if lengths.len() == 0 {
        0
    } else {
        sum_of(lengths.drop_last()) + lengths.last() as nat
    }
}

/// The lengths of all files below a run of sibling entries, in listing order.
pub open spec fn lengths_of(entries: Seq<Entry>) -> Seq<u64>
    decreases entries,
{
    if entries.len() == 0 {
        Seq::empty()
    } else {
        lengths_of(entries.drop_last()) + entries.last().file_lengths()
    }
}

/// The failure that stops the aggregation of a run of sibling entries: the
/// first one in listing order, depth first, that the policy does not pass
/// over.
pub open spec fn first_blocker(entries: Seq<Entry>, policy: Policy) -> Option<Failure>
    decreases entries,
{
    if entries.len() == 0 {
        None
    } else {
        match first_blocker(entries.drop_last(), policy) {
            Some(error) => Some(error),
            None => entries.last().blocker(policy),
        }
    }
}

impl Entry {
    /// The lengths of all files in the subtree, in listing order.
    pub open spec fn file_lengths(self) -> Seq<u64>
        decreases self,
    {
        match self {
            Entry::File(len) => seq![len],
            Entry::Dir(children) => lengths_of(children@),
            Entry::Unreadable(_) => Seq::empty(),
        }
    }

    /// The sum of the lengths of all files in the subtree.
    pub open spec fn total(self) -> nat {
        sum_of(self.file_lengths())
    }

    /// The failure that stops the aggregation of this entry taken as one
    /// below the root, if there is one.
    pub open spec fn blocker(self, policy: Policy) -> Option<Failure>
        decreases self,
    {
        match self {
            Entry::File(_) => None,
            Entry::Dir(children) => first_blocker(children@, policy),
            Entry::Unreadable(error) => if policy.skips(error) {
                None
            } else {
                Some(error)
            },
        }
    }
}

/// The size of the subtree at `root`: the sum of its file lengths, or the
/// failure that stops the aggregation. A root that could not be read fails
/// under either policy.
pub open spec fn size_of(root: Entry, policy: Policy) -> Result<nat, Failure> {
    match root {
        Entry::Unreadable(error) => Err(error),
        _ => match root.blocker(policy) {
            Some(error) => Err(error),
            None => Ok(root.total()),
        },
    }
}

/// Whether the size of the subtree at `root` can be reported in 64 bits.
pub open spec fn size_fits(root: Entry, policy: Policy) -> bool {
    size_of(root, policy) matches Ok(n) ==> n <= u64::MAX
}

/// The sum of a single length is that length.
pub proof fn lemma_sum_of_one(len: u64)
    ensures
        sum_of(seq![len]) == len,
{
    assert(seq![len].drop_last() =~= Seq::<u64>::empty());
    assert(sum_of(Seq::<u64>::empty()) == 0);
}

/// Summing distributes over concatenation.
pub proof fn lemma_sum_of_concat(a: Seq<u64>, b: Seq<u64>)
    ensures
        sum_of(a + b) == sum_of(a) + sum_of(b),
    decreases b.len(),
{
    if b.len() == 0 {
        assert(a + b =~= a);
    } else {
        lemma_sum_of_concat(a, b.drop_last());
        assert((a + b).drop_last() =~= a + b.drop_last());
        assert((a + b).last() == b.last());
    }
}

/// Extending a run of siblings by the next one adds that entry's total.
proof fn lemma_total_step(entries: Seq<Entry>, i: int)
    requires
        0 <= i < entries.len(),
    ensures
        sum_of(lengths_of(entries.take(i + 1))) == sum_of(lengths_of(entries.take(i)))
            + entries[i].total(),
{
    let next = entries.take(i + 1);
    assert(next.drop_last() =~= entries.take(i));
    assert(next.last() == entries[i]);
    lemma_sum_of_concat(lengths_of(entries.take(i)), entries[i].file_lengths());
}

/// The blocker of a run of siblings is the blocker of its first `i` entries
/// where they have one, and else that of the rest, taken in order.
proof fn lemma_blocker_step(entries: Seq<Entry>, policy: Policy, i: int)
    requires
        0 <= i < entries.len(),
    ensures
        first_blocker(entries.take(i + 1), policy) == match first_blocker(
            entries.take(i),
            policy,
        ) {
            Some(error) => Some(error),
            None => entries[i].blocker(policy),
        },
{
    let next = entries.take(i + 1);
    assert(next.drop_last() =~= entries.take(i));
    assert(next.last() == entries[i]);
}

/// A blocker found among the first `i` siblings is the blocker of them all.
proof fn lemma_blocker_prefix(entries: Seq<Entry>, policy: Policy, i: int)
    requires
        0 <= i <= entries.len(),
        first_blocker(entries.take(i), policy) is Some,
    ensures
        first_blocker(entries, policy) == first_blocker(entries.take(i), policy),
    decreases entries.len() - i,
{
    if i == entries.len() {
        assert(entries.take(i) =~= entries);
    } else {
        lemma_blocker_step(entries, policy, i);
        lemma_blocker_prefix(entries, policy, i + 1);
    }
}

/// Walks one entry below the root: its blocker, or else its total, which is
/// `None` where it exceeds 64 bits.
fn measure(entry: &Entry, policy: Policy) -> (r: Result<Option<u64>, Failure>)
    ensures
        match r {
            Err(error) => entry.blocker(policy) == Some(error),
            Ok(Some(v)) => entry.blocker(policy) is None && entry.total() == v,
            Ok(None) => entry.blocker(policy) is None && entry.total() > u64::MAX,
        },
    decreases entry,
{
    match entry {
        Entry::File(len) => {
            proof {
                lemma_sum_of_one(*len);
            }
            Ok(Some(*len))
        },
        Entry::Unreadable(error) => {
            if policy.passes_over(error) {
                Ok(Some(0))
            } else {
                Err(Failure { kind: error.kind, message: error.message.clone() })
            }
        },
        Entry::Dir(children) => {
            let mut sum: Option<u64> = Some(0);
            let mut i: usize = 0;
            while i < children.len()
                invariant
                    i <= children.len(),
                    *entry == Entry::Dir(*children),
                    first_blocker(children@.take(i as int), policy) is None,
                    match sum {
                        Some(v) => sum_of(lengths_of(children@.take(i as int))) == v,
                        None => sum_of(lengths_of(children@.take(i as int))) > u64::MAX,
                    },
                decreases children.len() - i,
            {
                proof {
                    lemma_total_step(children@, i as int);
                    lemma_blocker_step(children@, policy, i as int);
                }
                match measure(&children[i], policy) {
                    Err(error) => {
                        proof {
                            lemma_blocker_prefix(children@, policy, i + 1);
                        }
                        return Err(error);
                    },
                    Ok(part) => {
                        sum = match (sum, part) {
                            (Some(a), Some(b)) => a.checked_add(b),
                            _ => None,
                        };
                    },
                }
                i += 1;
            }
            assert(children@.take(i as int) =~= children@);
            Ok(sum)
        },
    }
}

/// The size of the subtree at `root`, where it can be reported in 64 bits.
///
/// Returns `None` exactly where the aggregation is not stopped by a failure
/// and the sum of the file lengths exceeds `u64::MAX`. Otherwise returns the
/// sum, or the failure that stops the aggregation.
pub fn checked_folder_size(root: &Entry, policy: Policy) -> (r: Option<Result<u64, Failure>>)
    ensures
        r is None <==> !size_fits(*root, policy),
        r matches Some(Ok(v)) ==> size_of(*root, policy) == Ok::<nat, Failure>(v as nat),
        r matches Some(Err(error)) ==> size_of(*root, policy) == Err::<nat, Failure>(error),
{
    match root {
        Entry::Unreadable(error) => Some(
            Err(Failure { kind: error.kind, message: error.message.clone() }),
        ),
        _ => match measure(root, policy) {
            Err(error) => Some(Err(error)),
            Ok(Some(v)) => Some(Ok(v)),
            Ok(None) => None,
        },
    }
}

/// The size of the subtree at `root`: the sum of the lengths of all files in
/// it, whatever the order of the listings, or the first failure that the
/// policy does not pass over.
pub fn folder_size(root: &Entry, policy: Policy) -> (r: Result<u64, Failure>)
    requires
        size_fits(*root, policy),
    ensures
        r matches Ok(v) ==> size_of(*root, policy) == Ok::<nat, Failure>(v as nat),
        r matches Err(error) ==> size_of(*root, policy) == Err::<nat, Failure>(error),
{
    match checked_folder_size(root, policy) {
        Some(r) => r,
        None => unreached(),
    }
}

} // verus!

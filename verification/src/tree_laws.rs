//! What holds of the size of every subtree: it does not depend on the order
//! in which directories list their entries, and the two policies differ only
//! on entries refused for lack of permission.

use vstd::prelude::*;
use crate::error::{Failure, ErrorKind};
use crate::tree::{first_blocker, lengths_of, size_of, sum_of, Entry, Policy};
use crate::tree::{lemma_sum_of_concat, lemma_sum_of_one};

verus! {

/// Whether `b` holds what `a` holds, with the entries of any directory, at
/// any depth, possibly listed in another order.
pub open spec fn reordered(a: Entry, b: Entry) -> bool
    decreases a,
{
    match a {
        Entry::File(len) => b == Entry::File(len),
        Entry::Unreadable(error) => b == Entry::Unreadable(error),
        Entry::Dir(children) => b matches Entry::Dir(others) && siblings_reordered(
            children@,
            others@,
        ),
    }
}

/// Whether `ys` lists the entries of `xs` in some order, each of them itself
/// possibly reordered: the last of `xs` stands somewhere in `ys`, and the
/// rest of `ys` lists the rest of `xs`.
pub open spec fn siblings_reordered(xs: Seq<Entry>, ys: Seq<Entry>) -> bool
    decreases xs,
{
    if xs.len() == 0 {
        ys.len() == 0
    } else {
        exists|j: int|
            0 <= j < ys.len() && reordered(xs.last(), #[trigger] ys[j]) && siblings_reordered(
                xs.drop_last(),
                ys.remove(j),
            )
    }
}

/// Whether no entry of the subtree is unreadable.
pub open spec fn all_readable(entry: Entry) -> bool
    decreases entry,
{
    match entry {
        Entry::File(_) => true,
        Entry::Unreadable(_) => false,
        Entry::Dir(children) => forall|i: int|
            0 <= i < children@.len() ==> all_readable(#[trigger] children@[i]),
    }
}

/// Whether every unreadable entry of the subtree was refused for lack of
/// permission.
pub open spec fn only_denied(entry: Entry) -> bool
    decreases entry,
{
    match entry {
        Entry::File(_) => true,
        Entry::Unreadable(error) => error.kind == ErrorKind::PermissionDenied,
        Entry::Dir(children) => forall|i: int|
            0 <= i < children@.len() ==> only_denied(#[trigger] children@[i]),
    }
}

/// Taking one entry out of a run of siblings takes its total out of theirs,
/// and leaves a blocker exactly where the run had one outside that entry.
proof fn lemma_remove_sibling(ys: Seq<Entry>, j: int, policy: Policy)
    requires
        0 <= j < ys.len(),
    ensures
        sum_of(lengths_of(ys)) == sum_of(lengths_of(ys.remove(j))) + ys[j].total(),
        first_blocker(ys, policy) is None <==> first_blocker(ys.remove(j), policy) is None
            && ys[j].blocker(policy) is None,
    decreases ys.len(),
{
    if j == ys.len() - 1 {
        assert(ys.remove(j) =~= ys.drop_last());
        lemma_sum_of_concat(lengths_of(ys.drop_last()), ys.last().file_lengths());
    } else {
        let rest = ys.remove(j);
        lemma_remove_sibling(ys.drop_last(), j, policy);
        assert(rest.drop_last() =~= ys.drop_last().remove(j));
        assert(rest.last() == ys.last());
        assert(ys.drop_last()[j] == ys[j]);
        lemma_sum_of_concat(lengths_of(ys.drop_last()), ys.last().file_lengths());
        lemma_sum_of_concat(lengths_of(rest.drop_last()), rest.last().file_lengths());
    }
}

/// A reordered entry has the same total, and a blocker exactly where the
/// other has one.
proof fn lemma_reordered_entry(a: Entry, b: Entry, policy: Policy)
    requires
        reordered(a, b),
    ensures
        a.total() == b.total(),
        a.blocker(policy) is None <==> b.blocker(policy) is None,
    decreases a,
{
    match a {
        Entry::Dir(children) => {
            let others = b->Dir_0;
            lemma_reordered_siblings(children@, others@, policy);
        },
        _ => {},
    }
}

/// A reordered run of siblings has the same total, and a blocker exactly
/// where the other has one.
proof fn lemma_reordered_siblings(xs: Seq<Entry>, ys: Seq<Entry>, policy: Policy)
    requires
        siblings_reordered(xs, ys),
    ensures
        sum_of(lengths_of(xs)) == sum_of(lengths_of(ys)),
        first_blocker(xs, policy) is None <==> first_blocker(ys, policy) is None,
    decreases xs,
{
    if xs.len() > 0 {
        let j = choose|j: int|
            0 <= j < ys.len() && reordered(xs.last(), #[trigger] ys[j]) && siblings_reordered(
                xs.drop_last(),
                ys.remove(j),
            );
        lemma_reordered_entry(xs.last(), ys[j], policy);
        lemma_reordered_siblings(xs.drop_last(), ys.remove(j), policy);
        lemma_remove_sibling(ys, j, policy);
        lemma_sum_of_concat(lengths_of(xs.drop_last()), xs.last().file_lengths());
    }
}

/// The size of a subtree does not depend on the order in which its
/// directories list their entries: where one listing gives a size, every
/// reordering of it gives the same size, and where one fails, so does every
/// other (the failure reported is the first in listing order, so it may be
/// another one).
pub proof fn lemma_listing_order_is_irrelevant(a: Entry, b: Entry, policy: Policy)
    requires
        reordered(a, b),
    ensures
        size_of(a, policy) is Ok <==> size_of(b, policy) is Ok,
        size_of(a, policy) is Ok ==> size_of(b, policy) == size_of(a, policy),
{
    lemma_reordered_entry(a, b, policy);
}

/// Every entry is a reordering of itself.
pub proof fn lemma_reordered_reflexive(a: Entry)
    ensures
        reordered(a, a),
    decreases a,
{
    match a {
        Entry::Dir(children) => {
            lemma_siblings_reordered_reflexive(children@);
        },
        _ => {},
    }
}

/// Every run of siblings is a reordering of itself.
pub proof fn lemma_siblings_reordered_reflexive(xs: Seq<Entry>)
    ensures
        siblings_reordered(xs, xs),
    decreases xs,
{
    if xs.len() > 0 {
        let j = xs.len() - 1;
        lemma_reordered_reflexive(xs.last());
        lemma_siblings_reordered_reflexive(xs.drop_last());
        assert(xs.remove(j) =~= xs.drop_last());
        assert(xs[j] == xs.last());
    }
}

/// Every permutation of a listing is a reordering of it.
pub proof fn lemma_permutation_is_reordering(xs: Seq<Entry>, ys: Seq<Entry>)
    requires
        xs.to_multiset() == ys.to_multiset(),
    ensures
        siblings_reordered(xs, ys),
    decreases xs,
{
    xs.to_multiset_ensures();
    ys.to_multiset_ensures();
    if xs.len() > 0 {
        let last = xs.len() - 1;
        assert(xs[last] == xs.last());
        assert(xs.contains(xs.last()));
        assert(xs.to_multiset().count(xs.last()) > 0);
        assert(ys.to_multiset().count(xs.last()) > 0);
        assert(ys.contains(xs.last()));
        let j = choose|j: int| 0 <= j < ys.len() && ys[j] == xs.last();
        assert(xs.remove(last) =~= xs.drop_last());
        lemma_permutation_is_reordering(xs.drop_last(), ys.remove(j));
        lemma_reordered_reflexive(xs.last());
    }
}

/// The size of a single file is its length, under either policy.
pub proof fn lemma_size_of_file(len: u64, policy: Policy)
    ensures
        size_of(Entry::File(len), policy) == Ok::<nat, Failure>(len as nat),
{
    lemma_sum_of_one(len);
}

/// The size of a directory without entries is zero, under either policy.
pub proof fn lemma_size_of_empty_directory(root: Entry, policy: Policy)
    requires
        root matches Entry::Dir(children) && children@.len() == 0,
    ensures
        size_of(root, policy) == Ok::<nat, Failure>(0),
{
}

/// A run of siblings has no blocker under the strict policy exactly where
/// all of them are readable throughout; under the lenient policy, wherever
/// all their unreadable entries were refused for lack of permission.
proof fn lemma_blockers_of_siblings(xs: Seq<Entry>)
    requires
        forall|i: int| 0 <= i < xs.len() ==> only_denied(#[trigger] xs[i]),
    ensures
        first_blocker(xs, Policy::BestEffort) is None,
        first_blocker(xs, Policy::FailFast) is None <==> forall|i: int|
            0 <= i < xs.len() ==> all_readable(#[trigger] xs[i]),
        first_blocker(xs, Policy::FailFast) matches Some(error) ==> error.kind
            == ErrorKind::PermissionDenied,
    decreases xs,
{
    if xs.len() > 0 {
        let front = xs.drop_last();
        assert forall|i: int| 0 <= i < front.len() implies only_denied(#[trigger] front[i]) by {
            assert(front[i] == xs[i]);
        }
        lemma_blockers_of_siblings(front);
        assert(only_denied(xs[xs.len() - 1]));
        lemma_blockers_of_entry(xs.last());
        if first_blocker(xs, Policy::FailFast) is None {
            assert forall|i: int| 0 <= i < xs.len() implies all_readable(#[trigger] xs[i]) by {
                if i < front.len() {
                    assert(front[i] == xs[i]);
                }
            }
        }
        if forall|i: int| 0 <= i < xs.len() ==> all_readable(#[trigger] xs[i]) {
            assert forall|i: int| 0 <= i < front.len() implies all_readable(
                #[trigger] front[i],
            ) by {
                assert(front[i] == xs[i]);
            }
            assert(all_readable(xs[xs.len() - 1]));
        }
    }
}

/// The same, of one entry below the root.
proof fn lemma_blockers_of_entry(entry: Entry)
    requires
        only_denied(entry),
    ensures
        entry.blocker(Policy::BestEffort) is None,
        entry.blocker(Policy::FailFast) is None <==> all_readable(entry),
        entry.blocker(Policy::FailFast) matches Some(error) ==> error.kind
            == ErrorKind::PermissionDenied,
    decreases entry,
{
    match entry {
        Entry::Dir(children) => {
            lemma_blockers_of_siblings(children@);
        },
        _ => {},
    }
}

/// Where the only unreadable entries of a subtree were refused for lack of
/// permission, and the root itself was read: the lenient policy gives the sum
/// of the lengths of the files that were read; the strict policy gives the
/// same sum where nothing was refused, and fails with a refusal where
/// anything was.
pub proof fn lemma_policies_differ_on_refusals(root: Entry)
    requires
        only_denied(root),
        !(root is Unreadable),
    ensures
        size_of(root, Policy::BestEffort) == Ok::<nat, Failure>(root.total()),
        all_readable(root) ==> size_of(root, Policy::FailFast) == Ok::<nat, Failure>(root.total()),
        !all_readable(root) ==> (size_of(root, Policy::FailFast) matches Err(error)
            && error.kind == ErrorKind::PermissionDenied),
{
    lemma_blockers_of_entry(root);
}

} // verus!

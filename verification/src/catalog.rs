use vstd::prelude::*;

use crate::error::Error;

verus! {

/// One compare-and-swap step on a table's metadata pointer: the swap takes
/// effect exactly when the pointer still holds the expected path.
pub open spec fn spec_cas(
    current: Seq<char>,
    expected: Seq<char>,
    new_path: Seq<char>,
) -> (Seq<char>, bool) {
    if current == expected {
        (new_path, true)
    } else {
        (current, false)
    }
}

/// The pointer a catalog keeps for one table: the path of its current
/// metadata document. The atomic update of this pointer is the catalog's
/// sole concurrency primitive.
pub struct CatalogPointer {
    path: String,
}

impl CatalogPointer {
    /// The path the pointer currently holds.
    pub closed spec fn spec_path(&self) -> Seq<char> {
        self.path@
    }

    /// A pointer at the given path.
    pub fn new(path: String) -> (r: Self)
        ensures
            r.spec_path() == path@,
    {
        CatalogPointer { path }
    }

    /// The path the pointer currently holds.
    pub fn path(&self) -> (r: &String)
        ensures
            r@ == self.spec_path(),
    {
        &self.path
    }

    /// Atomically replaces the pointer with the new path, provided it still
    /// holds the expected one; a stale expectation loses with a commit
    /// conflict and leaves the pointer unchanged.
    pub fn update_table(&mut self, expected: &String, new_path: &String) -> (r: Result<(), Error>)
        ensures
            (final(self).spec_path(), r is Ok) == spec_cas(
                old(self).spec_path(),
                expected@,
                new_path@,
            ),
            r matches Err(e) ==> e == Error::CommitConflict,
    {
        if self.path.eq(expected) {
            self.path = new_path.clone();
            Ok(())
        } else {
            Err(Error::CommitConflict)
        }
    }
}

/// Two writers race from the same base: each read the table at the same
/// metadata path and tries to swap in its own new document. Whatever order
/// the catalog serializes them in, the first swap succeeds and the second
/// loses with a conflict: exactly one writer wins the contention round.
/// The one assumption is that a winning writer really moved the pointer,
/// that is, its new path differs from the base path.
pub proof fn lemma_cas_single_winner(base: Seq<char>, first: Seq<char>, second: Seq<char>)
    requires
        first != base,
    ensures
        ({
            let (after_first, first_won) = spec_cas(base, base, first);
            let (after_second, second_won) = spec_cas(after_first, base, second);
            first_won && !second_won && after_second == first
        }),
{
}


/// The publish step of a filesystem catalog: the versioned metadata path is
/// created by a copy that fails if the destination already exists. The
/// store is modelled by the set of paths it holds.
pub open spec fn spec_publish(existing: Set<Seq<char>>, destination: Seq<char>) -> (
    Set<Seq<char>>,
    bool,
) {
    if existing.contains(destination) {
        (existing, false)
    } else {
        (existing.insert(destination), true)
    }
}

/// Two writers race to publish the same versioned path of a filesystem
/// catalog: whatever order the store serializes the two copies in, the
/// first creates the path and the second finds it taken. Exactly one
/// writer wins the contention round.
pub proof fn lemma_publish_single_winner(existing: Set<Seq<char>>, destination: Seq<char>)
    requires
        !existing.contains(destination),
    ensures
        ({
            let (after_first, first_won) = spec_publish(existing, destination);
            let (after_second, second_won) = spec_publish(after_first, destination);
            first_won && !second_won && after_second == after_first
        }),
{
}

} // verus!

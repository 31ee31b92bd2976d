use vstd::prelude::*;

use crate::error::Error;
use crate::manifest_list::ManifestFile;
use crate::snapshot::{spec_snapshot_by_id, TableMetadata};

verus! {

/// A loaded table: its metadata document, where that document lives, and
/// the manifest-list entries of its current snapshot.
#[derive(Debug)]
pub struct Table {
    metadata: TableMetadata,
    metadata_location: String,
    manifests: Vec<ManifestFile>,
}

impl TableMetadata {
    /// Checks the invariants of a metadata document, as a loader must
    /// before trusting it: true exactly when the document is well formed.
    pub fn validate(&self) -> (r: bool)
        ensures
            r == self.well_formed(),
    {
        if self.last_updated_ms < 0 {
            return false;
        }
        let n = self.snapshots.len();
        let mut i: usize = 0;
        while i < n
            invariant
                n == self.snapshots@.len(),
                0 <= i <= n,
                forall|a: int, b: int|
                    0 <= a < b < i ==> (#[trigger] self.snapshots@[a]).snapshot_id
                        != (#[trigger] self.snapshots@[b]).snapshot_id,
            decreases n - i,
        {
            let mut j: usize = 0;
            while j < i
                invariant
                    0 <= j <= i < n == self.snapshots@.len(),
                    forall|a: int|
                        0 <= a < j ==> (#[trigger] self.snapshots@[a]).snapshot_id
                            != self.snapshots@[i as int].snapshot_id,
                decreases i - j,
            {
                if self.snapshots[j].snapshot_id == self.snapshots[i].snapshot_id {
                    return false;
                }
                j += 1;
            }
            i += 1;
        }
        match &self.current_snapshot_id {
            Some(id) => {
                if self.snapshot(*id).is_none() {
                    return false;
                }
            },
            None => {},
        }
        let mut i: usize = 0;
        while i < n
            invariant
                n == self.snapshots@.len(),
                0 <= i <= n,
                forall|a: int|
                    0 <= a < i ==> (#[trigger] self.snapshots@[a]).sequence_number
                        <= self.last_sequence_number,
            decreases n - i,
        {
            if self.snapshots[i].sequence_number > self.last_sequence_number {
                return false;
            }
            i += 1;
        }
        let mut i: usize = 0;
        while i < n
            invariant
                n == self.snapshots@.len(),
                0 <= i <= n,
                forall|a: int|
                    0 <= a < i ==> match (#[trigger] self.snapshots@[a]).parent_snapshot_id {
                        Some(p) => match spec_snapshot_by_id(self.snapshots@, p) {
                            Some(parent) => parent.sequence_number
                                < self.snapshots@[a].sequence_number,
                            None => false,
                        },
                        None => true,
                    },
            decreases n - i,
        {
            match &self.snapshots[i].parent_snapshot_id {
                Some(p) => {
                    match self.snapshot(*p) {
                        Some(parent) => {
                            if parent.sequence_number >= self.snapshots[i].sequence_number {
                                return false;
                            }
                        },
                        None => {
                            return false;
                        },
                    }
                },
                None => {},
            }
            i += 1;
        }
        true
    }
}

impl Table {
    /// The metadata document of the table.
    pub closed spec fn spec_metadata(&self) -> TableMetadata {
        self.metadata
    }

    /// The manifest-list entries of the table.
    pub closed spec fn spec_manifests(&self) -> Seq<ManifestFile> {
        self.manifests@
    }

    /// Where the metadata document was loaded from.
    pub closed spec fn spec_metadata_location(&self) -> Seq<char> {
        self.metadata_location@
    }

    /// The metadata document of every table value is well formed.
    #[verifier::type_invariant]
    pub closed spec fn wf(&self) -> bool {
        self.metadata.well_formed()
    }

    /// Binds a loaded metadata document and manifest list into a table.
    /// Fails when the document violates its invariants.
    pub fn try_new(
        metadata: TableMetadata,
        metadata_location: String,
        manifests: Vec<ManifestFile>,
    ) -> (r: Result<Self, Error>)
        ensures
            r matches Ok(t) ==> t.spec_metadata() == metadata
                && t.spec_metadata_location() == metadata_location@ && t.spec_manifests()
                == manifests@,
            r is Ok <==> metadata.well_formed(),
            r matches Err(e) ==> e == Error::InvalidMetadata,
    {
        if metadata.validate() {
            Ok(Table { metadata, metadata_location, manifests })
        } else {
            Err(Error::InvalidMetadata)
        }
    }

    /// The metadata document, which is well formed.
    pub fn metadata(&self) -> (r: &TableMetadata)
        ensures
            *r == self.spec_metadata(),
            r.well_formed(),
    {
        proof {
            use_type_invariant(&*self);
        }
        &self.metadata
    }

    /// Where the metadata document was loaded from.
    pub fn metadata_location(&self) -> (r: &String)
        ensures
            r@ == self.spec_metadata_location(),
    {
        &self.metadata_location
    }

    /// The manifest-list entries of the table, in manifest-list order.
    pub fn manifests(&self) -> (r: &Vec<ManifestFile>)
        ensures
            r@ == self.spec_manifests(),
    {
        &self.manifests
    }
}

/// The manifests kept by a filter over a prefix of the manifest list: entry
/// by entry, a manifest stays when its flag is true.
pub open spec fn spec_selected_prefix(
    manifests: Seq<ManifestFile>,
    flags: Seq<bool>,
    n: int,
) -> Seq<ManifestFile>
    decreases n,
{
    if n <= 0 {
        Seq::<ManifestFile>::empty()
    } else {
        spec_selected_prefix(manifests, flags, n - 1) + if flags[n - 1] {
            seq![manifests[n - 1]]
        } else {
            Seq::<ManifestFile>::empty()
        }
    }
}

/// The manifests whose files a scan reads: without a filter all of them, in
/// order; with a filter those whose flag is true, the filter and the list
/// walked in step until either ends.
pub fn selected_manifests(manifests: Vec<ManifestFile>, filter: Option<&Vec<bool>>) -> (r: Vec<
    ManifestFile,
>)
    ensures
        filter matches Some(f) ==> r@ == spec_selected_prefix(
            manifests@,
            f@,
            if manifests@.len() <= f@.len() {
                manifests@.len() as int
            } else {
                f@.len() as int
            },
        ),
        filter is None ==> r@ == manifests@,
{
    let ghost ms = manifests@;
    match filter {
        None => manifests,
        Some(flags) => {
            let mut source = manifests;
            let limit = if flags.len() < source.len() {
                flags.len()
            } else {
                source.len()
            };
            let mut out: Vec<ManifestFile> = Vec::new();
            let mut i: usize = 0;
            assert(ms.skip(0) =~= ms);
            while i < limit
                invariant
                    limit <= ms.len(),
                    limit <= flags@.len(),
                    0 <= i <= limit,
                    source@ =~= ms.skip(i as int),
                    out@ == spec_selected_prefix(ms, flags@, i as int),
                decreases limit - i,
            {
                assert(ms.skip(i as int)[0] == ms[i as int]);
                let x = source.remove(0);
                assert(x == ms[i as int]);
                if flags[i] {
                    out.push(x);
                    assert(out@ =~= spec_selected_prefix(ms, flags@, i as int) + seq![
                        ms[i as int],
                    ]);
                }
                assert(ms.skip(i as int).remove(0) =~= ms.skip(i + 1));
                i += 1;
            }
            out
        },
    }
}

} // verus!

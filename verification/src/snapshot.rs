use vstd::prelude::*;

use crate::error::Error;
use crate::partition::PartitionSpec;
use crate::schema::SchemaV2;

verus! {

/// An immutable point-in-time version of a table, pointing at the manifest
/// list that describes its files.
#[derive(Debug, Clone, PartialEq)]
pub struct Snapshot {
    /// The identifier of the snapshot.
    pub snapshot_id: i64,
    /// The snapshot the table held when this one was committed, if any.
    pub parent_snapshot_id: Option<i64>,
    /// The position of the snapshot in the table's total commit order.
    pub sequence_number: i64,
    /// When the snapshot was committed, in milliseconds since the epoch.
    pub timestamp_ms: i64,
    /// Location of the manifest list of the snapshot.
    pub manifest_list: String,
    /// The schema the snapshot was written under, if recorded.
    pub schema_id: Option<i64>,
}

/// One line of the snapshot log: which snapshot became current, and when.
#[derive(Debug, Clone, PartialEq)]
pub struct SnapshotLogEntry {
    /// The snapshot that became current.
    pub snapshot_id: i64,
    /// When it became current, in milliseconds since the epoch.
    pub timestamp_ms: i64,
}

/// The first snapshot with the given identifier, if any.
pub open spec fn spec_snapshot_by_id(snapshots: Seq<Snapshot>, id: i64) -> Option<Snapshot>
    decreases snapshots.len(),
{
    if snapshots.len() == 0 {
        None
    } else if snapshots[0].snapshot_id == id {
        Some(snapshots[0])
    } else {
        spec_snapshot_by_id(snapshots.drop_first(), id)
    }
}

/// The root document of a table: its schema, partition spec, snapshot
/// history and the pointer to the current snapshot.
#[derive(Debug, Clone, PartialEq)]
pub struct TableMetadata {
    /// The base location of the table.
    pub location: String,
    /// The highest sequence number assigned so far.
    pub last_sequence_number: i64,
    /// When the metadata was last written, in milliseconds since the epoch.
    pub last_updated_ms: i64,
    /// The current table schema.
    pub schema: SchemaV2,
    /// The partition spec new data files are written under.
    pub default_spec: PartitionSpec,
    /// The current snapshot, if the table has one.
    pub current_snapshot_id: Option<i64>,
    /// Every snapshot of the table, oldest first.
    pub snapshots: Vec<Snapshot>,
    /// Which snapshot became current at which time, oldest first.
    pub snapshot_log: Vec<SnapshotLogEntry>,
}

impl TableMetadata {
    /// The invariants of a committed metadata document: the update time is
    /// a real timestamp, snapshot identifiers are unique, the current
    /// snapshot pointer refers to a listed snapshot or to none, every
    /// sequence number is covered by the last one, and every snapshot's
    /// sequence number is above its parent's. The strict ordering along
    /// parent links also keeps the parent chain acyclic.
    pub open spec fn well_formed(&self) -> bool {
        &&& self.last_updated_ms >= 0
        &&& (forall|i: int, j: int|
            0 <= i < j < self.snapshots@.len()
                ==> (#[trigger] self.snapshots@[i]).snapshot_id
                != (#[trigger] self.snapshots@[j]).snapshot_id)
        &&& match self.current_snapshot_id {
            Some(id) => spec_snapshot_by_id(self.snapshots@, id) is Some,
            None => true,
        }
        &&& (forall|i: int|
            0 <= i < self.snapshots@.len() ==> (#[trigger] self.snapshots@[i]).sequence_number
                <= self.last_sequence_number)
        &&& (forall|i: int|
            0 <= i < self.snapshots@.len() ==> match (#[trigger] self.snapshots@[i]).parent_snapshot_id {
                Some(p) => match spec_snapshot_by_id(self.snapshots@, p) {
                    Some(parent) => parent.sequence_number
                        < self.snapshots@[i].sequence_number,
                    None => false,
                },
                None => true,
            })
    }

    /// Every snapshot of a well-formed table sits above its parent in the
    /// sequence order, or is a root.
    pub proof fn lemma_sequence_above_parent(&self, i: int)
        requires
            self.well_formed(),
            0 <= i < self.snapshots@.len(),
        ensures
            match self.snapshots@[i].parent_snapshot_id {
                Some(p) => spec_snapshot_by_id(self.snapshots@, p) matches Some(parent)
                    && parent.sequence_number < self.snapshots@[i].sequence_number,
                None => true,
            },
    {
    }

    /// The current snapshot of a well-formed table is one of its snapshots,
    /// or none.
    pub proof fn lemma_current_snapshot_listed(&self)
        requires
            self.well_formed(),
        ensures
            match self.current_snapshot_id {
                Some(id) => spec_snapshot_by_id(self.snapshots@, id) is Some,
                None => true,
            },
    {
    }

    /// The snapshot with the given identifier, if the table has one.
    pub fn snapshot(&self, id: i64) -> (r: Option<&Snapshot>)
        ensures
            match r {
                Some(s) => spec_snapshot_by_id(self.snapshots@, id) == Some(*s),
                None => spec_snapshot_by_id(self.snapshots@, id) is None,
            },
    {
        let n = self.snapshots.len();
        let mut i: usize = 0;
        assert(self.snapshots@.skip(0) =~= self.snapshots@);
        while i < n
            invariant
                n == self.snapshots@.len(),
                0 <= i <= n,
                spec_snapshot_by_id(self.snapshots@, id) == spec_snapshot_by_id(
                    self.snapshots@.skip(i as int),
                    id,
                ),
            decreases n - i,
        {
            assert(self.snapshots@.skip(i as int)[0] == self.snapshots@[i as int]);
            if self.snapshots[i].snapshot_id == id {
                return Some(&self.snapshots[i]);
            }
            assert(self.snapshots@.skip(i as int).drop_first() =~= self.snapshots@.skip(i + 1));
            i += 1;
        }
        assert(self.snapshots@.skip(n as int).len() == 0);
        None
    }

    /// Commits a new snapshot: the snapshot is appended with the next
    /// sequence number and the old current snapshot as its parent, the
    /// current pointer moves to it, the snapshot log grows by one line, and
    /// the last sequence number and update time are bumped. Fails when the
    /// identifier is already taken or the sequence numbers are exhausted.
    pub fn with_snapshot(
        self,
        snapshot_id: i64,
        timestamp_ms: i64,
        manifest_list: String,
        schema_id: Option<i64>,
    ) -> (r: Result<TableMetadata, Error>)
        requires
            self.well_formed(),
        ensures
            r matches Ok(t) ==> {
                &&& t.well_formed()
                &&& t.snapshots@.len() == self.snapshots@.len() + 1
                &&& t.snapshots@.take(self.snapshots@.len() as int) == self.snapshots@
                &&& t.snapshots@.last().snapshot_id == snapshot_id
                &&& t.snapshots@.last().parent_snapshot_id == self.current_snapshot_id
                &&& t.snapshots@.last().sequence_number == self.last_sequence_number + 1
                &&& t.snapshots@.last().timestamp_ms == timestamp_ms
                &&& t.snapshots@.last().manifest_list@ == manifest_list@
                &&& t.current_snapshot_id == Some(snapshot_id)
                &&& t.last_sequence_number == self.last_sequence_number + 1
                &&& t.last_updated_ms == timestamp_ms
                &&& t.snapshot_log@.len() == self.snapshot_log@.len() + 1
                &&& t.snapshot_log@.last().snapshot_id == snapshot_id
                &&& t.location@ == self.location@
            },
            r is Ok <==> (spec_snapshot_by_id(self.snapshots@, snapshot_id) is None
                && self.last_sequence_number < i64::MAX && timestamp_ms >= 0),
            r matches Err(e) ==> e == Error::ValidationFailure,
    {
        if self.snapshot(snapshot_id).is_some() {
            return Err(Error::ValidationFailure);
        }
        if self.last_sequence_number == i64::MAX {
            return Err(Error::ValidationFailure);
        }
        if timestamp_ms < 0 {
            return Err(Error::ValidationFailure);
        }
        let sequence_number = self.last_sequence_number + 1;
        let new_snapshot = Snapshot {
            snapshot_id,
            parent_snapshot_id: self.current_snapshot_id,
            sequence_number,
            timestamp_ms,
            manifest_list,
            schema_id,
        };
        let TableMetadata {
            location,
            last_sequence_number: _,
            last_updated_ms: _,
            schema,
            default_spec,
            current_snapshot_id,
            mut snapshots,
            mut snapshot_log,
        } = self;
        let ghost old_snapshots = snapshots@;
        snapshots.push(new_snapshot);
        snapshot_log.push(SnapshotLogEntry { snapshot_id, timestamp_ms });
        let out = TableMetadata {
            location,
            last_sequence_number: sequence_number,
            last_updated_ms: timestamp_ms,
            schema,
            default_spec,
            current_snapshot_id: Some(snapshot_id),
            snapshots,
            snapshot_log,
        };
        proof {
            let news = out.snapshots@.last();
            assert(out.snapshots@ == old_snapshots.push(news));
            assert(out.snapshots@.take(old_snapshots.len() as int) =~= old_snapshots);
            lemma_snapshot_by_id_none(old_snapshots, snapshot_id);
            lemma_snapshot_by_id_push(old_snapshots, news, snapshot_id);
            assert forall|i: int|
                0 <= i < out.snapshots@.len() implies match (#[trigger] out.snapshots@[i]).parent_snapshot_id {
                Some(p) => match spec_snapshot_by_id(out.snapshots@, p) {
                    Some(parent) => parent.sequence_number < out.snapshots@[i].sequence_number,
                    None => false,
                },
                None => true,
            } by {
                if i < old_snapshots.len() {
                    assert(out.snapshots@[i] == old_snapshots[i]);
                    assert(self.snapshots@[i] == out.snapshots@[i]);
                    match old_snapshots[i].parent_snapshot_id {
                        Some(p) => {
                            lemma_snapshot_by_id_push(old_snapshots, news, p);
                        },
                        None => {},
                    }
                } else {
                    assert(out.snapshots@[i] == news);
                    match news.parent_snapshot_id {
                        Some(p) => {
                            lemma_snapshot_by_id_push(old_snapshots, news, p);
                            lemma_snapshot_by_id_found(old_snapshots, p);
                            match spec_snapshot_by_id(old_snapshots, p) {
                                Some(parent) => {
                                    let k = choose|k: int|
                                        0 <= k < old_snapshots.len()
                                            && #[trigger] old_snapshots[k] == parent;
                                    assert(self.snapshots@[k] == parent);
                                },
                                None => {},
                            }
                        },
                        None => {},
                    }
                }
            }
            assert forall|i: int, j: int|
                0 <= i < j < out.snapshots@.len() implies (#[trigger] out.snapshots@[i]).snapshot_id
                != (#[trigger] out.snapshots@[j]).snapshot_id by {
                if j < old_snapshots.len() {
                    assert(self.snapshots@[i] == out.snapshots@[i]);
                    assert(self.snapshots@[j] == out.snapshots@[j]);
                } else {
                    assert(out.snapshots@[i] == old_snapshots[i]);
                    assert(out.snapshots@[j] == news);
                }
            }
            assert forall|i: int|
                0 <= i < out.snapshots@.len() implies (#[trigger] out.snapshots@[i]).sequence_number
                <= out.last_sequence_number by {
                if i < old_snapshots.len() {
                    assert(self.snapshots@[i] == out.snapshots@[i]);
                }
            }
            assert(out.well_formed());
        }
        Ok(out)
    }
}

/// A found snapshot is one of the listed snapshots.
pub proof fn lemma_snapshot_by_id_found(snapshots: Seq<Snapshot>, id: i64)
    ensures
        spec_snapshot_by_id(snapshots, id) matches Some(s) ==> exists|i: int|
            0 <= i < snapshots.len() && #[trigger] snapshots[i] == s,
    decreases snapshots.len(),
{
    if snapshots.len() > 0 && snapshots[0].snapshot_id != id {
        let tail = snapshots.drop_first();
        lemma_snapshot_by_id_found(tail, id);
        match spec_snapshot_by_id(snapshots, id) {
            Some(s) => {
                let i = choose|i: int| 0 <= i < tail.len() && #[trigger] tail[i] == s;
                assert(snapshots[i + 1] == s);
            },
            None => {},
        }
    }
}

/// Looking a snapshot up after appending one: earlier snapshots win, and
/// the new snapshot answers only for its own identifier.
pub proof fn lemma_snapshot_by_id_push(snapshots: Seq<Snapshot>, s: Snapshot, id: i64)
    ensures
        spec_snapshot_by_id(snapshots.push(s), id) == (if spec_snapshot_by_id(
            snapshots,
            id,
        ) is Some {
            spec_snapshot_by_id(snapshots, id)
        } else if s.snapshot_id == id {
            Some(s)
        } else {
            None
        }),
    decreases snapshots.len(),
{
    if snapshots.len() == 0 {
        assert(snapshots.push(s)[0] == s);
        assert(snapshots.push(s).drop_first() =~= Seq::<Snapshot>::empty());
    } else {
        assert(snapshots.push(s)[0] == snapshots[0]);
        assert(snapshots.push(s).drop_first() =~= snapshots.drop_first().push(s));
        lemma_snapshot_by_id_push(snapshots.drop_first(), s, id);
    }
}

/// When no snapshot has the identifier, every snapshot differs from it.
pub proof fn lemma_snapshot_by_id_none(snapshots: Seq<Snapshot>, id: i64)
    requires
        spec_snapshot_by_id(snapshots, id) is None,
    ensures
        forall|i: int|
            0 <= i < snapshots.len() ==> (#[trigger] snapshots[i]).snapshot_id != id,
    decreases snapshots.len(),
{
    if snapshots.len() > 0 {
        let tail = snapshots.drop_first();
        lemma_snapshot_by_id_none(tail, id);
        assert forall|i: int|
            0 <= i < snapshots.len() implies (#[trigger] snapshots[i]).snapshot_id != id by {
            if i > 0 {
                assert(tail[i - 1] == snapshots[i]);
            }
        }
    }
}

} // verus!

use vstd::prelude::*;

use crate::error::Error;
use crate::manifest::{spec_status_code, ManifestEntry, Status};
use vstd::string::StringExecFns;

verus! {

/// The kind of files a manifest tracks.
#[derive(Debug, Clone, Copy, PartialEq, Eq, Structural)]
pub enum Content {
    /// Rows of the table.
    Data,
    /// Deletes identified by file position.
    PositionDeletes,
    /// Deletes identified by column equality.
    EqualityDeletes,
}

impl Content {
    /// The integer the content kind is persisted as.
    pub fn code(&self) -> (r: u8)
        ensures
            r == match *self {
                Content::Data => 0u8,
                Content::PositionDeletes => 1u8,
                Content::EqualityDeletes => 2u8,
            },
    {
        match self {
            Content::Data => 0,
            Content::PositionDeletes => 1,
            Content::EqualityDeletes => 2,
        }
    }
}

/// The summary of one partition field over all files of a manifest, used to
/// prune the manifest before its entries are read.
#[derive(Debug, Clone, PartialEq)]
pub struct FieldSummary {
    /// Whether some file holds a null value for the field.
    pub contains_null: bool,
    /// Whether some file holds a not-a-number value for the field.
    pub contains_nan: Option<bool>,
    /// Lower bound of the non-null, non-NaN values, in the canonical binary
    /// form, or absent when every value is null or NaN. When a negative
    /// zero occurs, the lower bound must not be a positive zero.
    pub lower_bound: Option<Vec<u8>>,
    /// Upper bound, mirroring the lower bound rule for signed zeros.
    pub upper_bound: Option<Vec<u8>>,
}

/// An entry of a manifest list: one manifest with its summary counts and
/// partition summaries.
#[derive(Debug, Clone, PartialEq)]
pub struct ManifestFile {
    /// Location of the manifest.
    pub manifest_path: String,
    /// Length of the manifest in bytes.
    pub manifest_length: i64,
    /// Identifier of the partition spec the manifest was written under; it
    /// must be listed in the table metadata.
    pub partition_spec_id: i32,
    /// Kind of files the manifest tracks.
    pub content: Option<Content>,
    /// Sequence number at which the manifest entered the table.
    pub sequence_number: Option<i64>,
    /// Least sequence number of any file in the manifest.
    pub min_sequence_number: Option<i64>,
    /// Snapshot that added the manifest.
    pub added_snapshot_id: i64,
    /// Number of entries with status added.
    pub added_files_count: Option<i32>,
    /// Number of entries with status existing.
    pub existing_files_count: Option<i32>,
    /// Number of entries with status deleted.
    pub deleted_files_count: Option<i32>,
    /// Number of rows over the added entries.
    pub added_rows_count: Option<i64>,
    /// Number of rows over the existing entries.
    pub existing_rows_count: Option<i64>,
    /// Number of rows over the deleted entries.
    pub deleted_rows_count: Option<i64>,
    /// One summary per partition field, in spec order.
    pub partitions: Option<Vec<FieldSummary>>,
    /// Implementation-specific key metadata for encryption.
    pub key_metadata: Option<Vec<u8>>,
}

/// The record schema of a manifest list.
pub const MANIFEST_LIST_SCHEMA: &'static str = r#"
        {
            "type": "record",
            "name": "manifest_list",
            "fields": [
                {
                    "name": "manifest_path",
                    "type": "string",
                    "field_id": 500
                },
                {
                    "name": "manifest_length",
                    "type": "long",
                    "field_id": 501
                },
                {
                    "name": "partition_spec_id",
                    "type": "int",
                    "field_id": 502
                },
                {
                    "name": "content",
                    "type": [
                        "null",
                        "int"
                    ],
                    "default": null,
                    "field_id": 517
                },
                {
                    "name": "sequence_number",
                    "type": [
                        "null",
                        "long"
                    ],
                    "default": null,
                    "field_id": 515
                },
                {
                    "name": "min_sequence_number",
                    "type": [
                        "null",
                        "long"
                    ],
                    "default": null,
                    "field_id": 516
                },
                {
                    "name": "added_snapshot_id",
                    "type": "long",
                    "field_id": 503
                },
                {
                    "name": "added_files_count",
                    "type": [
                        "null",
                        "int"
                    ],
                    "default": null,
                    "field_id": 504
                },
                {
                    "name": "existing_files_count",
                    "type": [
                        "null",
                        "int"
                    ],
                    "default": null,
                    "field_id": 505
                },
                {
                    "name": "deleted_files_count",
                    "type": [
                        "null",
                        "int"
                    ],
                    "default": null,
                    "field_id": 506
                },
                {
                    "name": "added_rows_count",
                    "type": [
                        "null",
                        "long"
                    ],
                    "default": null,
                    "field_id": 512
                },
                {
                    "name": "existing_rows_count",
                    "type": [
                        "null",
                        "long"
                    ],
                    "default": null,
                    "field_id": 513
                },
                {
                    "name": "deleted_rows_count",
                    "type": [
                        "null",
                        "long"
                    ],
                    "default": null,
                    "field_id": 514
                },
                {
                    "name": "partitions",
                    "type": [
                        "null",
                        {
                            "type": "array",
                            "items": {
                                "type": "record",
                                "name": "field_summary",
                                "fields": [
                                    {
                                        "name": "contains_null",
                                        "type": "boolean",
                                        "field_id": 509
                                    },
                                    {
                                        "name": "contains_nan",
                                        "type": [
                                            "null",
                                            "boolean"
                                        ],
                                        "field_id": 518
                                    },
                                    {
                                        "name": "lower_bound",
                                        "type": [
                                            "null",
                                            "bytes"
                                        ],
                                        "field_id": 510
                                    },
                                    {
                                        "name": "upper_bound",
                                        "type": [
                                            "null",
                                            "bytes"
                                        ],
                                        "field_id": 511
                                    }
                                ]
                            },
                            "element-id": 112
                        }
                    ],
                    "default": null,
                    "field_id": 507
                },
                {
                    "name": "key_metadata",
                    "type": [
                        "null",
                        "bytes"
                    ],
                    "field_id": 519
                }
            ]
        }
        "#;

impl ManifestFile {
    /// The record schema a manifest-list entry is persisted under.
    pub fn schema() -> (r: String)
        ensures
            r@ == MANIFEST_LIST_SCHEMA@,
    {
        String::from_str(MANIFEST_LIST_SCHEMA)
    }
}

/// The number of entries of a sequence with the given status.
pub open spec fn spec_count_status(entries: Seq<ManifestEntry>, status: Status) -> int
    decreases entries.len(),
{
    if entries.len() == 0 {
        0
    } else {
        spec_count_status(entries.drop_last(), status) + if entries.last().status == status {
            1int
        } else {
            0int
        }
    }
}

/// Counting every status over a sequence of entries covers the sequence:
/// the added, existing and deleted counts sum to the number of entries.
pub proof fn lemma_status_counts_complete(entries: Seq<ManifestEntry>)
    ensures
        spec_count_status(entries, Status::Added) + spec_count_status(entries, Status::Existing)
            + spec_count_status(entries, Status::Deleted) == entries.len(),
    decreases entries.len(),
{
    if entries.len() > 0 {
        lemma_status_counts_complete(entries.drop_last());
        let s = entries.last().status;
        assert(s == Status::Added || s == Status::Existing || s == Status::Deleted);
    }
}

/// The summary counts of a manifest: how many entries are added, existing
/// and deleted. The three counts sum to the number of entries.
pub fn summarize_entries(entries: &Vec<ManifestEntry>) -> (r: (usize, usize, usize))
    ensures
        r.0 == spec_count_status(entries@, Status::Added),
        r.1 == spec_count_status(entries@, Status::Existing),
        r.2 == spec_count_status(entries@, Status::Deleted),
        r.0 + r.1 + r.2 == entries@.len(),
{
    let n = entries.len();
    let mut added: usize = 0;
    let mut existing: usize = 0;
    let mut deleted: usize = 0;
    let mut i: usize = 0;
    assert(entries@.take(0).len() == 0);
    while i < n
        invariant
            n == entries@.len(),
            0 <= i <= n,
            added == spec_count_status(entries@.take(i as int), Status::Added),
            existing == spec_count_status(entries@.take(i as int), Status::Existing),
            deleted == spec_count_status(entries@.take(i as int), Status::Deleted),
            added + existing + deleted == i,
        decreases n - i,
    {
        assert(entries@.take(i + 1).last() == entries@[i as int]);
        assert(entries@.take(i + 1).drop_last() =~= entries@.take(i as int));
        match entries[i].status {
            Status::Added => {
                added += 1;
            },
            Status::Existing => {
                existing += 1;
            },
            Status::Deleted => {
                deleted += 1;
            },
        }
        i += 1;
    }
    assert(entries@.take(n as int) =~= entries@);
    (added, existing, deleted)
}

/// Whether the summary counts a manifest-list entry carries agree with the
/// entries read from the manifest itself: each present count equals the
/// number of entries with its status.
pub open spec fn spec_counts_match(mf: ManifestFile, entries: Seq<ManifestEntry>) -> bool {
    &&& match mf.added_files_count {
        Some(c) => c == spec_count_status(entries, Status::Added),
        None => true,
    }
    &&& match mf.existing_files_count {
        Some(c) => c == spec_count_status(entries, Status::Existing),
        None => true,
    }
    &&& match mf.deleted_files_count {
        Some(c) => c == spec_count_status(entries, Status::Deleted),
        None => true,
    }
}

/// Checks a manifest-list entry against the entries read from its manifest:
/// accepted exactly when every present count is right, so that an accepted
/// entry's counts sum to the number of entries whenever all three are
/// present.
pub fn check_entry_counts(mf: &ManifestFile, entries: &Vec<ManifestEntry>) -> (r: Result<
    (),
    Error,
>)
    ensures
        r is Ok <==> spec_counts_match(*mf, entries@),
        r matches Err(e) ==> e == Error::InvalidMetadata,
{
    let (added, existing, deleted) = summarize_entries(entries);
    let ok_added = match mf.added_files_count {
        Some(c) => c >= 0 && added == (c as usize),
        None => true,
    };
    let ok_existing = match mf.existing_files_count {
        Some(c) => c >= 0 && existing == (c as usize),
        None => true,
    };
    let ok_deleted = match mf.deleted_files_count {
        Some(c) => c >= 0 && deleted == (c as usize),
        None => true,
    };
    if ok_added && ok_existing && ok_deleted {
        Ok(())
    } else {
        Err(Error::InvalidMetadata)
    }
}

} // verus!

use vstd::prelude::*;

use crate::error::Error;
use crate::schema::{spec_field_by_id, spec_primitive_name, AllType, PrimitiveType, SchemaV2, StructField};
use crate::partition::{spec_result_type, PartitionField, PartitionSpec};
use crate::trusted::string_from_utf8;
use crate::value::Value;
use crate::value::ValueModel;
use vstd::slice::slice_to_vec;
use vstd::string::StringExecFns;

verus! {

/// Whether a manifest entry records an existing, an added or a deleted file.
#[derive(Debug, Clone, Copy, PartialEq, Eq, Structural)]
pub enum Status {
    /// The file was already part of the table.
    Existing,
    /// The file was added by the snapshot that wrote the manifest.
    Added,
    /// The file was deleted by the snapshot that wrote the manifest.
    Deleted,
}

impl Status {
    /// The integer the status is persisted as.
    pub fn code(&self) -> (r: u8)
        ensures
            r == spec_status_code(*self),
    {
        match self {
            Status::Existing => 0,
            Status::Added => 1,
            Status::Deleted => 2,
        }
    }

    /// The status persisted as the given integer; fails on any other
    /// integer.
    pub fn from_code(code: u8) -> (r: Result<Status, Error>)
        ensures
            r matches Ok(s) ==> spec_status_code(s) == code,
            r is Ok <==> code <= 2,
            r matches Err(e) ==> e == Error::InvalidMetadata,
    {
        if code == 0 {
            Ok(Status::Existing)
        } else if code == 1 {
            Ok(Status::Added)
        } else if code == 2 {
            Ok(Status::Deleted)
        } else {
            Err(Error::InvalidMetadata)
        }
    }
}

/// The integer a status is persisted as.
pub open spec fn spec_status_code(s: Status) -> u8 {
    match s {
        Status::Existing => 0,
        Status::Added => 1,
        Status::Deleted => 2,
    }
}

/// The kind of content a data file stores.
#[derive(Debug, Clone, Copy, PartialEq, Eq, Structural)]
pub enum Content {
    /// Rows of the table.
    Data,
    /// Deletes identified by file position.
    PositionDeletes,
    /// Deletes identified by column equality.
    EqualityDeletes,
}

impl Content {
    /// The integer the content kind is persisted as.
    pub fn code(&self) -> (r: u8)
        ensures
            r == spec_content_code(*self),
    {
        match self {
            Content::Data => 0,
            Content::PositionDeletes => 1,
            Content::EqualityDeletes => 2,
        }
    }

    /// The content kind persisted as the given integer; fails on any other
    /// integer.
    pub fn from_code(code: u8) -> (r: Result<Content, Error>)
        ensures
            r matches Ok(c) ==> spec_content_code(c) == code,
            r is Ok <==> code <= 2,
            r matches Err(e) ==> e == Error::InvalidMetadata,
    {
        if code == 0 {
            Ok(Content::Data)
        } else if code == 1 {
            Ok(Content::PositionDeletes)
        } else if code == 2 {
            Ok(Content::EqualityDeletes)
        } else {
            Err(Error::InvalidMetadata)
        }
    }
}

/// The integer a content kind is persisted as.
pub open spec fn spec_content_code(c: Content) -> u8 {
    match c {
        Content::Data => 0,
        Content::PositionDeletes => 1,
        Content::EqualityDeletes => 2,
    }
}

/// The format of a data file.
#[derive(Debug, Clone, Copy, PartialEq, Eq, Structural)]
pub enum FileFormat {
    /// An Avro file.
    Avro,
    /// An Orc file.
    Orc,
    /// A Parquet file.
    Parquet,
}

/// The name a file format is persisted as.
pub open spec fn spec_file_format_name(f: FileFormat) -> Seq<char> {
    match f {
        FileFormat::Avro => "AVRO"@,
        FileFormat::Orc => "ORC"@,
        FileFormat::Parquet => "PARQUET"@,
    }
}

impl FileFormat {
    /// The name the file format is persisted as.
    pub fn as_str(&self) -> (r: &'static str)
        ensures
            r@ == spec_file_format_name(*self),
    {
        match self {
            FileFormat::Avro => "AVRO",
            FileFormat::Orc => "ORC",
            FileFormat::Parquet => "PARQUET",
        }
    }

    /// The file format persisted under the given name; fails on any other
    /// name.
    pub fn parse(s: &str) -> (r: Result<FileFormat, Error>)
        ensures
            r matches Ok(f) ==> spec_file_format_name(f) == s@,
            r is Ok <==> (s@ == "AVRO"@ || s@ == "ORC"@ || s@ == "PARQUET"@),
            r matches Err(e) ==> e == Error::Unsupported,
    {
        let owned = s.to_owned();
        if owned.eq(&String::from_str("AVRO")) {
            Ok(FileFormat::Avro)
        } else if owned.eq(&String::from_str("ORC")) {
            Ok(FileFormat::Orc)
        } else if owned.eq(&String::from_str("PARQUET")) {
            Ok(FileFormat::Parquet)
        } else {
            Err(Error::Unsupported)
        }
    }
}

/// The header of a manifest: what the row container's user metadata holds
/// about the schema and the partition spec the manifest was written under.
#[derive(Debug, Clone, PartialEq)]
pub struct Metadata {
    /// JSON representation of the table schema at the time the manifest was
    /// written. The one required key.
    pub schema: String,
    /// Identifier of that schema, as a string.
    pub schema_id: Option<String>,
    /// JSON representation of the partition spec fields used to write the
    /// manifest.
    pub partition_spec: Option<String>,
    /// Identifier of that partition spec, as a string.
    pub partition_spec_id: Option<String>,
    /// Table format version of the manifest, as a string.
    pub format_version: Option<String>,
    /// Kind of files the manifest tracks: "data" or "deletes".
    pub content: Option<String>,
}

/// The partition value tuple of one data file: an ordered mapping from
/// partition field name to an optional value, in spec order.
#[derive(Debug, PartialEq)]
pub struct PartitionValues {
    names: Vec<String>,
    fields: Vec<Option<Value>>,
}

impl Clone for PartitionValues {
    /// Copies the tuple; the copy holds the same pairs.
    fn clone(&self) -> (r: Self)
        ensures
            r.spec_pairs() == self.spec_pairs(),
    {
        proof {
            use_type_invariant(&*self);
        }
        let mut names: Vec<String> = Vec::new();
        let mut fields: Vec<Option<Value>> = Vec::new();
        let n = self.names.len();
        let mut i: usize = 0;
        while i < n
            invariant
                self.wf(),
                n == self.names@.len(),
                0 <= i <= n,
                names@.len() == i,
                fields@.len() == i,
                forall|j: int| 0 <= j < i ==> #[trigger] names@[j]@ == self.names@[j]@,
                forall|j: int|
                    0 <= j < i ==> #[trigger] fields@[j].deep_view()
                        == self.fields@[j].deep_view(),
            decreases n - i,
        {
            let ghost names_pre = names@;
            let ghost fields_pre = fields@;
            names.push(self.names[i].clone());
            fields.push(clone_value_option(&self.fields[i]));
            assert forall|j: int| 0 <= j < i + 1 implies #[trigger] names@[j]@
                == self.names@[j]@ by {
                if j < i {
                    assert(names@[j] == names_pre[j]);
                }
            }
            assert forall|j: int| 0 <= j < i + 1 implies #[trigger] fields@[j].deep_view()
                == self.fields@[j].deep_view() by {
                if j < i {
                    assert(fields@[j] == fields_pre[j]);
                }
            }
            i += 1;
        }
        let out = PartitionValues { names, fields };
        assert(out.spec_pairs() =~= self.spec_pairs());
        out
    }
}

impl PartitionValues {
    /// The tuple as a sequence of (name, value) pairs, in spec order.
    pub closed spec fn spec_pairs(&self) -> Seq<(Seq<char>, Option<ValueModel>)> {
        Seq::new(self.names@.len(), |i: int| (self.names@[i]@, self.fields@[i].deep_view()))
    }

    /// Both columns of the mapping have one row per partition field.
    #[verifier::type_invariant]
    pub closed spec fn wf(&self) -> bool {
        self.names@.len() == self.fields@.len()
    }

    /// Builds the tuple from (name, value) pairs, keeping their order.
    pub fn from_pairs(pairs: Vec<(String, Option<Value>)>) -> (r: Self)
        ensures
            r.spec_pairs().len() == pairs@.len(),
            forall|i: int|
                0 <= i < pairs@.len() ==> #[trigger] r.spec_pairs()[i] == (
                    pairs@[i].0@,
                    pairs@[i].1.deep_view(),
                ),
    {
        let mut names: Vec<String> = Vec::new();
        let mut fields: Vec<Option<Value>> = Vec::new();
        let n = pairs.len();
        let mut i: usize = 0;
        while i < n
            invariant
                n == pairs@.len(),
                0 <= i <= n,
                names@.len() == i,
                fields@.len() == i,
                forall|j: int| 0 <= j < i ==> #[trigger] names@[j]@ == pairs@[j].0@,
                forall|j: int|
                    0 <= j < i ==> #[trigger] fields@[j].deep_view() == pairs@[j].1.deep_view(),
            decreases n - i,
        {
            let name = pairs[i].0.clone();
            let value = clone_value_option(&pairs[i].1);
            let ghost names_pre = names@;
            let ghost fields_pre = fields@;
            names.push(name);
            fields.push(value);
            assert forall|j: int| 0 <= j < i + 1 implies #[trigger] names@[j]@
                == pairs@[j].0@ by {
                if j < i {
                    assert(names@[j] == names_pre[j]);
                }
            }
            assert forall|j: int| 0 <= j < i + 1 implies #[trigger] fields@[j].deep_view()
                == pairs@[j].1.deep_view() by {
                if j < i {
                    assert(fields@[j] == fields_pre[j]);
                }
            }
            i += 1;
        }
        PartitionValues { names, fields }
    }

    /// The tuple as (name, value) pairs, in spec order.
    pub fn to_pairs(&self) -> (r: Vec<(String, Option<Value>)>)
        ensures
            r@.len() == self.spec_pairs().len(),
            forall|i: int|
                0 <= i < r@.len() ==> (#[trigger] r@[i].0@, r@[i].1.deep_view())
                    == self.spec_pairs()[i],
    {
        proof {
            use_type_invariant(&*self);
        }
        let mut out: Vec<(String, Option<Value>)> = Vec::new();
        let n = self.names.len();
        let mut i: usize = 0;
        while i < n
            invariant
                self.wf(),
                n == self.names@.len(),
                0 <= i <= n,
                out@.len() == i,
                forall|j: int|
                    0 <= j < i ==> (#[trigger] out@[j].0@, out@[j].1.deep_view())
                        == self.spec_pairs()[j],
            decreases n - i,
        {
            let name = self.names[i].clone();
            let value = clone_value_option(&self.fields[i]);
            let ghost out_pre = out@;
            out.push((name, value));
            assert forall|j: int| 0 <= j < i + 1 implies (#[trigger] out@[j].0@,
            out@[j].1.deep_view()) == self.spec_pairs()[j] by {
                if j < i {
                    assert(out@[j] == out_pre[j]);
                }
            }
            i += 1;
        }
        out
    }

    /// The values of the tuple, in spec order.
    pub fn iter(&self) -> (r: &[Option<Value>])
        ensures
            r@.len() == self.spec_pairs().len(),
            forall|i: int|
                0 <= i < r@.len() ==> #[trigger] r@[i].deep_view() == self.spec_pairs()[i].1,
    {
        proof {
            use_type_invariant(&*self);
        }
        self.fields.as_slice()
    }

    /// The number of partition fields in the tuple.
    pub fn len(&self) -> (r: usize)
        ensures
            r == self.spec_pairs().len(),
    {
        proof {
            use_type_invariant(&*self);
        }
        self.names.len()
    }

    /// The value stored under the given partition field name: the last pair
    /// with that name wins, as in an ordered map where a later insert
    /// replaces an earlier one.
    pub fn get(&self, name: &str) -> (r: Option<&Option<Value>>)
        ensures
            match r {
                Some(v) => spec_lookup_pair(self.spec_pairs(), name@) == Some(v.deep_view()),
                None => spec_lookup_pair(self.spec_pairs(), name@) is None,
            },
    {
        proof {
            use_type_invariant(&*self);
        }
        let name_owned = String::from_str(name);
        let n = self.names.len();
        let mut i: usize = n;
        assert(self.spec_pairs().take(n as int) =~= self.spec_pairs());
        while i > 0
            invariant
                self.wf(),
                n == self.names@.len(),
                0 <= i <= n,
                name_owned@ == name@,
                spec_lookup_pair(self.spec_pairs(), name@) == spec_lookup_pair(
                    self.spec_pairs().take(i as int),
                    name@,
                ),
            decreases i,
        {
            i -= 1;
            assert(self.spec_pairs().take(i + 1).last() == self.spec_pairs()[i as int]);
            assert(self.spec_pairs().take(i + 1).drop_last() =~= self.spec_pairs().take(i as int));
            assert(self.spec_pairs()[i as int].0 == self.names@[i as int]@);
            assert(self.spec_pairs()[i as int].1 == self.fields@[i as int].deep_view());
            assert(name_owned@ == name@);
            if self.names[i].eq(&name_owned) {
                assert(spec_lookup_pair(self.spec_pairs().take(i + 1), name@) == Some(
                    self.fields@[i as int].deep_view(),
                )) by {
                    assert(self.spec_pairs().take(i + 1).last().0 == name@);
                }
                return Some(&self.fields[i]);
            }
            assert(spec_lookup_pair(self.spec_pairs().take(i + 1), name@) == spec_lookup_pair(
                self.spec_pairs().take(i as int),
                name@,
            )) by {
                assert(self.spec_pairs().take(i + 1).last().0 != name@);
            }
        }
        assert(self.spec_pairs().take(0).len() == 0);
        None
    }
}

/// The value under the given name in a sequence of (name, value) pairs,
/// where a later pair with the same name wins.
pub open spec fn spec_lookup_pair(
    pairs: Seq<(Seq<char>, Option<ValueModel>)>,
    name: Seq<char>,
) -> Option<Option<ValueModel>>
    decreases pairs.len(),
{
    if pairs.len() == 0 {
        None
    } else if pairs.last().0 == name {
        Some(pairs.last().1)
    } else {
        spec_lookup_pair(pairs.drop_last(), name)
    }
}

/// The map described by a sequence of key-value pairs, a later pair
/// overriding an earlier one with the same key.
pub open spec fn spec_map_of_entries<T>(s: Seq<(i32, T)>) -> Map<i32, T>
    decreases s.len(),
{
    if s.len() == 0 {
        Map::empty()
    } else {
        spec_map_of_entries(s.drop_last()).insert(s.last().0, s.last().1)
    }
}

/// A map from column identifier to a per-column metric, persisted in the row
/// container as an array of key-value records.
#[derive(Debug, PartialEq, Clone)]
pub struct AvroMap<T> {
    entries: Vec<(i32, T)>,
}

impl<T> AvroMap<T> {
    /// The entries of the map, in the order they were given.
    pub closed spec fn spec_entries(&self) -> Seq<(i32, T)> {
        self.entries@
    }

    /// The mapping from keys to values.
    pub open spec fn spec_map(&self) -> Map<i32, T> {
        spec_map_of_entries(self.spec_entries())
    }

    /// No two entries share a key.
    pub open spec fn spec_keys_distinct(&self) -> bool {
        forall|i: int, j: int|
            0 <= i < j < self.spec_entries().len() ==> #[trigger] self.spec_entries()[i].0
                != #[trigger] self.spec_entries()[j].0
    }

    /// Builds the map from key-value entries, keeping their order. Fails if
    /// two entries share a key.
    pub fn from_entries(entries: Vec<(i32, T)>) -> (r: Result<Self, Error>)
        ensures
            r matches Ok(m) ==> m.spec_entries() == entries@ && m.spec_keys_distinct(),
            r is Ok <==> (forall|i: int, j: int|
                0 <= i < j < entries@.len() ==> #[trigger] entries@[i].0
                    != #[trigger] entries@[j].0),
            r matches Err(e) ==> e == Error::InvalidMetadata,
    {
        let n = entries.len();
        let mut i: usize = 0;
        while i < n
            invariant
                n == entries@.len(),
                0 <= i <= n,
                forall|a: int, b: int|
                    0 <= a < b < i ==> #[trigger] entries@[a].0 != #[trigger] entries@[b].0,
            decreases n - i,
        {
            let mut j: usize = 0;
            while j < i
                invariant
                    0 <= j <= i < n == entries@.len(),
                    forall|a: int| 0 <= a < j ==> #[trigger] entries@[a].0 != entries@[i as int].0,
                decreases i - j,
            {
                if entries[j].0 == entries[i].0 {
                    return Err(Error::InvalidMetadata);
                }
                j += 1;
            }
            i += 1;
        }
        Ok(AvroMap { entries })
    }

    /// The entries of the map, in the order they were given.
    pub fn entries(&self) -> (r: &Vec<(i32, T)>)
        ensures
            r@ == self.spec_entries(),
    {
        &self.entries
    }

    /// The number of entries.
    pub fn len(&self) -> (r: usize)
        ensures
            r == self.spec_entries().len(),
    {
        self.entries.len()
    }

    /// The value under the given key: the last entry with that key, which in
    /// a map with distinct keys is the only one.
    pub fn get(&self, key: i32) -> (r: Option<&T>)
        ensures
            match r {
                Some(v) => self.spec_map().contains_key(key) && self.spec_map()[key] == *v,
                None => !self.spec_map().contains_key(key),
            },
    {
        let n = self.entries.len();
        let mut i: usize = n;
        assert(self.spec_entries().take(n as int) =~= self.spec_entries());
        while i > 0
            invariant
                n == self.spec_entries().len(),
                0 <= i <= n,
                spec_map_of_entries(self.spec_entries()).contains_key(key)
                    == spec_map_of_entries(self.spec_entries().take(i as int)).contains_key(key),
                spec_map_of_entries(self.spec_entries()).contains_key(key)
                    ==> spec_map_of_entries(self.spec_entries())[key] == spec_map_of_entries(
                    self.spec_entries().take(i as int),
                )[key],
            decreases i,
        {
            i -= 1;
            assert(self.spec_entries().take(i + 1).last() == self.spec_entries()[i as int]);
            assert(self.spec_entries().take(i + 1).drop_last() =~= self.spec_entries().take(
                i as int,
            ));
            if self.entries[i].0 == key {
                return Some(&self.entries[i].1);
            }
        }
        assert(self.spec_entries().take(0).len() == 0);
        None
    }
}

/// A data file tracked by a manifest: its location, format, partition tuple
/// and per-column metrics.
#[derive(Debug, Clone, PartialEq)]
pub struct DataFile {
    /// Kind of content in the file.
    pub content: Option<Content>,
    /// Full location of the file.
    pub file_path: String,
    /// Format of the file.
    pub file_format: FileFormat,
    /// Partition value tuple of the file, under the spec the manifest was
    /// written with.
    pub partition: PartitionValues,
    /// Number of records in the file.
    pub record_count: i64,
    /// Total size of the file in bytes.
    pub file_size_in_bytes: i64,
    /// Block size the file was written with.
    pub block_size_in_bytes: Option<i64>,
    /// Ordinal of the file.
    pub file_ordinal: Option<i32>,
    /// Columns the file is sorted by.
    pub sort_columns: Option<Vec<i32>>,
    /// Per-column total size on disk.
    pub column_sizes: Option<AvroMap<i64>>,
    /// Per-column number of values, nulls and not-a-numbers included.
    pub value_counts: Option<AvroMap<i64>>,
    /// Per-column number of null values.
    pub null_value_counts: Option<AvroMap<i64>>,
    /// Per-column number of not-a-number values.
    pub nan_value_counts: Option<AvroMap<i64>>,
    /// Per-column number of distinct values.
    pub distinct_counts: Option<AvroMap<i64>>,
    /// Per-column lower bound, in the canonical binary form.
    pub lower_bounds: Option<AvroMap<Vec<u8>>>,
    /// Per-column upper bound, in the canonical binary form.
    pub upper_bounds: Option<AvroMap<Vec<u8>>>,
    /// Implementation-specific key metadata for encryption.
    pub key_metadata: Option<Vec<u8>>,
    /// Split offsets for the file.
    pub split_offsets: Option<Vec<i64>>,
    /// Field identifiers used for row equality in equality delete files.
    pub equality_ids: Option<Vec<i32>>,
    /// Identifier of the sort order of the file.
    pub sort_order_id: Option<i32>,
}

/// An entry of a manifest: a data file with its tracking state.
#[derive(Debug, Clone, PartialEq)]
pub struct ManifestEntry {
    /// Whether the file is existing, added or deleted.
    pub status: Status,
    /// Snapshot that added the file, or deleted it when the status says so.
    /// Inherited from the manifest list when missing.
    pub snapshot_id: Option<i64>,
    /// Sequence number the file was added at. Inherited when missing.
    pub sequence_number: Option<i64>,
    /// The data file itself.
    pub data_file: DataFile,
}

/// A manifest as read back from the row container: its header and its entry.
#[derive(Debug, Clone, PartialEq)]
pub struct Manifest {
    /// The header.
    pub metadata: Metadata,
    /// The entry.
    pub entry: ManifestEntry,
}

/// Copies a value; the copy has the same model.
pub fn clone_value(v: &Value) -> (r: Value)
    ensures
        r.deep_view() == v.deep_view(),
{
    match v {
        Value::Boolean(b) => Value::Boolean(*b),
        Value::Int(x) => Value::Int(*x),
        Value::Long(x) => Value::Long(*x),
        Value::Date(x) => Value::Date(*x),
        Value::Time(x) => Value::Time(*x),
        Value::Timestamp(x) => Value::Timestamp(*x),
        Value::TimestampTz(x) => Value::TimestampTz(*x),
        Value::Text(s) => Value::Text(s.clone()),
        Value::Bytes(b) => Value::Bytes(slice_to_vec(b.as_slice())),
        Value::Fixed(b) => Value::Fixed(slice_to_vec(b.as_slice())),
    }
}

/// Copies an optional value; the copy has the same model.
pub fn clone_value_option(v: &Option<Value>) -> (r: Option<Value>)
    ensures
        r.deep_view() == v.deep_view(),
{
    match v {
        Some(inner) => Some(clone_value(inner)),
        None => None,
    }
}


/// The head of the data-file record schema, up to the spot where the
/// partition record schema is spliced in.
pub const DATA_FILE_SCHEMA_HEAD: &'static str = r#"{
            "type": "record",
            "name": "r2",
            "fields": [
                {
                    "name": "content",
                    "type": [
                        "null",
                        "int"
                    ],
                    "default": null,
                    "field_id": 134
                },
                {
                    "name": "file_path",
                    "type": "string",
                    "field_id": 100
                },
                {
                    "name": "file_format",
                    "type": "string",
                    "field_id": 101
                },
                {
                    "name": "partition",
                    "type": "#;

/// The tail of the data-file record schema, after the partition record
/// schema.
pub const DATA_FILE_SCHEMA_TAIL: &'static str = r#",
                    "field_id": 102
                },
                {
                    "name": "record_count",
                    "type": "long",
                    "field_id": 103
                },
                {
                    "name": "file_size_in_bytes",
                    "type": "long",
                    "field_id": 104
                },
                {
                    "name": "block_size_in_bytes",
                    "type": [
                        "null",
                        "long"
                    ],
                    "default": null,
                    "field_id": 105
                },
                {
                    "name": "file_ordinal",
                    "type": [
                        "null",
                        "int"
                    ],
                    "default": null,
                    "field_id": 106
                },
                {
                    "name": "sort_columns",
                    "type": [
                        "null",
                        {
                            "type": "array",
                            "items": "int",
                            "element-id": 112
                        }
                    ],
                    "default": null,
                    "field_id": 107
                },
                {
                    "name": "column_sizes",
                    "type": [
                        "null",
                        {
                            "type": "array",
                            "logicalType": "map",
                            "items": {
                                "type": "record",
                                "name": "k117_v118",
                                "fields": [
                                    {
                                        "name": "key",
                                        "type": "int",
                                        "field-id": 117
                                    },
                                    {
                                        "name": "value",
                                        "type": "long",
                                        "field-id": 118
                                    }
                                ]
                            }
                        }
                    ],
                    "default": null,
                    "field_id": 108
                },
                {
                    "name": "value_counts",
                    "type": [
                        "null",
                        {
                            "type": "array",
                            "logicalType": "map",
                            "items": {
                                "type": "record",
                                "name": "k119_v120",
                                "fields": [
                                    {
                                        "name": "key",
                                        "type": "int",
                                        "field-id": 119
                                    },
                                    {
                                        "name": "value",
                                        "type": "long",
                                        "field-id": 120
                                    }
                                ]
                            }
                        }
                    ],
                    "default": null,
                    "field_id": 109
                },
                {
                    "name": "null_value_counts",
                    "type": [
                        "null",
                        {
                            "type": "array",
                            "logicalType": "map",
                            "items": {
                                "type": "record",
                                "name": "k121_v122",
                                "fields": [
                                    {
                                        "name": "key",
                                        "type": "int",
                                        "field-id": 121
                                    },
                                    {
                                        "name": "value",
                                        "type": "long",
                                        "field-id": 122
                                    }
                                ]
                            }
                        }
                    ],
                    "default": null,
                    "field_id": 110
                },
                {
                    "name": "nan_value_counts",
                    "type": [
                        "null",
                        {
                            "type": "array",
                            "logicalType": "map",
                            "items": {
                                "type": "record",
                                "name": "k138_v139",
                                "fields": [
                                    {
                                        "name": "key",
                                        "type": "int",
                                        "field-id": 138
                                    },
                                    {
                                        "name": "value",
                                        "type": "long",
                                        "field-id": 139
                                    }
                                ]
                            }
                        }
                    ],
                    "default": null,
                    "field_id": 137
                },
                {
                    "name": "distinct_counts",
                    "type": [
                        "null",
                        {
                            "type": "array",
                            "logicalType": "map",
                            "items": {
                                "type": "record",
                                "name": "k123_v124",
                                "fields": [
                                    {
                                        "name": "key",
                                        "type": "int",
                                        "field-id": 123
                                    },
                                    {
                                        "name": "value",
                                        "type": "long",
                                        "field-id": 124
                                    }
                                ]
                            }
                        }
                    ],
                    "default": null,
                    "field_id": 111
                },
                {
                    "name": "lower_bounds",
                    "type": [
                        "null",
                        {
                            "type": "array",
                            "logicalType": "map",
                            "items": {
                                "type": "record",
                                "name": "k126_v127",
                                "fields": [
                                    {
                                        "name": "key",
                                        "type": "int",
                                        "field-id": 126
                                    },
                                    {
                                        "name": "value",
                                        "type": "bytes",
                                        "field-id": 127
                                    }
                                ]
                            }
                        }
                    ],
                    "default": null,
                    "field_id": 125
                },
                {
                    "name": "upper_bounds",
                    "type": [
                        "null",
                        {
                            "type": "array",
                            "logicalType": "map",
                            "items": {
                                "type": "record",
                                "name": "k129_v130",
                                "fields": [
                                    {
                                        "name": "key",
                                        "type": "int",
                                        "field-id": 129
                                    },
                                    {
                                        "name": "value",
                                        "type": "bytes",
                                        "field-id": 130
                                    }
                                ]
                            }
                        }
                    ],
                    "default": null,
                    "field_id": 128
                },
                {
                    "name": "key_metadata",
                    "type": [
                        "null",
                        "bytes"
                    ],
                    "default": null,
                    "field_id": 131
                },
                {
                    "name": "split_offsets",
                    "type": [
                        "null",
                        {
                            "type": "array",
                            "items": "long",
                            "element-id": 133
                        }
                    ],
                    "default": null,
                    "field_id": 132
                },
                {
                    "name": "equality_ids",
                    "type": [
                        "null",
                        {
                            "type": "array",
                            "items": "int",
                            "element-id": 136
                        }
                    ],
                    "default": null,
                    "field_id": 135
                },
                {
                    "name": "sort_order_id",
                    "type": [
                        "null",
                        "int"
                    ],
                    "default": null,
                    "field_id": 140
                }
            ]
        }"#;

/// The head of the manifest-entry record schema, up to the spot where the
/// data-file record schema is spliced in.
pub const MANIFEST_ENTRY_SCHEMA_HEAD: &'static str = r#"{
            "type": "record",
            "name": "manifest_entry",
            "fields": [
                {
                    "name": "status",
                    "type": "int",
                    "field_id": 0
                },
                {
                    "name": "snapshot_id",
                    "type": [
                        "null",
                        "long"
                    ],
                    "default": null,
                    "field_id": 1
                },
                {
                    "name": "sequence_number",
                    "type": [
                        "null",
                        "long"
                    ],
                    "default": null,
                    "field_id": 3
                },
                {
                    "name": "data_file",
                    "type": "#;

/// The tail of the manifest-entry record schema, after the data-file record
/// schema.
pub const MANIFEST_ENTRY_SCHEMA_TAIL: &'static str = r#",
                    "field_id": 2
                }
            ]
        }"#;

/// The record schema of a data file, for the given partition record schema.
pub open spec fn spec_data_file_schema(partition_schema: Seq<char>) -> Seq<char> {
    DATA_FILE_SCHEMA_HEAD@ + partition_schema + DATA_FILE_SCHEMA_TAIL@
}

/// The record schema of a manifest entry, for the given partition record
/// schema.
pub open spec fn spec_manifest_entry_schema(partition_schema: Seq<char>) -> Seq<char> {
    MANIFEST_ENTRY_SCHEMA_HEAD@ + spec_data_file_schema(partition_schema)
        + MANIFEST_ENTRY_SCHEMA_TAIL@
}

impl DataFile {
    /// The record schema a data file is persisted under, with the partition
    /// record schema spliced in.
    pub fn schema(partition_schema: &str) -> (r: String)
        ensures
            r@ == spec_data_file_schema(partition_schema@),
    {
        let mut s = String::from_str(DATA_FILE_SCHEMA_HEAD);
        s.append(partition_schema);
        s.append(DATA_FILE_SCHEMA_TAIL);
        s
    }
}

impl ManifestEntry {
    /// The record schema a manifest entry is persisted under, with the
    /// partition record schema spliced in.
    pub fn schema(partition_schema: &str) -> (r: String)
        ensures
            r@ == spec_manifest_entry_schema(partition_schema@),
    {
        let datafile_schema = DataFile::schema(partition_schema);
        let mut s = String::from_str(MANIFEST_ENTRY_SCHEMA_HEAD);
        s.append(datafile_schema.as_str());
        s.append(MANIFEST_ENTRY_SCHEMA_TAIL);
        s
    }
}


/// The head of the partition record schema, before the field entries.
pub const PARTITION_SCHEMA_HEAD: &'static str = r#"{"type": "record","name": "r102","fields": ["#;

/// The tail of the partition record schema, after the field entries.
pub const PARTITION_SCHEMA_TAIL: &'static str = r#"]}"#;

/// The part of a partition field entry before the field name.
pub const PARTITION_FIELD_HEAD: &'static str = r#"
                {
                    "name": ""#;

/// The part of a partition field entry between the field name and the type
/// name.
pub const PARTITION_FIELD_MID: &'static str = r#"", 
                    "type":  ["null",""#;

/// The part of a partition field entry between the type name and the
/// field identifier.
pub const PARTITION_FIELD_DEFAULT: &'static str = r#""],
                    "default": null,
                    "field-id": "#;

/// The part of a partition field entry after the field identifier.
pub const PARTITION_FIELD_END: &'static str = r#"
                }"#;

/// The primitive type below a field type tag.
pub open spec fn spec_alltype_primitive(t: AllType) -> PrimitiveType {
    match t {
        AllType::Primitive(p) => p,
    }
}

/// One field entry of the partition record schema: its name, its nullable
/// type, and the identifier of the partition field.
pub open spec fn spec_partition_field_entry(
    name: Seq<char>,
    ty: Seq<char>,
    field_id: int,
) -> Seq<char> {
    PARTITION_FIELD_HEAD@ + name + PARTITION_FIELD_MID@ + ty + PARTITION_FIELD_DEFAULT@
        + crate::view_builder::spec_i64_dec(field_id) + PARTITION_FIELD_END@
}

/// The name of the type a partition field stores: the transform's result
/// type on the source column, resolved against the table schema.
pub open spec fn spec_resolved_type_name(f: PartitionField, sfields: Seq<StructField>) -> Seq<
    char,
> {
    match spec_field_by_id(sfields, f.source_id) {
        Some(sf) => spec_primitive_name(
            spec_result_type(f.transform, spec_alltype_primitive(sf.field_type)),
        ),
        None => Seq::<char>::empty(),
    }
}

/// The field entries of the partition record schema, one per partition
/// field.
pub open spec fn spec_partition_items(
    pfields: Seq<PartitionField>,
    sfields: Seq<StructField>,
) -> Seq<Seq<char>> {
    Seq::new(
        pfields.len(),
        |i: int|
            spec_partition_field_entry(
                pfields[i].name@,
                spec_resolved_type_name(pfields[i], sfields),
                pfields[i].field_id as int,
            ),
    )
}

/// The field entries joined with commas.
pub open spec fn spec_joined_entries(items: Seq<Seq<char>>) -> Seq<char>
    decreases items.len(),
{
    if items.len() == 0 {
        Seq::<char>::empty()
    } else if items.len() == 1 {
        items[0]
    } else {
        spec_joined_entries(items.drop_last()) + ","@ + items.last()
    }
}

/// The partition record schema for the given partition spec and table
/// schema.
pub open spec fn spec_partition_values_schema(
    pfields: Seq<PartitionField>,
    sfields: Seq<StructField>,
) -> Seq<char> {
    PARTITION_SCHEMA_HEAD@ + spec_joined_entries(spec_partition_items(pfields, sfields))
        + PARTITION_SCHEMA_TAIL@
}

impl PartitionValues {
    /// The record schema of the partition tuple: one nullable field per
    /// partition field, in spec order, typed by the transform's result on
    /// the source column. Fails when a source column is not in the table
    /// schema.
    pub fn schema(spec: &PartitionSpec, table_schema: &SchemaV2) -> (r: Result<String, Error>)
        ensures
            r matches Ok(s) ==> s@ == spec_partition_values_schema(
                spec.fields@,
                table_schema.struct_fields.fields@,
            ),
            r is Ok <==> (forall|i: int|
                0 <= i < spec.fields@.len() ==> spec_field_by_id(
                    table_schema.struct_fields.fields@,
                    #[trigger] spec.fields@[i].source_id,
                ) is Some),
            r matches Err(e) ==> e == Error::SchemaMismatch,
    {
        let ghost sfields = table_schema.struct_fields.fields@;
        let ghost items = spec_partition_items(spec.fields@, sfields);
        let mut body = String::new();
        let n = spec.fields.len();
        let mut i: usize = 0;
        assert(items.take(0).len() == 0);
        while i < n
            invariant
                n == spec.fields@.len(),
                0 <= i <= n,
                sfields == table_schema.struct_fields.fields@,
                items == spec_partition_items(spec.fields@, sfields),
                items.len() == n,
                body@ == spec_joined_entries(items.take(i as int)),
                forall|j: int|
                    0 <= j < i ==> spec_field_by_id(
                        sfields,
                        #[trigger] spec.fields@[j].source_id,
                    ) is Some,
            decreases n - i,
        {
            let field = &spec.fields[i];
            match table_schema.struct_fields.get(field.source_id) {
                None => {
                    return Err(Error::SchemaMismatch);
                },
                Some(schema_field) => {
                    let ty = field.transform.result_type(schema_field.field_type.primitive());
                    if i > 0 {
                        body.append(",");
                    }
                    body.append(PARTITION_FIELD_HEAD);
                    body.append(field.name.as_str());
                    body.append(PARTITION_FIELD_MID);
                    body.append(ty.name());
                    body.append(PARTITION_FIELD_DEFAULT);
                    let field_id_str = crate::view_builder::i64_to_dec_string(
                        field.field_id as i64,
                    );
                    body.append(field_id_str.as_str());
                    body.append(PARTITION_FIELD_END);
                    assert(items[i as int] == spec_partition_field_entry(
                        spec.fields@[i as int].name@,
                        spec_resolved_type_name(spec.fields@[i as int], sfields),
                        spec.fields@[i as int].field_id as int,
                    ));
                    assert(spec_primitive_name(ty) == spec_resolved_type_name(
                        spec.fields@[i as int],
                        sfields,
                    ));
                    assert(items.take(i + 1).last() == items[i as int]);
                    assert(items.take(i + 1).drop_last() =~= items.take(i as int));
                    if i > 0 {
                        assert(items.take(i + 1).len() > 1);
                        assert(body@ =~= spec_joined_entries(items.take(i as int)) + ","@
                            + items[i as int]);
                    } else {
                        assert(items.take(1).len() == 1);
                        assert(body@ =~= items[0]);
                    }
                    assert(body@ == spec_joined_entries(items.take(i + 1)));
                },
            }
            i += 1;
        }
        assert(items.take(n as int) =~= items);
        let mut out = String::from_str(PARTITION_SCHEMA_HEAD);
        out.append(body.as_str());
        out.append(PARTITION_SCHEMA_TAIL);
        assert(out@ =~= spec_partition_values_schema(spec.fields@, sfields));
        Ok(out)
    }
}


/// The mathematical model of a manifest header: each entry as a sequence of
/// characters.
pub struct MetadataModel {
    /// Model of [`Metadata::schema`].
    pub schema: Seq<char>,
    /// Model of [`Metadata::schema_id`].
    pub schema_id: Option<Seq<char>>,
    /// Model of [`Metadata::partition_spec`].
    pub partition_spec: Option<Seq<char>>,
    /// Model of [`Metadata::partition_spec_id`].
    pub partition_spec_id: Option<Seq<char>>,
    /// Model of [`Metadata::format_version`].
    pub format_version: Option<Seq<char>>,
    /// Model of [`Metadata::content`].
    pub content: Option<Seq<char>>,
}

impl DeepView for Metadata {
    type V = MetadataModel;

    open spec fn deep_view(&self) -> MetadataModel {
        MetadataModel {
            schema: self.schema@,
            schema_id: self.schema_id.deep_view(),
            partition_spec: self.partition_spec.deep_view(),
            partition_spec_id: self.partition_spec_id.deep_view(),
            format_version: self.format_version.deep_view(),
            content: self.content.deep_view(),
        }
    }
}

/// The value under the given key in a sequence of user-metadata entries,
/// scanning from the front.
pub open spec fn spec_meta_lookup(
    entries: Seq<(Seq<char>, Seq<u8>)>,
    key: Seq<char>,
) -> Option<Seq<u8>>
    decreases entries.len(),
{
    if entries.len() == 0 {
        None
    } else if entries[0].0 == key {
        Some(entries[0].1)
    } else {
        spec_meta_lookup(entries.drop_first(), key)
    }
}

/// User-metadata entries as pairs of sequences.
pub open spec fn spec_entry_views(s: Seq<(String, Vec<u8>)>) -> Seq<(Seq<char>, Seq<u8>)> {
    Seq::new(s.len(), |i: int| (s[i].0@, s[i].1@))
}

/// Whether one optional header field agrees with the entry stored under its
/// key.
pub open spec fn spec_meta_field_matches(
    field: Option<Seq<char>>,
    entries: Seq<(Seq<char>, Seq<u8>)>,
    key: Seq<char>,
) -> bool {
    match field {
        Some(s) => spec_meta_lookup(entries, key) == Some(vstd::utf8::encode_utf8(s)),
        None => spec_meta_lookup(entries, key) is None,
    }
}

/// Whether a manifest header holds exactly what the user-metadata entries
/// store under the six header keys.
pub open spec fn spec_metadata_matches(m: MetadataModel, entries: Seq<(Seq<char>, Seq<u8>)>) -> bool {
    &&& spec_meta_lookup(entries, "schema"@) == Some(vstd::utf8::encode_utf8(m.schema))
    &&& spec_meta_field_matches(m.schema_id, entries, "schema-id"@)
    &&& spec_meta_field_matches(m.partition_spec, entries, "partition-spec"@)
    &&& spec_meta_field_matches(m.partition_spec_id, entries, "partition-spec-id"@)
    &&& spec_meta_field_matches(m.format_version, entries, "format-version"@)
    &&& spec_meta_field_matches(m.content, entries, "content"@)
}

/// Whether the user-metadata entries can be read back as a header: the
/// schema key is present and every header value is valid UTF-8.
pub open spec fn spec_metadata_entries_ok(entries: Seq<(Seq<char>, Seq<u8>)>) -> bool {
    &&& spec_meta_lookup(entries, "schema"@) is Some
    &&& spec_meta_value_utf8(entries, "schema"@)
    &&& spec_meta_value_utf8(entries, "schema-id"@)
    &&& spec_meta_value_utf8(entries, "partition-spec"@)
    &&& spec_meta_value_utf8(entries, "partition-spec-id"@)
    &&& spec_meta_value_utf8(entries, "format-version"@)
    &&& spec_meta_value_utf8(entries, "content"@)
}

/// Whether the value under the given key, if present, is valid UTF-8.
pub open spec fn spec_meta_value_utf8(
    entries: Seq<(Seq<char>, Seq<u8>)>,
    key: Seq<char>,
) -> bool {
    match spec_meta_lookup(entries, key) {
        Some(b) => vstd::utf8::valid_utf8(b),
        None => true,
    }
}


/// Looking a key up after appending an entry: the earlier entries win, and
/// the new entry answers only for its own key.
pub proof fn lemma_meta_lookup_push(
    ev: Seq<(Seq<char>, Seq<u8>)>,
    e: (Seq<char>, Seq<u8>),
    k: Seq<char>,
)
    ensures
        #[trigger] spec_meta_lookup(ev.push(e), k) == (if spec_meta_lookup(ev, k) is Some {
            spec_meta_lookup(ev, k)
        } else if e.0 == k {
            Some(e.1)
        } else {
            None
        }),
    decreases ev.len(),
{
    if ev.len() == 0 {
        assert(ev.push(e)[0] == e);
    } else {
        assert(ev.push(e)[0] == ev[0]);
        assert(ev.push(e).drop_first() =~= ev.drop_first().push(e));
        lemma_meta_lookup_push(ev.drop_first(), e, k);
    }
}

/// The entry bytes stored under the given key, if any.
fn find_entry<'a>(entries: &'a Vec<(String, Vec<u8>)>, key: &str) -> (r: Option<&'a Vec<u8>>)
    ensures
        match r {
            Some(b) => spec_meta_lookup(spec_entry_views(entries@), key@) == Some(b@),
            None => spec_meta_lookup(spec_entry_views(entries@), key@) is None,
        },
{
    let ghost ev = spec_entry_views(entries@);
    let key_owned = String::from_str(key);
    let n = entries.len();
    let mut i: usize = 0;
    assert(ev.skip(0) =~= ev);
    while i < n
        invariant
            n == entries@.len(),
            0 <= i <= n,
            ev == spec_entry_views(entries@),
            ev.len() == n,
            key_owned@ == key@,
            spec_meta_lookup(ev, key@) == spec_meta_lookup(ev.skip(i as int), key@),
        decreases n - i,
    {
        assert(ev.skip(i as int)[0] == ev[i as int]);
        if entries[i].0.eq(&key_owned) {
            assert(spec_meta_lookup(ev.skip(i as int), key@) == Some(ev[i as int].1));
            return Some(&entries[i].1);
        }
        assert(ev.skip(i as int).drop_first() =~= ev.skip(i + 1));
        assert(spec_meta_lookup(ev.skip(i as int), key@) == spec_meta_lookup(
            ev.skip(i + 1),
            key@,
        )) by {
            assert(ev.skip(i as int)[0].0 != key@);
        }
        i += 1;
    }
    assert(ev.skip(n as int).len() == 0);
    None
}

/// Reads the optional header field stored under the given key: absent when
/// the key is absent, and otherwise the UTF-8 reading of the value.
fn read_optional_field(entries: &Vec<(String, Vec<u8>)>, key: &str) -> (r: Result<
    Option<String>,
    Error,
>)
    ensures
        r matches Ok(o) ==> spec_meta_field_matches(
            o.deep_view(),
            spec_entry_views(entries@),
            key@,
        ),
        r is Ok <==> spec_meta_value_utf8(spec_entry_views(entries@), key@),
        r matches Err(e) ==> e == Error::InvalidMetadata,
{
    broadcast use vstd::utf8::encode_utf8_decode_utf8, vstd::utf8::encode_utf8_valid_utf8;

    match find_entry(entries, key) {
        None => Ok(None),
        Some(bytes) => {
            match string_from_utf8(slice_to_vec(bytes.as_slice())) {
                Ok(s) => Ok(Some(s)),
                Err(e) => Err(e),
            }
        },
    }
}

/// Reads a manifest header from user-metadata entries. Fails exactly when
/// the schema key is missing or a header value is not valid UTF-8.
pub fn metadata_from_entries(entries: &Vec<(String, Vec<u8>)>) -> (r: Result<Metadata, Error>)
    ensures
        r matches Ok(m) ==> spec_metadata_matches(m.deep_view(), spec_entry_views(entries@)),
        r is Ok <==> spec_metadata_entries_ok(spec_entry_views(entries@)),
        r matches Err(e) ==> e == Error::InvalidMetadata,
{
    broadcast use vstd::utf8::encode_utf8_decode_utf8, vstd::utf8::encode_utf8_valid_utf8;

    let schema = match find_entry(entries, "schema") {
        None => {
            return Err(Error::InvalidMetadata);
        },
        Some(bytes) => match string_from_utf8(slice_to_vec(bytes.as_slice())) {
            Ok(s) => s,
            Err(e) => {
                return Err(e);
            },
        },
    };
    let schema_id = read_optional_field(entries, "schema-id")?;
    let partition_spec = read_optional_field(entries, "partition-spec")?;
    let partition_spec_id = read_optional_field(entries, "partition-spec-id")?;
    let format_version = read_optional_field(entries, "format-version")?;
    let content = read_optional_field(entries, "content")?;
    Ok(Metadata { schema, schema_id, partition_spec, partition_spec_id, format_version, content })
}

/// Appends one optional header field under its key: entries already present
/// keep their answers, and the key gains the field's value when it is
/// present.
fn push_meta_field(out: &mut Vec<(String, Vec<u8>)>, key: &str, field: &Option<String>)
    ensures
        forall|k: Seq<char>|
            #[trigger] spec_meta_lookup(spec_entry_views(final(out)@), k) == (
            if spec_meta_lookup(spec_entry_views(old(out)@), k) is Some {
                spec_meta_lookup(spec_entry_views(old(out)@), k)
            } else if k == key@ {
                match field.deep_view() {
                    Some(s) => Some(vstd::utf8::encode_utf8(s)),
                    None => None,
                }
            } else {
                None
            }),
{
    if let Some(s) = field {
        let ghost ev0 = spec_entry_views(out@);
        out.push((String::from_str(key), s.as_str().as_bytes_vec()));
        proof {
            assert(spec_entry_views(out@) =~= ev0.push((key@, vstd::utf8::encode_utf8(s@))));
            assert forall|k: Seq<char>|
                #[trigger] spec_meta_lookup(spec_entry_views(out@), k) == (
                if spec_meta_lookup(ev0, k) is Some {
                    spec_meta_lookup(ev0, k)
                } else if k == key@ {
                    Some(vstd::utf8::encode_utf8(s@))
                } else {
                    None
                }) by {
                lemma_meta_lookup_push(ev0, (key@, vstd::utf8::encode_utf8(s@)), k);
            }
        }
    } else {
        proof {
            assert forall|k: Seq<char>|
                spec_meta_lookup(spec_entry_views(out@), k) is None implies true by {}
        }
    }
}


/// Establishes that the six user-metadata keys of a manifest header are
/// pairwise distinct.
fn meta_keys_distinct()
    ensures
        "schema"@ != "schema-id"@,
        "schema"@ != "partition-spec"@,
        "schema"@ != "partition-spec-id"@,
        "schema"@ != "format-version"@,
        "schema"@ != "content"@,
        "schema-id"@ != "partition-spec"@,
        "schema-id"@ != "partition-spec-id"@,
        "schema-id"@ != "format-version"@,
        "schema-id"@ != "content"@,
        "partition-spec"@ != "partition-spec-id"@,
        "partition-spec"@ != "format-version"@,
        "partition-spec"@ != "content"@,
        "partition-spec-id"@ != "format-version"@,
        "partition-spec-id"@ != "content"@,
        "format-version"@ != "content"@,
{
    proof {
        reveal_strlit("schema");
        reveal_strlit("schema-id");
        reveal_strlit("partition-spec");
        reveal_strlit("partition-spec-id");
        reveal_strlit("format-version");
        reveal_strlit("content");
        assert("schema"@.len() == 6);
        assert("schema-id"@.len() == 9);
        assert("partition-spec"@.len() == 14);
        assert("partition-spec-id"@.len() == 17);
        assert("format-version"@.len() == 14);
        assert("content"@.len() == 7);
        assert("partition-spec"@[0] == 'p');
        assert("format-version"@[0] == 'f');
    }
}

/// The user-metadata entries a manifest header is persisted as: the schema
/// key first, then each present optional field under its key.
#[verifier::rlimit(100)]
pub fn metadata_user_entries(m: &Metadata) -> (r: Vec<(String, Vec<u8>)>)
    ensures
        spec_metadata_matches(m.deep_view(), spec_entry_views(r@)),
        spec_metadata_entries_ok(spec_entry_views(r@)),
{
    broadcast use vstd::utf8::encode_utf8_decode_utf8, vstd::utf8::encode_utf8_valid_utf8;
    broadcast use vstd::string::group_string_axioms;

    meta_keys_distinct();
    let mut out: Vec<(String, Vec<u8>)> = Vec::new();
    let ghost ev0 = spec_entry_views(out@);
    out.push((String::from_str("schema"), m.schema.as_str().as_bytes_vec()));
    proof {
        assert(ev0.len() == 0);
        assert(spec_entry_views(out@) =~= ev0.push((
            "schema"@,
            vstd::utf8::encode_utf8(m.schema@),
        )));
        assert forall|k: Seq<char>|
            #[trigger] spec_meta_lookup(spec_entry_views(out@), k) == (if k == "schema"@ {
                Some(vstd::utf8::encode_utf8(m.schema@))
            } else {
                None
            }) by {
            lemma_meta_lookup_push(ev0, ("schema"@, vstd::utf8::encode_utf8(m.schema@)), k);
        }
    }
    push_meta_field(&mut out, "schema-id", &m.schema_id);
    push_meta_field(&mut out, "partition-spec", &m.partition_spec);
    push_meta_field(&mut out, "partition-spec-id", &m.partition_spec_id);
    push_meta_field(&mut out, "format-version", &m.format_version);
    push_meta_field(&mut out, "content", &m.content);
    proof {
        let ev = spec_entry_views(out@);
        assert(spec_meta_lookup(ev, "schema"@) == Some(vstd::utf8::encode_utf8(m.schema@)));
        assert(spec_meta_field_matches(m.deep_view().schema_id, ev, "schema-id"@));
        assert(spec_meta_field_matches(m.deep_view().partition_spec, ev, "partition-spec"@));
        assert(spec_meta_field_matches(
            m.deep_view().partition_spec_id,
            ev,
            "partition-spec-id"@,
        ));
        assert(spec_meta_field_matches(m.deep_view().format_version, ev, "format-version"@));
        assert(spec_meta_field_matches(m.deep_view().content, ev, "content"@));
    }
    out
}

/// Reading back any user-metadata entries determines the header completely:
/// two headers that both match the same entries are the same header. With
/// [`metadata_user_entries`] and [`metadata_from_entries`] this is the
/// round trip of the manifest header through the row container's user
/// metadata.
pub proof fn lemma_metadata_round_trip(
    m1: MetadataModel,
    m2: MetadataModel,
    entries: Seq<(Seq<char>, Seq<u8>)>,
)
    requires
        spec_metadata_matches(m1, entries),
        spec_metadata_matches(m2, entries),
    ensures
        m1 == m2,
{
    broadcast use vstd::utf8::encode_utf8_decode_utf8;

    assert(vstd::utf8::decode_utf8(vstd::utf8::encode_utf8(m1.schema)) == m1.schema);
    assert(vstd::utf8::decode_utf8(vstd::utf8::encode_utf8(m2.schema)) == m2.schema);
    lemma_meta_field_unique(m1.schema_id, m2.schema_id, entries, "schema-id"@);
    lemma_meta_field_unique(m1.partition_spec, m2.partition_spec, entries, "partition-spec"@);
    lemma_meta_field_unique(
        m1.partition_spec_id,
        m2.partition_spec_id,
        entries,
        "partition-spec-id"@,
    );
    lemma_meta_field_unique(m1.format_version, m2.format_version, entries, "format-version"@);
    lemma_meta_field_unique(m1.content, m2.content, entries, "content"@);
}

/// One optional header field is determined by the entry under its key.
proof fn lemma_meta_field_unique(
    f1: Option<Seq<char>>,
    f2: Option<Seq<char>>,
    entries: Seq<(Seq<char>, Seq<u8>)>,
    key: Seq<char>,
)
    requires
        spec_meta_field_matches(f1, entries, key),
        spec_meta_field_matches(f2, entries, key),
    ensures
        f1 == f2,
{
    broadcast use vstd::utf8::encode_utf8_decode_utf8;

    match (f1, f2) {
        (Some(s1), Some(s2)) => {
            assert(vstd::utf8::decode_utf8(vstd::utf8::encode_utf8(s1)) == s1);
            assert(vstd::utf8::decode_utf8(vstd::utf8::encode_utf8(s2)) == s2);
        },
        _ => {},
    }
}





/// Whether a manifest header holds exactly what a user-metadata map stores
/// under the six header keys.
pub open spec fn spec_metadata_matches_map(m: MetadataModel, meta: Map<Seq<char>, Seq<u8>>) -> bool {
    &&& meta.contains_pair("schema"@, vstd::utf8::encode_utf8(m.schema))
    &&& spec_meta_map_field_matches(m.schema_id, meta, "schema-id"@)
    &&& spec_meta_map_field_matches(m.partition_spec, meta, "partition-spec"@)
    &&& spec_meta_map_field_matches(m.partition_spec_id, meta, "partition-spec-id"@)
    &&& spec_meta_map_field_matches(m.format_version, meta, "format-version"@)
    &&& spec_meta_map_field_matches(m.content, meta, "content"@)
}

/// Whether one optional header field agrees with a user-metadata map.
pub open spec fn spec_meta_map_field_matches(
    field: Option<Seq<char>>,
    meta: Map<Seq<char>, Seq<u8>>,
    key: Seq<char>,
) -> bool {
    match field {
        Some(s) => meta.contains_pair(key, vstd::utf8::encode_utf8(s)),
        None => !meta.dom().contains(key),
    }
}

/// In an entry list whose pairs all belong to a map, whose keys are
/// distinct, and which has an entry for every key of the map, looking a key
/// up in the list is looking it up in the map.
proof fn lemma_meta_lookup_is_map(
    ev: Seq<(Seq<char>, Seq<u8>)>,
    meta: Map<Seq<char>, Seq<u8>>,
    key: Seq<char>,
)
    requires
        forall|i: int| 0 <= i < ev.len() ==> meta.contains_pair((#[trigger] ev[i]).0, ev[i].1),
        forall|k: Seq<char>|
            meta.dom().contains(k) ==> exists|i: int| 0 <= i < ev.len() && (#[trigger] ev[i]).0
                == k,
    ensures
        spec_meta_lookup(ev, key) matches Some(b) ==> meta.contains_pair(key, b),
        spec_meta_lookup(ev, key) is None ==> !meta.dom().contains(key),
{
    lemma_meta_lookup_found_in(ev, meta, key);
    if spec_meta_lookup(ev, key) is None {
        lemma_meta_lookup_none_all_differ(ev, key);
        if meta.dom().contains(key) {
            let i = choose|i: int| 0 <= i < ev.len() && (#[trigger] ev[i]).0 == key;
            assert(ev[i].0 != key);
        }
    }
}

/// A found entry is a pair of the map.
proof fn lemma_meta_lookup_found_in(
    ev: Seq<(Seq<char>, Seq<u8>)>,
    meta: Map<Seq<char>, Seq<u8>>,
    key: Seq<char>,
)
    requires
        forall|i: int| 0 <= i < ev.len() ==> meta.contains_pair((#[trigger] ev[i]).0, ev[i].1),
    ensures
        spec_meta_lookup(ev, key) matches Some(b) ==> meta.contains_pair(key, b),
    decreases ev.len(),
{
    if ev.len() > 0 && ev[0].0 != key {
        let tail = ev.drop_first();
        assert forall|i: int| 0 <= i < tail.len() implies meta.contains_pair(
            (#[trigger] tail[i]).0,
            tail[i].1,
        ) by {
            assert(tail[i] == ev[i + 1]);
        }
        lemma_meta_lookup_found_in(tail, meta, key);
    }
}

/// When a lookup finds nothing, no entry has the key.
proof fn lemma_meta_lookup_none_all_differ(ev: Seq<(Seq<char>, Seq<u8>)>, key: Seq<char>)
    requires
        spec_meta_lookup(ev, key) is None,
    ensures
        forall|i: int| 0 <= i < ev.len() ==> (#[trigger] ev[i]).0 != key,
    decreases ev.len(),
{
    if ev.len() > 0 {
        let tail = ev.drop_first();
        lemma_meta_lookup_none_all_differ(tail, key);
        assert forall|i: int| 0 <= i < ev.len() implies (#[trigger] ev[i]).0 != key by {
            if i > 0 {
                assert(tail[i - 1] == ev[i]);
            }
        }
    }
}

/// Whether the value a user-metadata map stores under the given key, if
/// any, is valid UTF-8.
pub open spec fn spec_meta_map_value_utf8(meta: Map<Seq<char>, Seq<u8>>, key: Seq<char>) -> bool {
    meta.dom().contains(key) ==> vstd::utf8::valid_utf8(meta[key])
}

/// Whether a user-metadata map can be read back as a header: the schema key
/// is present and every header value is valid UTF-8.
pub open spec fn spec_metadata_map_ok(meta: Map<Seq<char>, Seq<u8>>) -> bool {
    &&& meta.dom().contains("schema"@)
    &&& spec_meta_map_value_utf8(meta, "schema"@)
    &&& spec_meta_map_value_utf8(meta, "schema-id"@)
    &&& spec_meta_map_value_utf8(meta, "partition-spec"@)
    &&& spec_meta_map_value_utf8(meta, "partition-spec-id"@)
    &&& spec_meta_map_value_utf8(meta, "format-version"@)
    &&& spec_meta_map_value_utf8(meta, "content"@)
}

/// Reads the header of a manifest out of the bytes of its row container:
/// the six header keys of the container's user metadata. Succeeds exactly
/// when the bytes parse as a container whose user metadata can be read
/// back as a header.
pub fn read_metadata(bytes: &[u8]) -> (r: Result<Metadata, Error>)
    ensures
        r matches Ok(m) ==> spec_metadata_matches_map(
            m.deep_view(),
            crate::trusted::user_meta_of(bytes@),
        ),
        r is Ok <==> (crate::trusted::avro_container_ok(bytes@) && spec_metadata_map_ok(
            crate::trusted::user_meta_of(bytes@),
        )),
        r matches Err(e) ==> e == Error::InvalidMetadata,
{
    let entries = match crate::trusted::avro_user_metadata(bytes) {
        Ok(entries) => entries,
        Err(e) => {
            return Err(e);
        },
    };
    let ghost meta = crate::trusted::user_meta_of(bytes@);
    let ghost ev = spec_entry_views(entries@);
    proof {
        assert forall|i: int| 0 <= i < ev.len() implies meta.contains_pair(
            (#[trigger] ev[i]).0,
            ev[i].1,
        ) by {
            assert(meta.contains_pair(entries@[i].0@, entries@[i].1@));
        }
        assert forall|k: Seq<char>| meta.dom().contains(k) implies exists|i: int|
            0 <= i < ev.len() && (#[trigger] ev[i]).0 == k by {
            let i = choose|i: int|
                0 <= i < entries@.len() && (#[trigger] entries@[i]).0@ == k;
            assert(ev[i].0 == k);
        }
        lemma_meta_lookup_is_map(ev, meta, "schema"@);
        lemma_meta_lookup_is_map(ev, meta, "schema-id"@);
        lemma_meta_lookup_is_map(ev, meta, "partition-spec"@);
        lemma_meta_lookup_is_map(ev, meta, "partition-spec-id"@);
        lemma_meta_lookup_is_map(ev, meta, "format-version"@);
        lemma_meta_lookup_is_map(ev, meta, "content"@);
        assert(spec_meta_value_utf8(ev, "schema"@) == spec_meta_map_value_utf8(meta, "schema"@));
        assert(spec_meta_value_utf8(ev, "schema-id"@) == spec_meta_map_value_utf8(
            meta,
            "schema-id"@,
        ));
        assert(spec_meta_value_utf8(ev, "partition-spec"@) == spec_meta_map_value_utf8(
            meta,
            "partition-spec"@,
        ));
        assert(spec_meta_value_utf8(ev, "partition-spec-id"@) == spec_meta_map_value_utf8(
            meta,
            "partition-spec-id"@,
        ));
        assert(spec_meta_value_utf8(ev, "format-version"@) == spec_meta_map_value_utf8(
            meta,
            "format-version"@,
        ));
        assert(spec_meta_value_utf8(ev, "content"@) == spec_meta_map_value_utf8(
            meta,
            "content"@,
        ));
        assert((spec_meta_lookup(ev, "schema"@) is Some) == meta.dom().contains("schema"@));
        assert(spec_metadata_entries_ok(ev) == spec_metadata_map_ok(meta));
    }
    metadata_from_entries(&entries)
}

} // verus!

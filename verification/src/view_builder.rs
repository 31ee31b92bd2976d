use vstd::prelude::*;
use vstd::string::StringExecFns;

use crate::error::Error;
use crate::identifier::Identifier;
use crate::schema::{Schema, SchemaV2};
use crate::trusted::{now_millis, uuid_v4_string};
use crate::view_metadata::{
    Operation, Representation, Summary, Version, VersionLogStruct, ViewMetadataV1,
};

verus! {

/// The decimal digit characters.
pub open spec fn spec_digit_char(d: int) -> char {
    if d == 0 {
        '0'
    } else if d == 1 {
        '1'
    } else if d == 2 {
        '2'
    } else if d == 3 {
        '3'
    } else if d == 4 {
        '4'
    } else if d == 5 {
        '5'
    } else if d == 6 {
        '6'
    } else if d == 7 {
        '7'
    } else if d == 8 {
        '8'
    } else {
        '9'
    }
}

/// The decimal form of a natural number.
pub open spec fn spec_u64_dec(n: int) -> Seq<char>
    decreases n,
{
    if n < 10 {
        seq![spec_digit_char(n)]
    } else {
        spec_u64_dec(n / 10) + seq![spec_digit_char(n % 10)]
    }
}

/// The decimal form of a signed number: a minus sign before the magnitude
/// when it is negative.
pub open spec fn spec_i64_dec(n: int) -> Seq<char> {
    if n >= 0 {
        spec_u64_dec(n)
    } else {
        seq!['-'] + spec_u64_dec(-n)
    }
}

/// One decimal digit as a string.
fn digit_str(d: u64) -> (r: &'static str)
    requires
        d < 10,
    ensures
        r@ =~= seq![spec_digit_char(d as int)],
{
    proof {
        reveal_strlit("0");
        reveal_strlit("1");
        reveal_strlit("2");
        reveal_strlit("3");
        reveal_strlit("4");
        reveal_strlit("5");
        reveal_strlit("6");
        reveal_strlit("7");
        reveal_strlit("8");
        reveal_strlit("9");
    }
    if d == 0 {
        "0"
    } else if d == 1 {
        "1"
    } else if d == 2 {
        "2"
    } else if d == 3 {
        "3"
    } else if d == 4 {
        "4"
    } else if d == 5 {
        "5"
    } else if d == 6 {
        "6"
    } else if d == 7 {
        "7"
    } else if d == 8 {
        "8"
    } else {
        "9"
    }
}

/// Writes a natural number in decimal.
pub fn u64_to_dec_string(n: u64) -> (r: String)
    ensures
        r@ == spec_u64_dec(n as int),
    decreases n,
{
    if n < 10 {
        String::from_str(digit_str(n))
    } else {
        let mut s = u64_to_dec_string(n / 10);
        s.append(digit_str(n % 10));
        assert(s@ =~= spec_u64_dec(n as int));
        s
    }
}

/// Writes a signed number in decimal.
pub fn i64_to_dec_string(n: i64) -> (r: String)
    ensures
        r@ == spec_i64_dec(n as int),
{
    proof {
        reveal_strlit("-");
    }
    if n >= 0 {
        u64_to_dec_string(n as u64)
    } else {
        let magnitude: u64 = if n == i64::MIN {
            9223372036854775808u64
        } else {
            (-n) as u64
        };
        let mut s = String::from_str("-");
        let digits = u64_to_dec_string(magnitude);
        s.append(digits.as_str());
        assert(s@ =~= spec_i64_dec(n as int));
        s
    }
}

/// The path a metastore catalog stores a metadata document under:
/// `<location>/metadata/<version>-<uuid>.metadata.json`.
pub open spec fn spec_metastore_metadata_path(
    location: Seq<char>,
    version: int,
    uuid: Seq<char>,
) -> Seq<char> {
    location + "/metadata/"@ + spec_i64_dec(version) + "-"@ + uuid + ".metadata.json"@
}

/// The temporary path a filesystem catalog first writes a metadata document
/// to: `<location>/metadata/<uuid>.metadata.json`.
pub open spec fn spec_filesystem_temp_path(location: Seq<char>, uuid: Seq<char>) -> Seq<char> {
    location + "/metadata/"@ + uuid + ".metadata.json"@
}

/// The versioned path a filesystem catalog publishes a metadata document
/// at: `<location>/metadata/v<version>.metadata.json`.
pub open spec fn spec_filesystem_final_path(location: Seq<char>, version: int) -> Seq<char> {
    location + "/metadata/v"@ + spec_i64_dec(version) + ".metadata.json"@
}

/// Builds the path a metastore catalog stores a metadata document under,
/// around a fresh random identifier, which is returned beside the path.
pub fn metastore_metadata_path(location: &str, version: i64) -> (r: (String, String))
    ensures
        r.1@.len() == 36,
        r.0@ == spec_metastore_metadata_path(location@, version as int, r.1@),
{
    let uuid = uuid_v4_string();
    let mut path = String::from_str(location);
    path.append("/metadata/");
    let version_str = i64_to_dec_string(version);
    path.append(version_str.as_str());
    path.append("-");
    path.append(uuid.as_str());
    path.append(".metadata.json");
    assert(path@ =~= spec_metastore_metadata_path(location@, version as int, uuid@));
    (path, uuid)
}

/// Builds the two paths a filesystem catalog commits through: the uniquely
/// named temporary path, around a fresh random identifier, and the
/// versioned path the document is then published at by a copy that fails
/// if the destination exists.
pub fn filesystem_commit_paths(location: &str, version: i64) -> (r: (String, String))
    ensures
        exists|uuid: Seq<char>|
            uuid.len() == 36 && r.0@ == #[trigger] spec_filesystem_temp_path(location@, uuid),
        r.1@ == spec_filesystem_final_path(location@, version as int),
{
    let uuid = uuid_v4_string();
    let mut temp = String::from_str(location);
    temp.append("/metadata/");
    temp.append(uuid.as_str());
    temp.append(".metadata.json");
    let mut publish = String::from_str(location);
    publish.append("/metadata/v");
    let version_str = i64_to_dec_string(version);
    publish.append(version_str.as_str());
    publish.append(".metadata.json");
    proof {
        assert(temp@ =~= spec_filesystem_temp_path(location@, uuid@));
        assert(publish@ =~= spec_filesystem_final_path(location@, version as int));
    }
    (temp, publish)
}

/// Where a view builder will commit its metadata to.
pub enum TableType {
    /// Through a metastore catalog, under the given identifier.
    Metastore(Identifier),
    /// Straight to the object store of a filesystem catalog.
    FileSystem,
}

/// Builds the initial metadata of a view and remembers where the commit
/// will register it. The writing itself is left to the caller that owns
/// the catalog and object-store handles.
pub struct ViewBuilder {
    /// Where the commit will register the view.
    pub table_type: TableType,
    /// The metadata document under construction.
    pub metadata: ViewMetadataV1,
}

/// The initial metadata of a view: a single version, created at the given
/// time, defined by one query text in the ANSI dialect.
pub open spec fn spec_initial_view_metadata_at(
    m: ViewMetadataV1,
    sql: Seq<char>,
    location: Seq<char>,
    schema: SchemaV2,
    timestamp_ms: i64,
) -> bool {
    &&& m.location@ == location
    &&& m.schemas matches Some(schemas) && schemas@.len() == 1 && schemas@[0] == Schema::V2(
        schema,
    )
    &&& m.current_schema_id == Some(1i32)
    &&& m.current_version_id == 1
    &&& m.versions@.len() == 1
    &&& m.versions@[0].version_id == 1
    &&& m.versions@[0].timestamp_ms == timestamp_ms
    &&& m.versions@[0].summary.operation == Operation::Create
    &&& m.versions@[0].summary.engine_version is None
    &&& m.versions@[0].representations@.len() == 1
    &&& (m.versions@[0].representations@[0] matches Representation::Sql {
        sql: s,
        dialect,
        schema_id,
        default_catalog,
        default_namespace,
        field_aliases,
        field_docs,
    } && s@ == sql && dialect@ == "ANSI"@ && schema_id is None && default_catalog is None
        && default_namespace is None && field_aliases is None && field_docs is None)
    &&& m.version_log@.len() == 1
    &&& m.version_log@[0].version_id == 1
    &&& m.version_log@[0].timestamp_ms == timestamp_ms
    &&& m.properties is None
}

/// The initial metadata of a view created at the moment the clock read:
/// the creation time is whatever the clock gave, and everything else is
/// pinned by [`spec_initial_view_metadata_at`].
pub open spec fn spec_initial_view_metadata(
    m: ViewMetadataV1,
    sql: Seq<char>,
    location: Seq<char>,
    schema: SchemaV2,
) -> bool {
    &&& m.versions@.len() == 1
    &&& m.versions@[0].timestamp_ms >= 0
    &&& spec_initial_view_metadata_at(m, sql, location, schema, m.versions@[0].timestamp_ms)
}

impl ViewBuilder {
    /// Starts a view that the commit will register through a metastore
    /// catalog: the metadata holds a single created version defined by the
    /// given query text. Fails only when the clock cannot be read.
    pub fn new_metastore_view(
        sql: &str,
        location: &str,
        schema: SchemaV2,
        identifier: Identifier,
    ) -> (r: Result<Self, Error>)
        ensures
            r matches Ok(b) ==> spec_initial_view_metadata(b.metadata, sql@, location@, schema)
                && b.table_type is Metastore,
            r matches Err(e) ==> e == Error::IOFailure,
    {
        let metadata = initial_view_metadata(sql, location, schema)?;
        Ok(ViewBuilder { table_type: TableType::Metastore(identifier), metadata })
    }

    /// Starts a view that the commit will publish straight to the object
    /// store of a filesystem catalog; the metadata is built as for a
    /// metastore view. Fails only when the clock cannot be read.
    pub fn new_filesystem_view(sql: &str, location: &str, schema: SchemaV2) -> (r: Result<
        Self,
        Error,
    >)
        ensures
            r matches Ok(b) ==> spec_initial_view_metadata(b.metadata, sql@, location@, schema)
                && b.table_type is FileSystem,
            r matches Err(e) ==> e == Error::IOFailure,
    {
        let metadata = initial_view_metadata(sql, location, schema)?;
        Ok(ViewBuilder { table_type: TableType::FileSystem, metadata })
    }

    /// The paths of the commit of this builder, for the caller that
    /// performs the writes: the unique document path for a metastore view,
    /// or the temporary and the versioned path for a filesystem view.
    pub fn commit_paths(&self) -> (r: (String, Option<String>))
        ensures
            self.table_type is Metastore ==> (exists|uuid: Seq<char>|
                uuid.len() == 36 && r.0@ == #[trigger] spec_metastore_metadata_path(
                    self.metadata.location@,
                    self.metadata.current_version_id as int,
                    uuid,
                )) && r.1 is None,
            self.table_type is FileSystem ==> (exists|uuid: Seq<char>|
                uuid.len() == 36 && r.0@ == #[trigger] spec_filesystem_temp_path(
                    self.metadata.location@,
                    uuid,
                )) && (r.1 matches Some(publish) && publish@ == spec_filesystem_final_path(
                self.metadata.location@,
                self.metadata.current_version_id as int,
            )),
    {
        match &self.table_type {
            TableType::Metastore(_) => {
                let (path, _uuid) = metastore_metadata_path(
                    self.metadata.location.as_str(),
                    self.metadata.current_version_id,
                );
                (path, None)
            },
            TableType::FileSystem => {
                let (temp, publish) = filesystem_commit_paths(
                    self.metadata.location.as_str(),
                    self.metadata.current_version_id,
                );
                (temp, Some(publish))
            },
        }
    }
}

/// The initial metadata document of a view, created now: the clock is read
/// once and the document is built at that time. Fails only when the clock
/// cannot be read.
fn initial_view_metadata(sql: &str, location: &str, schema: SchemaV2) -> (r: Result<
    ViewMetadataV1,
    Error,
>)
    ensures
        r matches Ok(m) ==> spec_initial_view_metadata(m, sql@, location@, schema),
        r matches Err(e) ==> e == Error::IOFailure,
{
    let timestamp_ms = now_millis()?;
    Ok(initial_view_metadata_at(sql, location, schema, timestamp_ms))
}

/// The initial metadata document of a view created at the given time: a
/// single version with that timestamp, defined by the query text.
pub fn initial_view_metadata_at(
    sql: &str,
    location: &str,
    schema: SchemaV2,
    timestamp_ms: i64,
) -> (m: ViewMetadataV1)
    ensures
        spec_initial_view_metadata_at(m, sql@, location@, schema, timestamp_ms),
        m.versions@[0].timestamp_ms == timestamp_ms,
{
    let summary = Summary { operation: Operation::Create, engine_version: None };
    let representation = Representation::Sql {
        sql: String::from_str(sql),
        dialect: String::from_str("ANSI"),
        schema_id: None,
        default_catalog: None,
        default_namespace: None,
        field_aliases: None,
        field_docs: None,
    };
    let mut representations: Vec<Representation> = Vec::new();
    representations.push(representation);
    let version = Version { version_id: 1, timestamp_ms, summary, representations };
    let mut versions: Vec<Version> = Vec::new();
    versions.push(version);
    let mut version_log: Vec<VersionLogStruct> = Vec::new();
    version_log.push(VersionLogStruct { timestamp_ms, version_id: 1 });
    let mut schemas: Vec<Schema> = Vec::new();
    schemas.push(Schema::V2(schema));
    ViewMetadataV1 {
        location: String::from_str(location),
        schemas: Some(schemas),
        current_schema_id: Some(1),
        versions,
        current_version_id: 1,
        version_log,
        properties: None,
    }
}

} // verus!

use iceberg_core::error::Error;
use iceberg_core::manifest::{
    metadata_from_entries, metadata_user_entries, read_metadata, DataFile, ManifestEntry,
    Metadata, PartitionValues, Status,
};
use iceberg_core::manifest_list::{check_entry_counts, summarize_entries, FieldSummary, ManifestFile};
use iceberg_core::partition::{PartitionField, PartitionSpec, Transform};
use iceberg_core::schema::{AllType, PrimitiveType, SchemaStruct, SchemaV2, StructField};
use iceberg_core::snapshot::{Snapshot, TableMetadata};
use iceberg_core::table::{selected_manifests, Table};
use iceberg_core::value::Value;
use apache_avro::types::Value as Av;

fn day_schema() -> SchemaV2 {
    SchemaV2 {
        schema_id: 0,
        identifier_field_ids: None,
        struct_fields: SchemaStruct {
            fields: vec![StructField {
                id: 4,
                name: "day".to_owned(),
                required: false,
                field_type: AllType::Primitive(PrimitiveType::Int),
                doc: None,
            }],
        },
    }
}

fn ts_day_spec() -> PartitionSpec {
    PartitionSpec {
        spec_id: 0,
        fields: vec![PartitionField {
            source_id: 4,
            field_id: 1000,
            name: "ts_day".to_string(),
            transform: Transform::Day,
        }],
    }
}

#[test]
fn partition_schema_names_the_fields() {
    let raw = PartitionValues::schema(&ts_day_spec(), &day_schema()).unwrap();
    let expected = "{\"type\": \"record\",\"name\": \"r102\",\"fields\": [\n                {\n                    \"name\": \"ts_day\", \n                    \"type\":  [\"null\",\"int\"],\n                    \"default\": null,\n                    \"field-id\": 1000\n                }]}";
    assert_eq!(raw, expected);
}

#[test]
fn partition_schema_rejects_unknown_source_column() {
    let mut spec = ts_day_spec();
    spec.fields[0].source_id = 99;
    let err = PartitionValues::schema(&spec, &day_schema()).unwrap_err();
    assert_eq!(err, Error::SchemaMismatch);
}

#[test]
fn generated_schemas_parse_as_container_schemas() {
    let partition_schema = PartitionValues::schema(&ts_day_spec(), &day_schema()).unwrap();
    apache_avro::Schema::parse_str(&partition_schema).unwrap();
    let entry_schema = ManifestEntry::schema(&partition_schema);
    apache_avro::Schema::parse_str(&entry_schema).unwrap();
    let datafile_schema = DataFile::schema(&partition_schema);
    apache_avro::Schema::parse_str(&datafile_schema).unwrap();
    let list_schema = ManifestFile::schema();
    apache_avro::Schema::parse_str(&list_schema).unwrap();
}

fn sample_metadata() -> Metadata {
    Metadata {
        schema: r#"{"schema": "0"}"#.to_string(),
        schema_id: Some("1".to_string()),
        partition_spec: Some("[]".to_string()),
        partition_spec_id: Some("0".to_string()),
        format_version: Some("1".to_string()),
        content: Some("data".to_string()),
    }
}

#[test]
fn metadata_entries_round_trip() {
    let metadata = sample_metadata();
    let entries = metadata_user_entries(&metadata);
    let back = metadata_from_entries(&entries).unwrap();
    assert_eq!(back, metadata);
}

#[test]
fn metadata_entries_round_trip_without_optional_keys() {
    let metadata = Metadata {
        schema: "{}".to_string(),
        schema_id: None,
        partition_spec: None,
        partition_spec_id: None,
        format_version: None,
        content: None,
    };
    let entries = metadata_user_entries(&metadata);
    assert_eq!(entries.len(), 1);
    let back = metadata_from_entries(&entries).unwrap();
    assert_eq!(back, metadata);
}

#[test]
fn metadata_requires_schema_key() {
    let entries = vec![("schema-id".to_string(), b"1".to_vec())];
    let err = metadata_from_entries(&entries).unwrap_err();
    assert_eq!(err, Error::InvalidMetadata);
}

#[test]
fn test_read_manifest() {
    let partition_schema = PartitionValues::schema(&ts_day_spec(), &day_schema()).unwrap();
    let raw_schema = ManifestEntry::schema(&partition_schema);
    let schema = apache_avro::Schema::parse_str(&raw_schema).unwrap();

    let partition_spec = r#"[{
        "source-id": 4,
        "field-id": 1000,
        "name": "date",
        "transform": "day"
      }]"#;
    let table_schema = r#"{"schema": "0"}"#;

    let mut writer = apache_avro::Writer::new(&schema, Vec::new()).unwrap();
    writer
        .add_user_metadata("schema".to_string(), table_schema)
        .unwrap();
    writer
        .add_user_metadata("schema-id".to_string(), "1")
        .unwrap();
    writer
        .add_user_metadata("partition-spec".to_string(), partition_spec)
        .unwrap();
    writer
        .add_user_metadata("partition-spec-id".to_string(), "0")
        .unwrap();
    writer
        .add_user_metadata("format-version".to_string(), "1")
        .unwrap();
    writer
        .add_user_metadata("content".to_string(), "data")
        .unwrap();
    let encoded = writer.into_inner().unwrap();

    let metadata = read_metadata(&encoded).unwrap();
    assert_eq!(metadata.schema, table_schema.to_string());
    assert_eq!(metadata.schema_id, Some("1".to_string()));
    assert_eq!(metadata.partition_spec, Some(partition_spec.to_string()));
    assert_eq!(metadata.partition_spec_id, Some("0".to_string()));
    assert_eq!(metadata.format_version, Some("1".to_string()));
    assert_eq!(metadata.content, Some("data".to_string()));
}

#[test]
fn read_metadata_rejects_junk_bytes() {
    let err = read_metadata(&[1, 2, 3, 4]).unwrap_err();
    assert_eq!(err, Error::InvalidMetadata);
}

fn minimal_data_file() -> DataFile {
    DataFile {
        content: None,
        file_path: "/".to_string(),
        file_format: iceberg_core::manifest::FileFormat::Parquet,
        partition: PartitionValues::from_pairs(vec![(
            "ts_day".to_owned(),
            Some(Value::Int(1)),
        )]),
        record_count: 4,
        file_size_in_bytes: 1200,
        block_size_in_bytes: None,
        file_ordinal: None,
        sort_columns: None,
        column_sizes: None,
        value_counts: None,
        null_value_counts: None,
        nan_value_counts: None,
        distinct_counts: None,
        lower_bounds: None,
        upper_bounds: None,
        key_metadata: None,
        split_offsets: None,
        equality_ids: None,
        sort_order_id: None,
    }
}

fn entry_with(status: Status) -> ManifestEntry {
    ManifestEntry {
        status,
        snapshot_id: None,
        sequence_number: None,
        data_file: minimal_data_file(),
    }
}

fn list_entry() -> ManifestFile {
    ManifestFile {
        manifest_path: "".to_string(),
        manifest_length: 1200,
        partition_spec_id: 0,
        content: Some(iceberg_core::manifest_list::Content::Data),
        sequence_number: Some(566),
        min_sequence_number: Some(0),
        added_snapshot_id: 39487483032,
        added_files_count: Some(1),
        existing_files_count: Some(2),
        deleted_files_count: Some(0),
        added_rows_count: Some(1000),
        existing_rows_count: Some(8000),
        deleted_rows_count: Some(0),
        partitions: Some(vec![FieldSummary {
            contains_null: true,
            contains_nan: Some(false),
            lower_bound: None,
            upper_bound: None,
        }]),
        key_metadata: None,
    }
}

#[test]
fn summary_counts_cover_all_entries() {
    let entries = vec![
        entry_with(Status::Added),
        entry_with(Status::Existing),
        entry_with(Status::Existing),
        entry_with(Status::Deleted),
    ];
    let (added, existing, deleted) = summarize_entries(&entries);
    assert_eq!((added, existing, deleted), (1, 2, 1));
    assert_eq!(added + existing + deleted, entries.len());
}

#[test]
fn summary_counts_of_empty_and_single_entry_manifests() {
    let (a, e, d) = summarize_entries(&vec![]);
    assert_eq!((a, e, d), (0, 0, 0));
    let (a, e, d) = summarize_entries(&vec![entry_with(Status::Added)]);
    assert_eq!((a, e, d), (1, 0, 0));
}

#[test]
fn list_entry_counts_are_checked_against_entries() {
    let entries = vec![
        entry_with(Status::Added),
        entry_with(Status::Existing),
        entry_with(Status::Existing),
    ];
    let mf = list_entry();
    assert!(check_entry_counts(&mf, &entries).is_ok());
    let wrong = vec![entry_with(Status::Added)];
    assert_eq!(
        check_entry_counts(&mf, &wrong).unwrap_err(),
        Error::InvalidMetadata
    );
}

fn base_metadata() -> TableMetadata {
    TableMetadata {
        location: "test/append".to_string(),
        last_sequence_number: 0,
        last_updated_ms: 1_600_000_000_000,
        schema: day_schema(),
        default_spec: ts_day_spec(),
        current_snapshot_id: None,
        snapshots: vec![],
        snapshot_log: vec![],
    }
}

#[test]
fn committing_snapshots_orders_sequence_numbers_above_parents() {
    let t0 = base_metadata();
    let t1 = t0
        .with_snapshot(101, 1_600_000_000_001, "ml-1".to_string(), None)
        .unwrap();
    assert_eq!(t1.last_sequence_number, 1);
    assert_eq!(t1.current_snapshot_id, Some(101));
    assert_eq!(t1.snapshots[0].parent_snapshot_id, None);
    let t2 = t1
        .with_snapshot(102, 1_600_000_000_002, "ml-2".to_string(), None)
        .unwrap();
    assert_eq!(t2.last_sequence_number, 2);
    assert_eq!(t2.current_snapshot_id, Some(102));
    let child = t2.snapshot(102).unwrap().clone();
    assert_eq!(child.parent_snapshot_id, Some(101));
    let parent = t2.snapshot(101).unwrap();
    assert!(child.sequence_number > parent.sequence_number);
    assert!(t2.validate());
}

#[test]
fn committing_a_snapshot_twice_is_rejected() {
    let t0 = base_metadata();
    let t1 = t0
        .with_snapshot(101, 1, "ml-1".to_string(), None)
        .unwrap();
    let err = t1
        .with_snapshot(101, 2, "ml-2".to_string(), None)
        .unwrap_err();
    assert_eq!(err, Error::ValidationFailure);
}

#[test]
fn validation_rejects_a_dangling_current_snapshot() {
    let mut bad = base_metadata();
    bad.current_snapshot_id = Some(7);
    assert!(!bad.validate());
    assert_eq!(
        Table::try_new(bad, "p".to_string(), vec![]).unwrap_err(),
        Error::InvalidMetadata
    );
}

#[test]
fn validation_rejects_a_parent_that_is_not_older() {
    let mut bad = base_metadata();
    bad.last_sequence_number = 2;
    bad.snapshots = vec![
        Snapshot {
            snapshot_id: 1,
            parent_snapshot_id: Some(2),
            sequence_number: 1,
            timestamp_ms: 0,
            manifest_list: "a".to_string(),
            schema_id: None,
        },
        Snapshot {
            snapshot_id: 2,
            parent_snapshot_id: None,
            sequence_number: 2,
            timestamp_ms: 0,
            manifest_list: "b".to_string(),
            schema_id: None,
        },
    ];
    bad.current_snapshot_id = Some(2);
    assert!(!bad.validate());
}

#[test]
fn manifest_filter_keeps_flagged_manifests_in_order() {
    let mut a = list_entry();
    a.manifest_path = "m1".to_string();
    let mut b = list_entry();
    b.manifest_path = "m2".to_string();
    let mut c = list_entry();
    c.manifest_path = "m3".to_string();

    let all = selected_manifests(vec![a.clone(), b.clone(), c.clone()], None);
    assert_eq!(all.len(), 3);
    assert_eq!(all[0].manifest_path, "m1");

    let none = selected_manifests(
        vec![a.clone(), b.clone(), c.clone()],
        Some(&vec![false, false, false]),
    );
    assert!(none.is_empty());

    let some = selected_manifests(
        vec![a.clone(), b.clone(), c.clone()],
        Some(&vec![true, false, true]),
    );
    assert_eq!(some.len(), 2);
    assert_eq!(some[0].manifest_path, "m1");
    assert_eq!(some[1].manifest_path, "m3");

    let truncated = selected_manifests(vec![a, b, c], Some(&vec![true]));
    assert_eq!(truncated.len(), 1);
    assert_eq!(truncated[0].manifest_path, "m1");
}

#[test]
fn header_round_trips_through_a_real_container() {
    let metadata = sample_metadata();
    let entries = metadata_user_entries(&metadata);

    let partition_schema = PartitionValues::schema(&ts_day_spec(), &day_schema()).unwrap();
    let raw_schema = ManifestEntry::schema(&partition_schema);
    let schema = apache_avro::Schema::parse_str(&raw_schema).unwrap();
    let mut writer = apache_avro::Writer::new(&schema, Vec::new()).unwrap();
    for (key, value) in entries {
        writer.add_user_metadata(key, value).unwrap();
    }
    let encoded = writer.into_inner().unwrap();

    let back = read_metadata(&encoded).unwrap();
    assert_eq!(back, metadata);
}

#[test]
fn test_partition_values() {
    let partition_values =
        PartitionValues::from_pairs(vec![("ts_day".to_owned(), Some(Value::Int(1)))]);

    let raw_schema = PartitionValues::schema(&ts_day_spec(), &day_schema()).unwrap();
    let schema = apache_avro::Schema::parse_str(&raw_schema).unwrap();

    let record = apache_avro::types::Value::Record(vec![(
        "ts_day".to_string(),
        apache_avro::types::Value::Union(
            1,
            Box::new(apache_avro::types::Value::Int(1)),
        ),
    )]);

    let mut writer = apache_avro::Writer::new(&schema, Vec::new()).unwrap();
    writer.append(record.clone()).unwrap();
    let encoded = writer.into_inner().unwrap();

    let reader = apache_avro::Reader::new(&*encoded).unwrap();
    let mut pairs: Vec<(String, Option<Value>)> = Vec::new();
    for read in reader {
        let apache_avro::types::Value::Record(fields) = read.unwrap() else {
            panic!("a record was written");
        };
        for (name, value) in fields {
            let decoded = match value {
                apache_avro::types::Value::Union(0, _) => None,
                apache_avro::types::Value::Union(1, inner) => match *inner {
                    apache_avro::types::Value::Int(x) => Some(Value::Int(x)),
                    other => panic!("unexpected field value {:?}", other),
                },
                other => panic!("unexpected field shape {:?}", other),
            };
            pairs.push((name, decoded));
        }
    }
    let result = PartitionValues::from_pairs(pairs);
    assert_eq!(partition_values, result);
}

fn union_some(v: apache_avro::types::Value) -> apache_avro::types::Value {
    apache_avro::types::Value::Union(1, Box::new(v))
}

fn union_null() -> apache_avro::types::Value {
    apache_avro::types::Value::Union(0, Box::new(apache_avro::types::Value::Null))
}

fn read_union(v: apache_avro::types::Value) -> Option<apache_avro::types::Value> {
    match v {
        apache_avro::types::Value::Union(0, _) => None,
        apache_avro::types::Value::Union(_, inner) => Some(*inner),
        other => panic!("expected a union, got {:?}", other),
    }
}

fn read_int(v: apache_avro::types::Value) -> i32 {
    match v {
        apache_avro::types::Value::Int(x) => x,
        other => panic!("expected an int, got {:?}", other),
    }
}

fn read_long(v: apache_avro::types::Value) -> i64 {
    match v {
        apache_avro::types::Value::Long(x) => x,
        other => panic!("expected a long, got {:?}", other),
    }
}

#[test]
fn test_roundtrip() {
    let manifest_file = list_entry();

    let summary_record = Av::Record(vec![
        ("contains_null".to_string(), Av::Boolean(true)),
        ("contains_nan".to_string(), union_some(Av::Boolean(false))),
        ("lower_bound".to_string(), union_null()),
        ("upper_bound".to_string(), union_null()),
    ]);
    let record = Av::Record(vec![
        ("manifest_path".to_string(), Av::String("".to_string())),
        ("manifest_length".to_string(), Av::Long(1200)),
        ("partition_spec_id".to_string(), Av::Int(0)),
        ("content".to_string(), union_some(Av::Int(0))),
        ("sequence_number".to_string(), union_some(Av::Long(566))),
        ("min_sequence_number".to_string(), union_some(Av::Long(0))),
        ("added_snapshot_id".to_string(), Av::Long(39487483032)),
        ("added_files_count".to_string(), union_some(Av::Int(1))),
        ("existing_files_count".to_string(), union_some(Av::Int(2))),
        ("deleted_files_count".to_string(), union_some(Av::Int(0))),
        ("added_rows_count".to_string(), union_some(Av::Long(1000))),
        ("existing_rows_count".to_string(), union_some(Av::Long(8000))),
        ("deleted_rows_count".to_string(), union_some(Av::Long(0))),
        ("partitions".to_string(), union_some(Av::Array(vec![summary_record]))),
        ("key_metadata".to_string(), union_null()),
    ]);

    let raw_schema = ManifestFile::schema();
    let schema = apache_avro::Schema::parse_str(&raw_schema).unwrap();
    let mut writer = apache_avro::Writer::new(&schema, Vec::new()).unwrap();
    writer.append(record).unwrap();
    let encoded = writer.into_inner().unwrap();

    let reader = apache_avro::Reader::new(&*encoded).unwrap();
    for read in reader {
        let Av::Record(fields) = read.unwrap() else {
            panic!("a record was written");
        };
        let mut by_name: std::collections::HashMap<String, Av> = fields.into_iter().collect();
        let mut take = |name: &str| by_name.remove(name).unwrap();
        let result = ManifestFile {
            manifest_path: match take("manifest_path") {
                Av::String(s) => s,
                other => panic!("expected a string, got {:?}", other),
            },
            manifest_length: read_long(take("manifest_length")),
            partition_spec_id: read_int(take("partition_spec_id")),
            content: read_union(take("content")).map(|v| match read_int(v) {
                0 => iceberg_core::manifest_list::Content::Data,
                1 => iceberg_core::manifest_list::Content::PositionDeletes,
                _ => iceberg_core::manifest_list::Content::EqualityDeletes,
            }),
            sequence_number: read_union(take("sequence_number")).map(read_long),
            min_sequence_number: read_union(take("min_sequence_number")).map(read_long),
            added_snapshot_id: read_long(take("added_snapshot_id")),
            added_files_count: read_union(take("added_files_count")).map(read_int),
            existing_files_count: read_union(take("existing_files_count")).map(read_int),
            deleted_files_count: read_union(take("deleted_files_count")).map(read_int),
            added_rows_count: read_union(take("added_rows_count")).map(read_long),
            existing_rows_count: read_union(take("existing_rows_count")).map(read_long),
            deleted_rows_count: read_union(take("deleted_rows_count")).map(read_long),
            partitions: read_union(take("partitions")).map(|v| match v {
                Av::Array(items) => items
                    .into_iter()
                    .map(|item| {
                        let Av::Record(summary_fields) = item else {
                            panic!("a field summary record was written");
                        };
                        let mut s: std::collections::HashMap<String, Av> =
                            summary_fields.into_iter().collect();
                        FieldSummary {
                            contains_null: match s.remove("contains_null").unwrap() {
                                Av::Boolean(b) => b,
                                other => panic!("expected a boolean, got {:?}", other),
                            },
                            contains_nan: read_union(s.remove("contains_nan").unwrap()).map(
                                |v| match v {
                                    Av::Boolean(b) => b,
                                    other => panic!("expected a boolean, got {:?}", other),
                                },
                            ),
                            lower_bound: read_union(s.remove("lower_bound").unwrap())
                                .map(|_| panic!("no bound was written")),
                            upper_bound: read_union(s.remove("upper_bound").unwrap())
                                .map(|_| panic!("no bound was written")),
                        }
                    })
                    .collect(),
                other => panic!("expected an array, got {:?}", other),
            }),
            key_metadata: read_union(take("key_metadata")).map(|_| panic!("none was written")),
        };
        assert_eq!(manifest_file, result);
    }
}

#[test]
fn a_container_without_the_schema_key_is_rejected() {
    let partition_schema = PartitionValues::schema(&ts_day_spec(), &day_schema()).unwrap();
    let raw_schema = ManifestEntry::schema(&partition_schema);
    let schema = apache_avro::Schema::parse_str(&raw_schema).unwrap();
    let mut writer = apache_avro::Writer::new(&schema, Vec::new()).unwrap();
    writer
        .add_user_metadata("schema-id".to_string(), "1")
        .unwrap();
    let encoded = writer.into_inner().unwrap();
    assert_eq!(read_metadata(&encoded).unwrap_err(), Error::InvalidMetadata);
}

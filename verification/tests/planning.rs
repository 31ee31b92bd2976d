use iceberg_core::catalog::CatalogPointer;
use iceberg_core::error::Error;
use iceberg_core::manifest::{DataFile, FileFormat, ManifestEntry, PartitionValues, Status};
use iceberg_core::manifest_list::ManifestFile;
use iceberg_core::scan::{
    build_scan_plan, group_files, object_store_url_string, partition_tuples_equal,
    scan_file_from_entry, table_statistics, timestamp_parts, ScanFile,
};
use iceberg_core::partition::{PartitionField, PartitionSpec, Transform};
use iceberg_core::schema::{AllType, PrimitiveType, StructField};
use iceberg_core::snapshot::TableMetadata;
use iceberg_core::table::Table;
use iceberg_core::value::Value;
use iceberg_core::view_builder::{
    filesystem_commit_paths, i64_to_dec_string, initial_view_metadata_at,
    metastore_metadata_path, u64_to_dec_string, ViewBuilder,
};
use iceberg_core::view_metadata::{Operation, Representation};
use iceberg_core::schema::{SchemaStruct, SchemaV2};

#[test]
fn cas_succeeds_only_from_the_expected_pointer() {
    let mut pointer = CatalogPointer::new("v1.metadata.json".to_string());
    pointer
        .update_table(&"v1.metadata.json".to_string(), &"v2.metadata.json".to_string())
        .unwrap();
    assert_eq!(pointer.path(), "v2.metadata.json");
    let err = pointer
        .update_table(&"v1.metadata.json".to_string(), &"v3.metadata.json".to_string())
        .unwrap_err();
    assert_eq!(err, Error::CommitConflict);
    assert_eq!(pointer.path(), "v2.metadata.json");
}

#[test]
fn exactly_one_of_two_racing_writers_wins() {
    let base = "v1.metadata.json".to_string();
    let mut pointer = CatalogPointer::new(base.clone());
    let first = pointer.update_table(&base, &"v2-a.metadata.json".to_string());
    let second = pointer.update_table(&base, &"v2-b.metadata.json".to_string());
    assert!(first.is_ok());
    assert_eq!(second.unwrap_err(), Error::CommitConflict);
    assert_eq!(pointer.path(), "v2-a.metadata.json");
}

#[test]
fn conflicted_writer_succeeds_after_reloading() {
    let base = "v1.metadata.json".to_string();
    let mut pointer = CatalogPointer::new(base.clone());
    pointer
        .update_table(&base, &"v2.metadata.json".to_string())
        .unwrap();
    let conflict = pointer.update_table(&base, &"v2-late.metadata.json".to_string());
    assert_eq!(conflict.unwrap_err(), Error::CommitConflict);
    let reloaded = pointer.path().clone();
    pointer
        .update_table(&reloaded, &"v3.metadata.json".to_string())
        .unwrap();
    assert_eq!(pointer.path(), "v3.metadata.json");
}

#[test]
fn decimal_strings_are_exact() {
    assert_eq!(u64_to_dec_string(0), "0");
    assert_eq!(u64_to_dec_string(12345), "12345");
    assert_eq!(u64_to_dec_string(u64::MAX), "18446744073709551615");
    assert_eq!(i64_to_dec_string(-42), "-42");
    assert_eq!(i64_to_dec_string(i64::MIN), "-9223372036854775808");
    assert_eq!(i64_to_dec_string(7), "7");
}

#[test]
fn commit_paths_follow_the_naming_scheme() {
    let (path, uuid) = metastore_metadata_path("warehouse/db/tbl", 3);
    assert_eq!(uuid.len(), 36);
    assert_eq!(path, format!("warehouse/db/tbl/metadata/3-{}.metadata.json", uuid));

    let (temp, publish) = filesystem_commit_paths("warehouse/db/tbl", 3);
    assert!(temp.starts_with("warehouse/db/tbl/metadata/"));
    assert!(temp.ends_with(".metadata.json"));
    assert_eq!(publish, "warehouse/db/tbl/metadata/v3.metadata.json");
    assert_ne!(temp, publish);
}

fn view_schema() -> SchemaV2 {
    SchemaV2 {
        schema_id: 1,
        identifier_field_ids: None,
        struct_fields: SchemaStruct { fields: vec![] },
    }
}

#[test]
fn new_filesystem_view_builds_the_initial_version() {
    let builder =
        ViewBuilder::new_filesystem_view("SELECT 1", "test/view", view_schema()).unwrap();
    let m = &builder.metadata;
    assert_eq!(m.location, "test/view");
    assert_eq!(m.current_version_id, 1);
    assert_eq!(m.current_schema_id, Some(1));
    assert_eq!(m.versions.len(), 1);
    let v = &m.versions[0];
    assert_eq!(v.version_id, 1);
    assert!(v.timestamp_ms >= 0);
    assert_eq!(v.summary.operation, Operation::Create);
    assert_eq!(v.summary.engine_version, None);
    assert_eq!(v.representations.len(), 1);
    match &v.representations[0] {
        Representation::Sql { sql, dialect, schema_id, .. } => {
            assert_eq!(sql, "SELECT 1");
            assert_eq!(dialect, "ANSI");
            assert_eq!(*schema_id, None);
        }
    }
    assert_eq!(m.version_log.len(), 1);
    assert_eq!(m.version_log[0].version_id, 1);
    let (temp, publish) = builder.commit_paths();
    assert!(temp.starts_with("test/view/metadata/"));
    assert_eq!(publish.unwrap(), "test/view/metadata/v1.metadata.json");
}

#[test]
fn new_metastore_view_targets_the_catalog() {
    let ns = iceberg_core::namespace::Namespace::empty();
    let id = iceberg_core::identifier::Identifier::try_new(ns, "v".to_string()).unwrap();
    let builder =
        ViewBuilder::new_metastore_view("SELECT 2", "warehouse/v", view_schema(), id).unwrap();
    assert_eq!(builder.metadata.location, "warehouse/v");
    let (path, publish) = builder.commit_paths();
    assert!(path.starts_with("warehouse/v/metadata/1-"));
    assert!(path.ends_with(".metadata.json"));
    assert!(publish.is_none());
}

#[test]
fn object_store_url_replaces_path_separators() {
    assert_eq!(object_store_url_string("test/append"), "tableformat://test-append");
    assert_eq!(object_store_url_string("plain"), "tableformat://plain");
    assert_eq!(
        object_store_url_string("entrep\u{f4}t/donn\u{e9}es"),
        "tableformat://entrep\u{f4}t-donn\u{e9}es"
    );
}

#[test]
fn timestamp_parts_split_milliseconds() {
    assert_eq!(timestamp_parts(1234567), (1234, 567_000_000));
    assert_eq!(timestamp_parts(0), (0, 0));
    assert_eq!(timestamp_parts(999), (0, 999_000_000));
}

fn scan_file(location: &str, day: i32) -> ScanFile {
    ScanFile {
        location: location.to_string(),
        size: 100,
        last_modified_ms: 0,
        partition_values: vec![Some(Value::Int(day))],
    }
}

#[test]
fn files_group_by_partition_tuple_in_first_occurrence_order() {
    let files = vec![
        scan_file("f1", 1),
        scan_file("f2", 2),
        scan_file("f3", 1),
        scan_file("f4", 3),
    ];
    let groups = group_files(files);
    assert_eq!(groups.len(), 3);
    assert_eq!(groups[0][0].location, "f1");
    assert_eq!(groups[0][1].location, "f3");
    assert_eq!(groups[1][0].location, "f2");
    assert_eq!(groups[2][0].location, "f4");
    for group in &groups {
        for file in group {
            assert!(partition_tuples_equal(
                &file.partition_values,
                &group[0].partition_values
            ));
        }
    }
}

#[test]
fn grouping_no_files_gives_no_groups() {
    let groups = group_files(vec![]);
    assert!(groups.is_empty());
}

fn counted_manifest(added: Option<i64>, existing: Option<i64>, deleted: Option<i64>) -> ManifestFile {
    ManifestFile {
        manifest_path: "m".to_string(),
        manifest_length: 1,
        partition_spec_id: 0,
        content: None,
        sequence_number: None,
        min_sequence_number: None,
        added_snapshot_id: 1,
        added_files_count: None,
        existing_files_count: None,
        deleted_files_count: None,
        added_rows_count: added,
        existing_rows_count: existing,
        deleted_rows_count: deleted,
        partitions: None,
        key_metadata: None,
    }
}

#[test]
fn statistics_sum_added_and_existing_less_deleted_rows() {
    let manifests = vec![
        counted_manifest(Some(1000), Some(8000), Some(0)),
        counted_manifest(Some(10), Some(0), Some(4)),
    ];
    let stats = table_statistics(&manifests, 2);
    assert_eq!(stats.num_rows, Some(9006));
    assert!(stats.is_exact);
    assert_eq!(stats.column_count, 2);
    assert_eq!(stats.total_byte_size, None);
}

#[test]
fn a_missing_count_poisons_the_estimate() {
    let manifests = vec![
        counted_manifest(Some(1000), Some(8000), Some(0)),
        counted_manifest(Some(10), None, Some(4)),
    ];
    let stats = table_statistics(&manifests, 1);
    assert_eq!(stats.num_rows, None);
    assert!(!stats.is_exact);
}

#[test]
fn an_overflowing_sum_poisons_the_estimate() {
    let manifests = vec![
        counted_manifest(Some(i64::MAX), Some(0), Some(0)),
        counted_manifest(Some(i64::MAX), Some(0), Some(0)),
    ];
    let stats = table_statistics(&manifests, 1);
    assert_eq!(stats.num_rows, None);
    assert!(!stats.is_exact);
}

#[test]
fn empty_table_scans_zero_rows_exactly() {
    let stats = table_statistics(&vec![], 0);
    assert_eq!(stats.num_rows, Some(0));
    assert!(stats.is_exact);
}

#[test]
fn scan_plans_group_files_and_aggregate_statistics() {
    let metadata = TableMetadata {
        location: "test/append".to_string(),
        last_sequence_number: 0,
        last_updated_ms: 0,
        schema: SchemaV2 {
            schema_id: 0,
            identifier_field_ids: None,
            struct_fields: SchemaStruct {
                fields: vec![StructField {
                    id: 4,
                    name: "day".to_owned(),
                    required: false,
                    field_type: AllType::Primitive(PrimitiveType::Int),
                    doc: None,
                }],
            },
        },
        default_spec: PartitionSpec {
            spec_id: 0,
            fields: vec![PartitionField {
                source_id: 4,
                field_id: 1000,
                name: "ts_day".to_string(),
                transform: Transform::Day,
            }],
        },
        current_snapshot_id: None,
        snapshots: vec![],
        snapshot_log: vec![],
    };
    let manifests = vec![counted_manifest(Some(5), Some(0), Some(0))];
    let table = Table::try_new(metadata, "p".to_string(), manifests).unwrap();
    let files = vec![scan_file("f1", 1), scan_file("f2", 1), scan_file("f3", 2)];
    let plan = build_scan_plan(&table, files);
    assert_eq!(plan.object_store_url, "tableformat://test-append");
    assert_eq!(plan.partition_columns, vec!["ts_day".to_string()]);
    assert_eq!(plan.file_groups.len(), 2);
    assert_eq!(plan.statistics.num_rows, Some(5));
    assert_eq!(plan.statistics.column_count, 1);
}

#[test]
fn a_scan_file_copies_the_entry_fields() {
    let entry = ManifestEntry {
        status: Status::Added,
        snapshot_id: None,
        sequence_number: None,
        data_file: DataFile {
            content: None,
            file_path: "test/append/data/file1.parquet".to_string(),
            file_format: FileFormat::Parquet,
            partition: PartitionValues::from_pairs(vec![(
                "ts_day".to_string(),
                Some(Value::Int(1)),
            )]),
            record_count: 4,
            file_size_in_bytes: 1200,
            block_size_in_bytes: None,
            file_ordinal: None,
            sort_columns: None,
            column_sizes: None,
            value_counts: None,
            null_value_counts: None,
            nan_value_counts: None,
            distinct_counts: None,
            lower_bounds: None,
            upper_bounds: None,
            key_metadata: None,
            split_offsets: None,
            equality_ids: None,
            sort_order_id: None,
        },
    };
    let file = scan_file_from_entry(&entry, 1_600_000_000_000);
    assert_eq!(file.location, "test/append/data/file1.parquet");
    assert_eq!(file.size, 1200);
    assert_eq!(file.last_modified_ms, 1_600_000_000_000);
    assert_eq!(file.partition_values, vec![Some(Value::Int(1))]);
}

#[test]
fn the_initial_view_version_carries_the_given_time() {
    let m = initial_view_metadata_at("SELECT 3", "test/view", view_schema(), 1234);
    assert_eq!(m.versions.len(), 1);
    assert_eq!(m.versions[0].timestamp_ms, 1234);
    assert_eq!(m.version_log[0].timestamp_ms, 1234);
    assert_eq!(m.current_version_id, 1);
}

use iceberg_core::error::Error;
use iceberg_core::manifest::{AvroMap, FileFormat, PartitionValues, Status};
use iceberg_core::namespace::Namespace;
use iceberg_core::schema::PrimitiveType;
use iceberg_core::identifier::Identifier;
use iceberg_core::value::{decode_value, encode_value, values_equal, PrimitiveKind, Value};

#[test]
fn namespace_rejects_empty_level() {
    let levels = vec!["db".to_string(), "".to_string()];
    let result = Namespace::try_new(&levels);
    assert_eq!(result.unwrap_err(), Error::InvalidMetadata);
}

#[test]
fn namespace_keeps_levels() {
    let levels = vec!["db".to_string(), "tables".to_string()];
    let ns = Namespace::try_new(&levels).unwrap();
    assert_eq!(ns.len(), 2);
    assert_eq!(ns.levels(), &levels[..]);
    for level in ns.levels() {
        assert!(!level.is_empty());
    }
}

#[test]
fn namespace_empty_is_root_sentinel() {
    let ns = Namespace::empty();
    assert_eq!(ns.len(), 0);
    assert!(ns.levels().is_empty());
}

#[test]
fn identifier_requires_name() {
    let ns = Namespace::empty();
    let err = Identifier::try_new(ns, "".to_string()).unwrap_err();
    assert_eq!(err, Error::InvalidMetadata);
    let ns = Namespace::empty();
    let id = Identifier::try_new(ns, "orders".to_string()).unwrap();
    assert_eq!(id.name(), "orders");
}

#[test]
fn value_int_encoding_is_little_endian() {
    assert_eq!(encode_value(&Value::Int(1)), vec![1, 0, 0, 0]);
    assert_eq!(encode_value(&Value::Int(-1)), vec![255, 255, 255, 255]);
    assert_eq!(encode_value(&Value::Long(258)), vec![2, 1, 0, 0, 0, 0, 0, 0]);
    assert_eq!(encode_value(&Value::Boolean(true)), vec![1]);
    assert_eq!(encode_value(&Value::Boolean(false)), vec![0]);
    assert_eq!(encode_value(&Value::Text("abc".to_string())), b"abc".to_vec());
    assert_eq!(encode_value(&Value::Bytes(vec![9, 8])), vec![9, 8]);
}

#[test]
fn value_codec_round_trips_every_primitive() {
    let values = vec![
        Value::Boolean(true),
        Value::Boolean(false),
        Value::Int(-7),
        Value::Long(i64::MIN),
        Value::Date(19723),
        Value::Time(86_399_999_999),
        Value::Timestamp(1_700_000_000_000_000),
        Value::TimestampTz(-5),
        Value::Text("partition value".to_string()),
        Value::Bytes(vec![0, 1, 2, 255]),
        Value::Fixed(vec![7; 16]),
    ];
    for v in values {
        let bytes = encode_value(&v);
        let back = decode_value(&bytes, v.kind()).unwrap();
        assert_eq!(back, v);
    }
}

#[test]
fn value_decode_rejects_malformed_bytes() {
    assert_eq!(
        decode_value(&[1, 2, 3], PrimitiveKind::Int).unwrap_err(),
        Error::InvalidMetadata
    );
    assert_eq!(
        decode_value(&[2], PrimitiveKind::Boolean).unwrap_err(),
        Error::InvalidMetadata
    );
    assert_eq!(
        decode_value(&[0xff, 0xfe], PrimitiveKind::Text).unwrap_err(),
        Error::InvalidMetadata
    );
}

#[test]
fn values_equal_is_structural() {
    assert!(values_equal(&Value::Int(3), &Value::Int(3)));
    assert!(!values_equal(&Value::Int(3), &Value::Long(3)));
    assert!(values_equal(
        &Value::Text("a".to_string()),
        &Value::Text("a".to_string())
    ));
    assert!(!values_equal(&Value::Bytes(vec![1]), &Value::Bytes(vec![2])));
}

#[test]
fn file_format_names_round_trip() {
    for f in [FileFormat::Avro, FileFormat::Orc, FileFormat::Parquet] {
        assert_eq!(FileFormat::parse(f.as_str()).unwrap(), f);
    }
    assert_eq!(FileFormat::parse("CSV").unwrap_err(), Error::Unsupported);
}

#[test]
fn status_codes_round_trip() {
    for s in [Status::Existing, Status::Added, Status::Deleted] {
        assert_eq!(Status::from_code(s.code()).unwrap(), s);
    }
    assert_eq!(Status::from_code(3).unwrap_err(), Error::InvalidMetadata);
}

#[test]
fn partition_values_pairs_round_trip() {
    let pairs = vec![
        ("ts_day".to_string(), Some(Value::Int(1))),
        ("region".to_string(), None),
    ];
    let pv = PartitionValues::from_pairs(pairs.clone());
    assert_eq!(pv.len(), 2);
    assert_eq!(pv.to_pairs(), pairs);
    assert_eq!(pv.get("ts_day"), Some(&Some(Value::Int(1))));
    assert_eq!(pv.get("region"), Some(&None));
    assert_eq!(pv.get("missing"), None);
    assert_eq!(pv.iter().len(), 2);
    assert_eq!(pv.iter()[0], Some(Value::Int(1)));
}

#[test]
fn partition_values_last_pair_wins_on_lookup() {
    let pairs = vec![
        ("k".to_string(), Some(Value::Int(1))),
        ("k".to_string(), Some(Value::Int(2))),
    ];
    let pv = PartitionValues::from_pairs(pairs.clone());
    assert_eq!(pv.to_pairs(), pairs);
    assert_eq!(pv.get("k"), Some(&Some(Value::Int(2))));
}

#[test]
fn avro_map_keeps_entries_and_rejects_duplicates() {
    let map = AvroMap::from_entries(vec![(1, 10i64), (2, 20i64)]).unwrap();
    assert_eq!(map.len(), 2);
    assert_eq!(map.get(1), Some(&10));
    assert_eq!(map.get(2), Some(&20));
    assert_eq!(map.get(3), None);
    assert_eq!(map.entries(), &vec![(1, 10), (2, 20)]);
    let err = AvroMap::from_entries(vec![(1, 10i64), (1, 20i64)]).unwrap_err();
    assert_eq!(err, Error::InvalidMetadata);
}

#[test]
fn primitive_type_names_round_trip() {
    let types = [
        PrimitiveType::Boolean,
        PrimitiveType::Int,
        PrimitiveType::Long,
        PrimitiveType::Float,
        PrimitiveType::Double,
        PrimitiveType::Date,
        PrimitiveType::Time,
        PrimitiveType::Timestamp,
        PrimitiveType::Timestamptz,
        PrimitiveType::Text,
        PrimitiveType::Uuid,
        PrimitiveType::Binary,
    ];
    for t in types {
        assert_eq!(PrimitiveType::parse(t.name()).unwrap(), t);
    }
    assert_eq!(PrimitiveType::parse("decimal").unwrap_err(), Error::Unsupported);
}

use cql_stress::distribution::Distribution;
use cql_stress::row::RowGeneratorFactory;
use cql_stress::validate::ValidationError;
use cql_stress::validate::validate_row;
use cql_stress::value::Value;

/// A write pass stores the row for partition-key seed 5 under a
/// Sequential(1, 100) distribution; a read pass drawing seed 5 from any
/// distribution over that range regenerates and validates it.
#[test]
fn validation_succeeds_for_matching_seed() {
    let write_factory = RowGeneratorFactory::with_distribution(
        Distribution::new_sequential(1, 100).expect("non-empty range"),
    );
    let mut writer = write_factory.create();
    let mut written = Vec::new();
    for _ in 0..5 {
        written = writer.generate_row();
    }

    let read_factory = RowGeneratorFactory::with_distribution(Distribution::new_fixed(5));
    let mut reader = read_factory.create();
    let expected = reader.generate_row();

    assert!(validate_row(&expected, &Some(written)).is_ok());
}

#[test]
fn validation_reports_corrupted_column() {
    let mut writer = RowGeneratorFactory::new(Some(100)).create();
    let mut written = writer.generate_row();
    match &mut written[2] {
        Value::Blob(bytes) => bytes[0] ^= 0xff,
        Value::Text(_) => panic!("columns must be raw blobs"),
    }

    let mut reader = RowGeneratorFactory::new(Some(100)).create();
    let expected = reader.generate_row();
    let expected_key = expected[0].clone();

    match validate_row(&expected, &Some(written)) {
        Err(ValidationError::ColumnMismatch { partition_key, column_index }) => {
            assert_eq!(column_index, 2);
            assert_eq!(partition_key, expected_key);
        }
        other => panic!("expected a column mismatch, got {other:?}"),
    }
}

#[test]
fn validation_reports_missing_row() {
    let factory = RowGeneratorFactory::new(Some(100));
    let mut reader = factory.create();
    let expected = reader.generate_row();
    let expected_key = expected[0].clone();

    match validate_row(&expected, &None) {
        Err(ValidationError::MissingRow { partition_key }) => {
            assert_eq!(partition_key, expected_key);
        }
        other => panic!("expected a missing row, got {other:?}"),
    }
}

#[test]
fn validation_reports_column_count_mismatch() {
    let mut writer = RowGeneratorFactory::new(Some(100)).create();
    let mut written = writer.generate_row();
    written.pop();

    let mut reader = RowGeneratorFactory::new(Some(100)).create();
    let expected = reader.generate_row();

    match validate_row(&expected, &Some(written)) {
        Err(ValidationError::ColumnCountMismatch { expected: e, actual: a, .. }) => {
            assert_eq!(e, 6);
            assert_eq!(a, 5);
        }
        other => panic!("expected a column count mismatch, got {other:?}"),
    }
}

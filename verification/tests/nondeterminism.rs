use std::collections::HashMap;

use cql_stress::distribution::Distribution;
use cql_stress::row::RowGeneratorFactory;
use cql_stress::validate::validate_row;
use cql_stress::value::Value;

/// Writing and reading with non-deterministic seed distributions from
/// disjoint invocations (modeled as two different entropy seeds) makes
/// validation fail almost always once the partition domain is large.
#[test]
fn nondeterministic_write_then_read_mostly_fails_validation() {
    const PARTITIONS: usize = 1000;
    const DOMAIN_END: i64 = 1_000_000;

    let write_factory = RowGeneratorFactory::with_distribution(
        Distribution::new_uniform(1, DOMAIN_END, 0xdead_beef).expect("non-empty range"),
    );
    let mut writer = write_factory.create();
    let mut stored: HashMap<String, Vec<Value>> = HashMap::new();
    for _ in 0..PARTITIONS {
        let row = writer.generate_row();
        let key = match &row[0] {
            Value::Text(k) => k.clone(),
            Value::Blob(_) => panic!("the partition key must be hex text"),
        };
        stored.insert(key, row);
    }

    let read_factory = RowGeneratorFactory::with_distribution(
        Distribution::new_uniform(1, DOMAIN_END, 0x1234_5678).expect("non-empty range"),
    );
    let mut reader = read_factory.create();
    let mut failures = 0usize;
    for _ in 0..PARTITIONS {
        let expected = reader.generate_row();
        let key = match &expected[0] {
            Value::Text(k) => k.clone(),
            Value::Blob(_) => panic!("the partition key must be hex text"),
        };
        let actual = stored.get(&key).cloned();
        if validate_row(&expected, &actual).is_err() {
            failures += 1;
        }
    }

    assert!(
        failures * 10 >= PARTITIONS * 9,
        "expected over 90% validation failures, found {failures} of {PARTITIONS}"
    );
}

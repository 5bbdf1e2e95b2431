use cql_stress::distribution::Distribution;
use cql_stress::hex::hex_string;
use cql_stress::row::RowGeneratorFactory;
use cql_stress::value::Value;

#[test]
fn hex_encoding_known_values() {
    let s = hex_string(&vec![0x00, 0xff, 0x1a]);
    assert_eq!(s, "00ff1a");
    assert_eq!(hex_string(&vec![]), "");
    assert_eq!(hex_string(&vec![0xde, 0xad, 0xbe, 0xef]), "deadbeef");
}

#[test]
fn row_has_default_shape() {
    let factory = RowGeneratorFactory::new(Some(100));
    let mut generator = factory.create();
    let row = generator.generate_row();
    assert_eq!(row.len(), 6);
    match &row[0] {
        Value::Text(key) => {
            assert_eq!(key.len(), 20);
            assert!(key.chars().all(|c| c.is_ascii_hexdigit() && !c.is_ascii_uppercase()));
        }
        Value::Blob(_) => panic!("the partition key must be hex text"),
    }
    for column in &row[1..] {
        match column {
            Value::Blob(bytes) => assert_eq!(bytes.len(), 34),
            Value::Text(_) => panic!("columns must be raw blobs"),
        }
    }
}

#[test]
fn same_seed_gives_same_row() {
    let factory = RowGeneratorFactory::new(None);
    let mut gen_a = factory.create();
    let mut gen_b = factory.create();
    let row_a = gen_a.generate_row_with_seed(5);
    let row_b = gen_b.generate_row_with_seed(5);
    assert_eq!(row_a, row_b);
}

#[test]
fn different_seeds_give_different_keys() {
    let factory = RowGeneratorFactory::new(None);
    let mut generator = factory.create();
    let row_a = generator.generate_row_with_seed(5);
    let row_b = generator.generate_row_with_seed(6);
    assert_ne!(row_a[0], row_b[0]);
}

#[test]
fn workers_share_one_seed_stream() {
    let factory = RowGeneratorFactory::new(Some(100));
    let mut worker_a = factory.create();
    let mut worker_b = factory.create();
    let row_a = worker_a.generate_row();
    let row_b = worker_b.generate_row();
    // The sequential distribution is shared, so the second worker draws the
    // next seed, not the same one again.
    assert_ne!(row_a[0], row_b[0]);
}

#[test]
fn fixed_distribution_repeats_its_value() {
    let mut d = Distribution::new_fixed(7);
    for _ in 0..5 {
        assert_eq!(d.next_i64(), 7);
    }
    assert!(d.is_deterministic());
}

#[test]
fn sequential_distribution_cycles_inclusive() {
    let mut d = Distribution::new_sequential(1, 3).expect("non-empty range");
    let drawn: Vec<i64> = (0..7).map(|_| d.next_i64()).collect();
    assert_eq!(drawn, vec![1, 2, 3, 1, 2, 3, 1]);
    assert!(d.is_deterministic());
}

#[test]
fn sequential_rejects_empty_range() {
    assert!(Distribution::new_sequential(5, 4).is_err());
}

#[test]
fn uniform_stays_in_range_and_depends_on_entropy() {
    let mut d1 = Distribution::new_uniform(1, 100, 11).expect("non-empty range");
    let mut d2 = Distribution::new_uniform(1, 100, 11).expect("non-empty range");
    let mut d3 = Distribution::new_uniform(1, 100, 12).expect("non-empty range");
    assert!(!d1.is_deterministic());
    let a: Vec<i64> = (0..50).map(|_| d1.next_i64()).collect();
    let b: Vec<i64> = (0..50).map(|_| d2.next_i64()).collect();
    let c: Vec<i64> = (0..50).map(|_| d3.next_i64()).collect();
    assert!(a.iter().all(|v| (1..=100).contains(v)));
    assert_eq!(a, b);
    assert_ne!(a, c);
}

#[test]
fn uniform_rejects_empty_range() {
    assert!(Distribution::new_uniform(10, 9, 0).is_err());
}

#[test]
fn descriptions_render_parameters() {
    assert_eq!(Distribution::new_fixed(7).describe(), "FIXED(7)");
    assert_eq!(Distribution::new_fixed(0).describe(), "FIXED(0)");
    assert_eq!(Distribution::new_fixed(-12).describe(), "FIXED(-12)");
    assert_eq!(
        Distribution::new_fixed(i64::MIN).describe(),
        "FIXED(-9223372036854775808)"
    );
    assert_eq!(
        Distribution::new_sequential(1, 100).unwrap().describe(),
        "SEQ(1..100)"
    );
    assert_eq!(
        Distribution::new_uniform(-5, 5, 3).unwrap().describe(),
        "UNIFORM(-5..5)"
    );
}

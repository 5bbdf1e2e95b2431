use cql_stress::distribution::ConfigError;
use cql_stress::distribution::Distribution;
use cql_stress::derive_column_seed;
use cql_stress::generator::Generator;
use cql_stress::generator::GeneratorKind;
use cql_stress::row::RowGeneratorFactory;
use cql_stress::value::Value;

fn blob_generator(size: i64) -> Generator {
    Generator::new(
        GeneratorKind::Blob,
        String::from("column"),
        Distribution::new_fixed(size),
    )
    .expect("a fixed positive size is a valid configuration")
}

#[test]
fn rows_identical_across_independent_instances() {
    let factory_a = RowGeneratorFactory::new(Some(10));
    let factory_b = RowGeneratorFactory::new(Some(10));
    let mut gen_a = factory_a.create();
    let mut gen_b = factory_b.create();
    for _ in 0..10 {
        let row_a = gen_a.generate_row();
        let row_b = gen_b.generate_row();
        assert_eq!(row_a, row_b);
    }
}

#[test]
fn value_generator_reproducible_after_reseed() {
    let mut g = blob_generator(34);
    g.set_seed(42);
    let first = g.generate();
    g.set_seed(42);
    let second = g.generate();
    assert_eq!(first, second);
    match first {
        Value::Blob(b) => assert_eq!(b.len(), 34),
        Value::Text(_) => panic!("a blob generator must produce a blob"),
    }
}

#[test]
fn different_seeds_give_different_values() {
    let mut g = blob_generator(34);
    g.set_seed(1);
    let first = g.generate();
    g.set_seed(2);
    let second = g.generate();
    assert_ne!(first, second);
}

#[test]
fn generator_rejects_non_positive_size() {
    let rejected = Generator::new(
        GeneratorKind::Blob,
        String::from("column"),
        Distribution::new_fixed(0),
    );
    assert_eq!(rejected.err(), Some(ConfigError::InvalidSize { low: 0, high: 0 }));
    let negative = Generator::new(
        GeneratorKind::Blob,
        String::from("column"),
        Distribution::new_fixed(-3),
    );
    assert!(negative.is_err());
}

#[test]
fn seed_derivation_is_pure() {
    let key: Vec<u8> = vec![9, 8, 7, 6, 5];
    let a = derive_column_seed(0, &key);
    let b = derive_column_seed(0, &key);
    assert_eq!(a, b);
}

#[test]
fn seed_derivation_known_values() {
    assert_eq!(derive_column_seed(0, &vec![]), 0);
    assert_eq!(derive_column_seed(0, &vec![1]), 1);
    assert_eq!(derive_column_seed(0, &vec![1, 2]), 33);
    assert_eq!(derive_column_seed(5, &vec![]), 5);
    assert_eq!(derive_column_seed(1, &vec![0, 0]), 961);
}

#[test]
fn seed_derivation_collision_rate_is_low() {
    let mut key_source = Generator::new(
        GeneratorKind::HexText,
        String::from("key"),
        Distribution::new_fixed(10),
    )
    .expect("a fixed positive size is a valid configuration");
    let mut seeds: Vec<i64> = Vec::new();
    for i in 0..10_000i64 {
        key_source.set_seed(i + 1);
        let bytes = key_source.expand_next();
        seeds.push(derive_column_seed(0, &bytes));
    }
    seeds.sort();
    let mut collisions = 0usize;
    for w in seeds.windows(2) {
        if w[0] == w[1] {
            collisions += 1;
        }
    }
    assert!(
        collisions < 100,
        "expected fewer than 1% colliding column seeds, found {collisions}"
    );
}

//! Row generation: one shared partition-key-seed sampler, one exclusively
//! owned partition-key generator, and an ordered sequence of column
//! generators, composed into reproducible full rows.
//!
//! Per row: sample `pk_seed` from the shared distribution, reseed the key
//! generator with it and expand the key, fold the raw key bytes into the
//! column seed, then reseed every column generator with that seed and
//! generate the columns in declared order. As long as the shared distribution
//! is deterministic, the multiset of rows a run produces is a pure function
//! of the configuration, so an independent read pass can regenerate and
//! validate the dataset.
use vstd::prelude::*;
use vstd::string::StringExecFns;

use crate::derive_column_seed;
use crate::distribution::DistDesc;
use crate::distribution::Distribution;
use crate::generator::Generator;
use crate::generator::GeneratorKind;
use crate::generator::spec_encode;
use crate::generator::spec_stream;
use crate::hex::hex_string;
use crate::hex::spec_hex;
use crate::shared_dist::SharedDistribution;
use crate::spec_derive_column_seed;
use crate::value::Value;
use crate::value::ValueModel;
use crate::value::row_model;

verus! {

/// Bytes of a generated partition key before hex encoding.
pub const DEFAULT_KEY_SIZE: i64 = 10;

/// Bytes of each generated column blob.
pub const DEFAULT_COLUMN_SIZE: i64 = 34;

/// Number of generated columns besides the partition key.
pub const DEFAULT_COLUMN_COUNT: usize = 5;

/// Upper end of the partition-key-seed range when no operation count bounds
/// the run.
pub const DEFAULT_SEQ_RANGE_END: i64 = 1000000;

/// The column seed of the row whose partition-key seed is `s`: the raw key
/// bytes folded over base seed `0`.
pub open spec fn spec_row_column_seed(pg: Generator, s: i64) -> i64 {
    spec_derive_column_seed(0, spec_stream(s, pg.size.spec_next_value() as nat))
}

/// The row generated for partition-key seed `s`: element 0 the hex-encoded
/// key, then every column in declared order, each expanded from the column
/// seed.
pub open spec fn spec_row_parts(pg: Generator, cols: Seq<Generator>, s: i64) -> Seq<ValueModel> {
    let key_bytes = spec_stream(s, pg.size.spec_next_value() as nat);
    let cseed = spec_row_column_seed(pg, s);
    Seq::new(
        1 + cols.len(),
        |i: int|
            if i == 0 {
                ValueModel::Text(spec_hex(key_bytes))
            } else {
                spec_encode(
                    cols[i - 1].kind,
                    spec_stream(cseed, cols[i - 1].size.spec_next_value() as nat),
                )
            },
    )
}

/// The partition-key generator after producing the key for seed `s`.
pub open spec fn spec_stepped_pk(pg: Generator, s: i64) -> Generator {
    Generator { kind: pg.kind, name: pg.name, size: pg.size.spec_step(), seed: s }
}

/// The column generators after producing one row with column seed `cseed`.
pub open spec fn spec_stepped_cols(cols: Seq<Generator>, cseed: i64) -> Seq<Generator> {
    cols.map_values(
        |g: Generator| Generator { kind: g.kind, name: g.name, size: g.size.spec_step(), seed: cseed },
    )
}

/// A per-worker row generator. The seed distribution is shared with every
/// other worker of the run; the generators are exclusively owned.
pub struct RowGenerator {
    pub pk_seed_distribution: SharedDistribution,
    pub pk_generator: Generator,
    pub column_generators: Vec<Generator>,
}

impl RowGenerator {
    /// Validity: a hex-text key generator and blob column generators, all
    /// with valid size distributions.
    pub open spec fn wf(self) -> bool {
        &&& self.pk_generator.wf()
        &&& self.pk_generator.kind == GeneratorKind::HexText
        &&& forall|i: int|
            0 <= i < self.column_generators@.len() ==> (#[trigger] self.column_generators@[i]).wf()
                && self.column_generators@[i].kind == GeneratorKind::Blob
    }

    /// Generates the row for a given partition-key seed, without touching the
    /// shared distribution: the deterministic core of row generation, and the
    /// read side's way to regenerate an expected row.
    #[verifier::rlimit(100)]
    pub fn generate_row_with_seed(&mut self, pk_seed: i64) -> (r: Vec<Value>)
        requires
            old(self).wf(),
        ensures
            final(self).wf(),
            r@.len() == 1 + old(self).column_generators@.len(),
            row_model(r@) == spec_row_parts(
                old(self).pk_generator,
                old(self).column_generators@,
                pk_seed,
            ),
            final(self).pk_seed_distribution == old(self).pk_seed_distribution,
            final(self).pk_generator == spec_stepped_pk(old(self).pk_generator, pk_seed),
            final(self).column_generators@ == spec_stepped_cols(
                old(self).column_generators@,
                spec_row_column_seed(old(self).pk_generator, pk_seed),
            ),
    {
        let ghost pre = *self;
        let ghost expected = spec_row_parts(pre.pk_generator, pre.column_generators@, pk_seed);
        let ghost cseed = spec_row_column_seed(pre.pk_generator, pk_seed);
        let ghost stepped = spec_stepped_cols(pre.column_generators@, cseed);
        self.pk_generator.set_seed(pk_seed);
        let key_bytes = self.pk_generator.expand_next();
        let key = Value::Text(hex_string(&key_bytes));
        let columns_seed = derive_column_seed(0, &key_bytes);
        proof {
            assert(columns_seed == cseed);
            assert(expected.len() == 1 + pre.column_generators@.len());
            assert(key@ == expected[0]);
        }
        let mut result: Vec<Value> = Vec::new();
        result.push(key);
        let n = self.column_generators.len();
        let mut i: usize = 0;
        while i < n
            invariant
                pre.wf(),
                0 <= i <= n,
                n == pre.column_generators@.len(),
                self.column_generators@.len() == n,
                self.pk_seed_distribution == pre.pk_seed_distribution,
                self.pk_generator == spec_stepped_pk(pre.pk_generator, pk_seed),
                columns_seed == cseed,
                cseed == spec_row_column_seed(pre.pk_generator, pk_seed),
                stepped == spec_stepped_cols(pre.column_generators@, cseed),
                expected == spec_row_parts(pre.pk_generator, pre.column_generators@, pk_seed),
                stepped.len() == n,
                expected.len() == 1 + n,
                forall|j: int|
                    0 <= j < i ==> #[trigger] self.column_generators@[j] == stepped[j],
                forall|j: int|
                    i <= j < n ==> #[trigger] self.column_generators@[j]
                        == pre.column_generators@[j],
                result@.len() == 1 + i,
                forall|j: int| 0 <= j <= i ==> #[trigger] result@[j]@ == expected[j],
            decreases n - i,
        {
            proof {
                assert(pre.column_generators@[i as int].wf());
            }
            self.column_generators[i].set_seed(columns_seed);
            let v = self.column_generators[i].generate();
            proof {
                assert(v@ == expected[i + 1]);
                assert(self.column_generators@[i as int] == stepped[i as int]);
            }
            result.push(v);
            i += 1;
        }
        proof {
            assert(self.column_generators@ =~= stepped);
            assert(row_model(result@) =~= expected);
        }
        result
    }

    /// Generates one full row: samples the partition-key seed from the shared
    /// distribution and produces the row for it. Which seed this call drew is
    /// unspecified under concurrency, so the row is pinned relative to some
    /// seed the distribution can output.
    pub fn generate_row(&mut self) -> (r: Vec<Value>)
        requires
            old(self).wf(),
        ensures
            final(self).wf(),
            r@.len() == 1 + old(self).column_generators@.len(),
            final(self).pk_seed_distribution == old(self).pk_seed_distribution,
            exists|s: i64|
                #![auto]
                {
                    &&& old(self).pk_seed_distribution.desc().can_output(s)
                    &&& row_model(r@) == spec_row_parts(
                        old(self).pk_generator,
                        old(self).column_generators@,
                        s,
                    )
                    &&& final(self).pk_generator == spec_stepped_pk(old(self).pk_generator, s)
                    &&& final(self).column_generators@ == spec_stepped_cols(
                        old(self).column_generators@,
                        spec_row_column_seed(old(self).pk_generator, s),
                    )
                },
    {
        let pk_seed = self.pk_seed_distribution.next();
        let r = self.generate_row_with_seed(pk_seed);
        r
    }
}

/// Builds one independent row generator per concurrent worker, each sharing
/// the run's partition-key-seed distribution and using the default generator
/// configuration: a 10-byte hex-encoded key and five 34-byte blob columns.
pub struct RowGeneratorFactory {
    pub pk_seed_distribution: SharedDistribution,
}

impl RowGeneratorFactory {
    /// Sets up the run's shared seed distribution: sequential over `1..=n`
    /// for an operation count of `n`, over the default range when the run is
    /// unbounded.
    pub fn new(operation_count: Option<u64>) -> (r: RowGeneratorFactory)
        requires
            operation_count matches Some(c) ==> 1 <= c <= i64::MAX as u64,
        ensures
            r.pk_seed_distribution.desc() == (DistDesc::Sequential {
                start: 1,
                end: match operation_count {
                    Some(c) => c as i64,
                    None => DEFAULT_SEQ_RANGE_END,
                },
            }),
    {
        let end: i64 = match operation_count {
            Some(c) => c as i64,
            None => DEFAULT_SEQ_RANGE_END,
        };
        let dist = match Distribution::new_sequential(1, end) {
            Ok(d) => d,
            Err(_) => Distribution::Fixed { value: 1 },
        };
        RowGeneratorFactory { pk_seed_distribution: SharedDistribution::new(dist) }
    }

    /// A factory over an explicitly configured shared seed distribution; a
    /// write pass picks a deterministic one so that a later read pass can
    /// regenerate the dataset.
    pub fn with_distribution(d: Distribution) -> (r: RowGeneratorFactory)
        requires
            d.wf(),
        ensures
            r.pk_seed_distribution.desc() == d.desc(),
    {
        RowGeneratorFactory { pk_seed_distribution: SharedDistribution::new(d) }
    }

    /// Manufactures one row generator for a worker: a fresh 10-byte hex key
    /// generator and five fresh 34-byte blob column generators, sharing the
    /// factory's seed distribution.
    pub fn create(&self) -> (r: RowGenerator)
        ensures
            r.wf(),
            r.pk_seed_distribution.desc() == self.pk_seed_distribution.desc(),
            r.pk_generator.kind == GeneratorKind::HexText,
            r.pk_generator.size == (Distribution::Fixed { value: DEFAULT_KEY_SIZE }),
            r.pk_generator.seed == 0,
            r.pk_generator.name@ == "randomstrkey"@,
            r.column_generators@.len() == DEFAULT_COLUMN_COUNT,
            forall|i: int|
                0 <= i < r.column_generators@.len() ==> {
                    let g = #[trigger] r.column_generators@[i];
                    g.kind == GeneratorKind::Blob && g.size == (Distribution::Fixed {
                        value: DEFAULT_COLUMN_SIZE,
                    }) && g.seed == 0
                },
    {
        let pk_generator = Self::make_generator(
            GeneratorKind::HexText,
            String::from_str("randomstrkey"),
            DEFAULT_KEY_SIZE,
        );
        let mut column_generators: Vec<Generator> = Vec::new();
        column_generators.push(
            Self::make_generator(GeneratorKind::Blob, String::from_str("randomstrC0"), DEFAULT_COLUMN_SIZE),
        );
        column_generators.push(
            Self::make_generator(GeneratorKind::Blob, String::from_str("randomstrC1"), DEFAULT_COLUMN_SIZE),
        );
        column_generators.push(
            Self::make_generator(GeneratorKind::Blob, String::from_str("randomstrC2"), DEFAULT_COLUMN_SIZE),
        );
        column_generators.push(
            Self::make_generator(GeneratorKind::Blob, String::from_str("randomstrC3"), DEFAULT_COLUMN_SIZE),
        );
        column_generators.push(
            Self::make_generator(GeneratorKind::Blob, String::from_str("randomstrC4"), DEFAULT_COLUMN_SIZE),
        );
        RowGenerator {
            pk_seed_distribution: self.pk_seed_distribution.handle(),
            pk_generator,
            column_generators,
        }
    }

    /// A generator over a fixed-size distribution of a valid size.
    fn make_generator(kind: GeneratorKind, name: String, size: i64) -> (g: Generator)
        requires
            1 <= size <= crate::generator::MAX_VALUE_LEN,
        ensures
            g.wf(),
            g.kind == kind,
            g.name == name,
            g.size == (Distribution::Fixed { value: size }),
            g.seed == 0,
    {
        match Generator::new(kind, name, Distribution::new_fixed(size)) {
            Ok(g) => g,
            Err(_) => Generator {
                kind,
                name: String::new(),
                size: Distribution::Fixed { value: 1 },
                seed: 0,
            },
        }
    }
}

/// The rows a single deterministic run generates over `n` successive calls
/// when it owns the seed sampler exclusively.
pub open spec fn spec_rows_from(
    pg: Generator,
    cols: Seq<Generator>,
    d: Distribution,
    n: nat,
) -> Seq<Seq<ValueModel>>
    decreases n,
{
    if n == 0 {
        Seq::empty()
    } else {
        let s = d.spec_next_value();
        let cseed = spec_row_column_seed(pg, s);
        seq![spec_row_parts(pg, cols, s)] + spec_rows_from(
            spec_stepped_pk(pg, s),
            spec_stepped_cols(cols, cseed),
            d.spec_step(),
            (n - 1) as nat,
        )
    }
}

/// Determinism: the rows of a run are a pure function of the generator
/// configuration and the seed-sampler state, so two independent process
/// instances constructed alike — in particular over a deterministic seed
/// distribution — generate identical sequences, hence identical multisets,
/// of rows for the same number of calls.
pub proof fn lemma_row_sequence_determinism(
    pg1: Generator,
    cols1: Seq<Generator>,
    d1: Distribution,
    pg2: Generator,
    cols2: Seq<Generator>,
    d2: Distribution,
    n: nat,
)
    requires
        pg1 == pg2,
        cols1 == cols2,
        d1 == d2,
    ensures
        spec_rows_from(pg1, cols1, d1, n) == spec_rows_from(pg2, cols2, d2, n),
{
}

/// Row shape: a generated row always holds exactly `1 + column_count`
/// values — the hex-encoded key of twice the sampled key length, then one
/// blob per column generator of exactly the sampled column length, in
/// declared order.
pub proof fn lemma_row_shape(g: RowGenerator, s: i64)
    requires
        g.wf(),
    ensures
        ({
            let row = spec_row_parts(g.pk_generator, g.column_generators@, s);
            &&& row.len() == 1 + g.column_generators@.len()
            &&& (row[0] matches ValueModel::Text(t) && t.len() == 2
                * g.pk_generator.size.spec_next_value())
            &&& forall|i: int|
                1 <= i < row.len() ==> (#[trigger] row[i] matches ValueModel::Blob(b) && b.len()
                    == g.column_generators@[i - 1].size.spec_next_value())
        }),
{
    let row = spec_row_parts(g.pk_generator, g.column_generators@, s);
    assert forall|i: int| 1 <= i < row.len() implies (#[trigger] row[i] matches ValueModel::Blob(b)
        && b.len() == g.column_generators@[i - 1].size.spec_next_value()) by {
        assert(g.column_generators@[i - 1].wf());
    }
}

} // verus!

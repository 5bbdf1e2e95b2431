//! Deterministic synthetic-row generation and self-validating reads for a
//! wide-column database stress workload.
//!
//! Rows are synthesized from statistical distributions: a shared distribution
//! yields a partition-key seed, the key is expanded from that seed, and the
//! column contents are derived purely from the key, so a later read pass can
//! regenerate the expected row and validate the database's answer without any
//! record of what was written.
use vstd::prelude::*;

pub mod args;
pub mod distribution;
pub mod fmt;
pub mod generator;
pub mod hex;
pub mod operation;
pub mod row;
pub mod shared_dist;
pub mod validate;
pub mod value;

verus! {

/// Derives the column-generation seed from a base seed and the raw bytes of a
/// generated partition key, by folding each byte into the accumulator with a
/// multiply-by-31 step. The fold is pure: the write pass and a later,
/// independent read pass recompute the same seed from the same key.
pub open spec fn spec_derive_column_seed(base: i64, key: Seq<u8>) -> i64
    decreases key.len(),
{
    if key.len() == 0 {
        base
    } else {
        spec_derive_column_seed(base, key.drop_last()).wrapping_mul(31).wrapping_add(
            key.last() as i64,
        )
    }
}

/// Maps a generated partition key to the seed that drives every column
/// generator of its row (pure in its arguments).
pub fn derive_column_seed(base: i64, key: &Vec<u8>) -> (r: i64)
    ensures
        r == spec_derive_column_seed(base, key@),
{
    let mut acc: i64 = base;
    let mut i: usize = 0;
    while i < key.len()
        invariant
            0 <= i <= key@.len(),
            acc == spec_derive_column_seed(base, key@.take(i as int)),
        decreases key@.len() - i,
    {
        proof {
            assert(key@.take(i + 1).drop_last() =~= key@.take(i as int));
            assert(key@.take(i + 1).last() == key@[i as int]);
        }
        acc = acc.wrapping_mul(31).wrapping_add(key[i] as i64);
        i += 1;
    }
    proof {
        assert(key@.take(key@.len() as int) =~= key@);
    }
    acc
}

/// Seed purity: the derived column seed is a function of the base seed and the
/// key bytes alone, so any two passes that agree on those inputs agree on the
/// seed.
pub proof fn lemma_derive_column_seed_pure(base1: i64, key1: Seq<u8>, base2: i64, key2: Seq<u8>)
    requires
        base1 == base2,
        key1 == key2,
    ensures
        spec_derive_column_seed(base1, key1) == spec_derive_column_seed(base2, key2),
{
}

} // verus!

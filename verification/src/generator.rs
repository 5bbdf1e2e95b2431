//! Value generation: deterministic expansion of a seed into a byte string of
//! a sampled length, encoded per the generator's kind.
//!
//! For a fixed (kind, size, seed) the produced value is byte-identical across
//! calls and across runs — the linchpin determinism property that lets a read
//! pass regenerate what a write pass stored.
use vstd::prelude::*;

use crate::distribution::ConfigError;
use crate::distribution::DistDesc;
use crate::distribution::Distribution;
use crate::distribution::SEED_STEP;
use crate::distribution::mix64;
use crate::distribution::spec_mix64;
use crate::hex::hex_string;
use crate::hex::spec_hex;
use crate::value::Value;
use crate::value::ValueModel;

verus! {

/// The largest length a size distribution may sample: positive and small
/// enough for a buffer on any supported machine.
pub const MAX_VALUE_LEN: i64 = 0x7fff_ffff;

/// Byte `i` of the pseudo-random stream for a seed: the counter-based stream
/// feeds `seed + (i + 1) * SEED_STEP` through the pinned bit mix and keeps the
/// low byte.
#[verifier::opaque]
pub open spec fn spec_stream_byte(seed: i64, i: int) -> u8 {
    let counter = (i as u64).wrapping_add(1).wrapping_mul(SEED_STEP);
    (spec_mix64((seed as u64).wrapping_add(counter)) & 0xff) as u8
}

/// The first `len` bytes of the pseudo-random stream for a seed.
pub open spec fn spec_stream(seed: i64, len: nat) -> Seq<u8> {
    Seq::new(len, |i: int| spec_stream_byte(seed, i))
}

/// How a generated byte string is turned into a column value.
#[derive(Clone, Copy, PartialEq, Eq, Structural, Debug)]
pub enum GeneratorKind {
    /// The bytes themselves, as an opaque blob.
    Blob,
    /// The lowercase hexadecimal rendering of the bytes, as text; used for
    /// the partition key so it is a well-formed key of printable characters.
    HexText,
}

/// The encoding of a byte string per a generator kind.
pub open spec fn spec_encode(kind: GeneratorKind, bytes: Seq<u8>) -> ValueModel {
    match kind {
        GeneratorKind::Blob => ValueModel::Blob(bytes),
        GeneratorKind::HexText => ValueModel::Text(spec_hex(bytes)),
    }
}

/// Whether a size distribution is a valid value-length sampler: every length
/// it can sample is positive and fits a buffer.
pub open spec fn spec_size_ok(d: DistDesc) -> bool {
    1 <= d.low() && d.high() <= MAX_VALUE_LEN
}

/// A generator of column values: a kind tag, a diagnostic name, a size
/// distribution sampling the value length, and the current seed.
pub struct Generator {
    pub kind: GeneratorKind,
    pub name: String,
    pub size: Distribution,
    pub seed: i64,
}

impl Generator {
    /// Validity: the size distribution is well formed and samples only
    /// lengths a value can have.
    pub open spec fn wf(self) -> bool {
        self.size.wf() && spec_size_ok(self.size.desc())
    }

    /// The value the next `generate` call produces: the seed expanded to the
    /// length the size distribution samples next, encoded per the kind.
    pub open spec fn spec_generated(self) -> ValueModel {
        spec_encode(self.kind, spec_stream(self.seed, self.size.spec_next_value() as nat))
    }

    /// Configures a generator, with seed `0`, failing fast when the size
    /// distribution can sample a length no value can have.
    pub fn new(kind: GeneratorKind, name: String, size: Distribution) -> (r: Result<
        Generator,
        ConfigError,
    >)
        requires
            size.wf(),
        ensures
            r is Ok <==> spec_size_ok(size.desc()),
            r matches Ok(g) ==> g.kind == kind && g.name == name && g.size == size && g.seed == 0
                && g.wf(),
            r matches Err(e) ==> e == (ConfigError::InvalidSize {
                low: size.desc().low(),
                high: size.desc().high(),
            }),
    {
        let (low, high) = match &size {
            Distribution::Fixed { value } => (*value, *value),
            Distribution::Sequential { start, end, .. } => (*start, *end),
            Distribution::Uniform { min, max, .. } => (*min, *max),
        };
        if 1 <= low && high <= MAX_VALUE_LEN {
            Ok(Generator { kind, name, size, seed: 0 })
        } else {
            Err(ConfigError::InvalidSize { low, high })
        }
    }

    /// Sets the seed the next generated value is expanded from.
    pub fn set_seed(&mut self, seed: i64)
        ensures
            *final(self) == (Generator {
                kind: old(self).kind,
                name: old(self).name,
                size: old(self).size,
                seed,
            }),
    {
        self.seed = seed;
    }

    /// Produces the value for the current seed: samples a length from the
    /// size distribution, expands the seed into that many bytes of the
    /// pinned pseudo-random stream, and encodes them per the kind.
    pub fn generate(&mut self) -> (r: Value)
        requires
            old(self).wf(),
        ensures
            final(self).wf(),
            r@ == old(self).spec_generated(),
            final(self).kind == old(self).kind,
            final(self).name == old(self).name,
            final(self).seed == old(self).seed,
            final(self).size == old(self).size.spec_step(),
    {
        let bytes = self.expand_next();
        match self.kind {
            GeneratorKind::Blob => Value::Blob(bytes),
            GeneratorKind::HexText => Value::Text(hex_string(&bytes)),
        }
    }

    /// The raw byte expansion behind [`Generator::generate`]: samples the
    /// next length and expands the current seed into that many stream bytes.
    /// The row generator uses it for the partition key, whose raw bytes are
    /// folded into the column seed before the key is encoded.
    pub fn expand_next(&mut self) -> (bytes: Vec<u8>)
        requires
            old(self).wf(),
        ensures
            final(self).wf(),
            bytes@ == spec_stream(old(self).seed, old(self).size.spec_next_value() as nat),
            final(self).kind == old(self).kind,
            final(self).name == old(self).name,
            final(self).seed == old(self).seed,
            final(self).size == old(self).size.spec_step(),
    {
        let len_i = self.size.next_i64();
        let len: usize = len_i as usize;
        let su: u64 = #[verifier::truncate] (self.seed as u64);
        let mut bytes: Vec<u8> = Vec::new();
        let mut i: usize = 0;
        while i < len
            invariant
                0 <= i <= len,
                su == old(self).seed as u64,
                bytes@.len() == i,
                forall|j: int| 0 <= j < i ==> bytes@[j] == spec_stream_byte(old(self).seed, j),
            decreases len - i,
        {
            let counter = (i as u64).wrapping_add(1).wrapping_mul(SEED_STEP);
            let m = mix64(su.wrapping_add(counter));
            assert(m & 0xff < 256) by (bit_vector);
            proof {
                reveal(spec_stream_byte);
                assert((m & 0xff) as u8 == spec_stream_byte(old(self).seed, i as int));
            }
            bytes.push((m & 0xff) as u8);
            i += 1;
        }
        assert(bytes@ =~= spec_stream(old(self).seed, len as nat));
        bytes
    }
}

/// Value reproducibility: what a generator produces is a pure function of its
/// kind, its seed and its size-distribution state, so a generator reseeded
/// twice with the same seed over the same size distribution produces
/// byte-identical output both times.
pub proof fn lemma_value_reproducible(g1: Generator, g2: Generator)
    requires
        g1.kind == g2.kind,
        g1.seed == g2.seed,
        g1.size == g2.size,
    ensures
        g1.spec_generated() == g2.spec_generated(),
{
}

} // verus!

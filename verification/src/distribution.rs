//! Numeric samplers that drive row synthesis: a fixed constant, a sequential
//! counter cycling a closed range, and an entropy-seeded uniform sampler.
//!
//! A distribution is *deterministic* when independent runs constructed with
//! the same parameters sample the same values (`Fixed`, `Sequential`); the
//! uniform sampler is non-deterministic because its entropy seed is, by
//! convention, taken from the wall clock at startup by the caller.
use vstd::prelude::*;

use crate::fmt::push_dec_i64;
use crate::fmt::spec_dec_i64;

verus! {

/// Increment of the counter that underlies the pseudo-random byte stream and
/// the uniform sampler.
pub const SEED_STEP: u64 = 0x9e3779b97f4a7c15;

/// The finalizer of the counter-based pseudo-random stream: a fixed,
/// documented bit mix whose output is a pure function of its input, pinned as
/// part of the workload's public contract so that independent write and read
/// passes expand seeds identically.
pub open spec fn spec_mix64(z: u64) -> u64 {
    let a = (z ^ (z >> 30)).wrapping_mul(0xbf58476d1ce4e5b9);
    let b = (a ^ (a >> 27)).wrapping_mul(0x94d049bb133111eb);
    b ^ (b >> 31)
}

/// Runs the pinned bit mix.
pub fn mix64(z: u64) -> (r: u64)
    ensures
        r == spec_mix64(z),
{
    let a = (z ^ (z >> 30)).wrapping_mul(0xbf58476d1ce4e5b9);
    let b = (a ^ (a >> 27)).wrapping_mul(0x94d049bb133111eb);
    b ^ (b >> 31)
}

/// The construction parameters of a distribution, without its sampling
/// position: what two independent runs share when they are configured alike.
#[derive(Clone, Copy, PartialEq, Eq, Structural, Debug)]
pub enum DistDesc {
    Fixed { value: i64 },
    Sequential { start: i64, end: i64 },
    Uniform { min: i64, max: i64 },
}

impl DistDesc {
    /// Whether independent runs constructed with these parameters sample the
    /// same values.
    pub open spec fn is_deterministic(self) -> bool {
        match self {
            DistDesc::Fixed { .. } => true,
            DistDesc::Sequential { .. } => true,
            DistDesc::Uniform { .. } => false,
        }
    }

    /// The least value the distribution can sample.
    pub open spec fn low(self) -> i64 {
        match self {
            DistDesc::Fixed { value } => value,
            DistDesc::Sequential { start, .. } => start,
            DistDesc::Uniform { min, .. } => min,
        }
    }

    /// The greatest value the distribution can sample.
    pub open spec fn high(self) -> i64 {
        match self {
            DistDesc::Fixed { value } => value,
            DistDesc::Sequential { end, .. } => end,
            DistDesc::Uniform { max, .. } => max,
        }
    }

    /// Whether `v` is a value this distribution can ever sample.
    pub open spec fn can_output(self, v: i64) -> bool {
        self.low() <= v <= self.high()
    }
}

/// The operator-facing rendering of a distribution's parameters.
pub open spec fn spec_describe(d: DistDesc) -> Seq<char> {
    match d {
        DistDesc::Fixed { value } => "FIXED("@ + spec_dec_i64(value) + ")"@,
        DistDesc::Sequential { start, end } => "SEQ("@ + spec_dec_i64(start) + ".."@
            + spec_dec_i64(end) + ")"@,
        DistDesc::Uniform { min, max } => "UNIFORM("@ + spec_dec_i64(min) + ".."@ + spec_dec_i64(
            max,
        ) + ")"@,
    }
}

/// A sampler of signed 64-bit integers, dispatched over a closed set of kinds.
///
/// `Fixed` always returns its value. `Sequential` returns successive integers
/// cycling through `[start, end]` inclusive, wrapping to `start` after `end`.
/// `Uniform` steps a counter-based pseudo-random stream from an entropy seed
/// and folds each output into `[min, max]`.
pub enum Distribution {
    Fixed { value: i64 },
    Sequential { start: i64, end: i64, next: i64 },
    Uniform { min: i64, max: i64, state: u64 },
}

impl Distribution {
    /// Internal consistency: a cycling counter sits inside its range, and a
    /// range is never empty.
    pub open spec fn wf(self) -> bool {
        match self {
            Distribution::Fixed { .. } => true,
            Distribution::Sequential { start, end, next } => start <= next <= end,
            Distribution::Uniform { min, max, .. } => min <= max,
        }
    }

    /// The construction parameters, forgetting the sampling position.
    pub open spec fn desc(self) -> DistDesc {
        match self {
            Distribution::Fixed { value } => DistDesc::Fixed { value },
            Distribution::Sequential { start, end, .. } => DistDesc::Sequential { start, end },
            Distribution::Uniform { min, max, .. } => DistDesc::Uniform { min, max },
        }
    }

    /// The value the next call to `next_i64` returns.
    pub open spec fn spec_next_value(self) -> i64 {
        match self {
            Distribution::Fixed { value } => value,
            Distribution::Sequential { next, .. } => next,
            Distribution::Uniform { min, max, state } => (min + (spec_mix64(
                state.wrapping_add(SEED_STEP),
            ) as int % (max - min + 1))) as i64,
        }
    }

    /// The sampler state after one call to `next_i64`.
    pub open spec fn spec_step(self) -> Distribution {
        match self {
            Distribution::Fixed { value } => Distribution::Fixed { value },
            Distribution::Sequential { start, end, next } => Distribution::Sequential {
                start,
                end,
                next: if next == end {
                    start
                } else {
                    (next + 1) as i64
                },
            },
            Distribution::Uniform { min, max, state } => Distribution::Uniform {
                min,
                max,
                state: state.wrapping_add(SEED_STEP),
            },
        }
    }

    /// A sampler that always returns `value`. Deterministic.
    pub fn new_fixed(value: i64) -> (r: Distribution)
        ensures
            r.wf(),
            r == (Distribution::Fixed { value }),
    {
        Distribution::Fixed { value }
    }

    /// A sampler cycling through `[start, end]` inclusive, starting at
    /// `start`. Deterministic. An empty range is a configuration error.
    pub fn new_sequential(start: i64, end: i64) -> (r: Result<Distribution, ConfigError>)
        ensures
            r is Ok <==> start <= end,
            r matches Ok(d) ==> d.wf() && d == (Distribution::Sequential { start, end, next: start }),
            r matches Err(e) ==> e == (ConfigError::EmptyRange { low: start, high: end }),
    {
        if start <= end {
            Ok(Distribution::Sequential { start, end, next: start })
        } else {
            Err(ConfigError::EmptyRange { low: start, high: end })
        }
    }

    /// A sampler folding a pseudo-random stream into `[min, max]`. The
    /// `entropy` seed makes the run reproducible only if the caller fixes it;
    /// seeding it from the wall clock at startup — the default at the
    /// program's edge — makes the sampler non-deterministic across runs. An
    /// empty range is a configuration error.
    pub fn new_uniform(min: i64, max: i64, entropy: u64) -> (r: Result<Distribution, ConfigError>)
        ensures
            r is Ok <==> min <= max,
            r matches Ok(d) ==> d.wf() && d == (Distribution::Uniform { min, max, state: entropy }),
            r matches Err(e) ==> e == (ConfigError::EmptyRange { low: min, high: max }),
    {
        if min <= max {
            Ok(Distribution::Uniform { min, max, state: entropy })
        } else {
            Err(ConfigError::EmptyRange { low: min, high: max })
        }
    }

    /// Samples the next value and advances the sampler.
    pub fn next_i64(&mut self) -> (r: i64)
        requires
            old(self).wf(),
        ensures
            final(self).wf(),
            r == old(self).spec_next_value(),
            *final(self) == old(self).spec_step(),
            old(self).desc().can_output(r),
    {
        match self {
            Distribution::Fixed { value } => *value,
            Distribution::Sequential { start, end, next } => {
                let r = *next;
                if *next == *end {
                    *next = *start;
                } else {
                    *next = *next + 1;
                }
                r
            },
            Distribution::Uniform { min, max, state } => {
                *state = state.wrapping_add(SEED_STEP);
                let raw = mix64(*state);
                let range: i128 = (*max as i128) - (*min as i128) + 1;
                let off: i128 = (raw as i128) % range;
                let v: i64 = ((*min as i128) + off) as i64;
                v
            },
        }
    }

    /// Renders the sampler's construction parameters for an operator.
    pub fn describe(&self) -> (r: String)
        ensures
            r@ == spec_describe(self.desc()),
    {
        let mut s = String::new();
        match self {
            Distribution::Fixed { value } => {
                proof {
                    reveal_strlit("FIXED(");
                    reveal_strlit(")");
                }
                s.append("FIXED(");
                push_dec_i64(&mut s, *value);
                s.append(")");
            },
            Distribution::Sequential { start, end, .. } => {
                proof {
                    reveal_strlit("SEQ(");
                    reveal_strlit("..");
                    reveal_strlit(")");
                }
                s.append("SEQ(");
                push_dec_i64(&mut s, *start);
                s.append("..");
                push_dec_i64(&mut s, *end);
                s.append(")");
            },
            Distribution::Uniform { min, max, .. } => {
                proof {
                    reveal_strlit("UNIFORM(");
                    reveal_strlit("..");
                    reveal_strlit(")");
                }
                s.append("UNIFORM(");
                push_dec_i64(&mut s, *min);
                s.append("..");
                push_dec_i64(&mut s, *max);
                s.append(")");
            },
        }
        s
    }

    /// Whether independent runs of this sampler's construction draw the same
    /// values; used for operator guidance, not enforced at runtime.
    pub fn is_deterministic(&self) -> (r: bool)
        ensures
            r == self.desc().is_deterministic(),
    {
        match self {
            Distribution::Uniform { .. } => false,
            _ => true,
        }
    }
}

/// An invalid construction parameter; fatal before any operation runs.
#[derive(Clone, Copy, PartialEq, Eq, Structural, Debug)]
pub enum ConfigError {
    /// A range whose lower bound exceeds its upper bound.
    EmptyRange { low: i64, high: i64 },
    /// A size distribution that can sample a length that is not a positive
    /// value a buffer can hold.
    InvalidSize { low: i64, high: i64 },
}

/// The sequence of values a sampler draws over `n` successive calls.
pub open spec fn spec_draws(d: Distribution, n: nat) -> Seq<i64>
    decreases n,
{
    if n == 0 {
        Seq::empty()
    } else {
        seq![d.spec_next_value()] + spec_draws(d.spec_step(), (n - 1) as nat)
    }
}

/// Determinism of construction: two samplers in the same state draw the same
/// values over any number of calls, so two independent runs that construct a
/// deterministic distribution from the same parameters draw identical
/// sequences — hence identical multisets — of values.
pub proof fn lemma_draws_deterministic(d1: Distribution, d2: Distribution, n: nat)
    requires
        d1 == d2,
    ensures
        spec_draws(d1, n) == spec_draws(d2, n),
{
}

/// `n` calls draw `n` values.
pub proof fn lemma_draws_len(d: Distribution, n: nat)
    ensures
        spec_draws(d, n).len() == n,
    decreases n,
{
    if n > 0 {
        lemma_draws_len(d.spec_step(), (n - 1) as nat);
    }
}

/// The sequential sampler's cycle, written out: draw `i` counted from a
/// sampler positioned at `next` is `start + ((next - start + i) mod period)`
/// with period `end - start + 1`. However a run's calls interleave over its
/// workers, the values handed out are successive elements of this cycle, so
/// the multiset drawn by `n` calls in total is the same in every run.
pub proof fn lemma_sequential_draws_cyclic(d: Distribution, n: nat)
    requires
        d.wf(),
        d is Sequential,
    ensures
        forall|i: int|
            0 <= i < n ==> #[trigger] spec_draws(d, n)[i] == d->Sequential_start + (
            (d->Sequential_next - d->Sequential_start + i) % (d->Sequential_end
                - d->Sequential_start + 1)),
    decreases n,
{
    if n > 0 {
        let start = d->Sequential_start;
        let end = d->Sequential_end;
        let next = d->Sequential_next;
        let p = end - start + 1;
        lemma_sequential_draws_cyclic(d.spec_step(), (n - 1) as nat);
        lemma_draws_len(d, n);
        lemma_draws_len(d.spec_step(), (n - 1) as nat);
        vstd::arithmetic::div_mod::lemma_small_mod((next - start) as nat, p as nat);
        assert(spec_draws(d, n)[0] == next);
        assert(start + ((next - start + 0) % p) == next);
        let next2 = d.spec_step()->Sequential_next;
        assert forall|i: int| 1 <= i < n implies #[trigger] spec_draws(d, n)[i] == start + ((next
            - start + i) % p) by {
            assert(spec_draws(d, n)[i] == spec_draws(d.spec_step(), (n - 1) as nat)[i - 1]);
            if next == end {
                assert((next2 - start + (i - 1)) == (next - start + i) - p);
                vstd::arithmetic::div_mod::lemma_mod_sub_multiples_vanish(next - start + i, p);
            }
        }
    }
}

} // verus!

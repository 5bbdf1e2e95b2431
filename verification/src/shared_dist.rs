//! Shared ownership of one partition-key-seed sampler.
//!
//! Every concurrent row generator of a run holds a cheap handle to the same
//! internally synchronized sampler, so the values drawn across all workers
//! form one stream. Which worker observes which value is unspecified; the
//! handle's contract therefore promises only what holds of every outcome —
//! the value lies in the sampler's range and the construction parameters
//! never change.
use std::sync::Arc;
use vstd::prelude::*;
use vstd::rwlock::RwLock;
use vstd::rwlock::RwLockPredicate;

use crate::distribution::DistDesc;
use crate::distribution::Distribution;

verus! {

/// The lock invariant: the sampler inside is well formed and keeps the
/// construction parameters the lock was set up with.
pub struct DistInv {
    pub desc: DistDesc,
}

impl RwLockPredicate<Distribution> for DistInv {
    open spec fn inv(self, d: Distribution) -> bool {
        d.wf() && d.desc() == self.desc
    }
}

/// A shared handle to one internally synchronized sampler.
pub struct SharedDistribution {
    lock: Arc<RwLock<Distribution, DistInv>>,
}

/// Relies on `Arc::clone`: the returned handle points at the same value.
#[verifier::external_body]
fn clone_lock_handle(a: &Arc<RwLock<Distribution, DistInv>>) -> (r: Arc<
    RwLock<Distribution, DistInv>,
>)
    ensures
        r == *a,
{
    Arc::clone(a)
}

impl SharedDistribution {
    /// The construction parameters of the sampler behind this handle.
    pub closed spec fn desc(self) -> DistDesc {
        self.lock.pred().desc
    }

    /// Puts a sampler behind a new shared handle.
    pub fn new(d: Distribution) -> (r: SharedDistribution)
        requires
            d.wf(),
        ensures
            r.desc() == d.desc(),
    {
        let ghost pred = DistInv { desc: d.desc() };
        SharedDistribution { lock: Arc::new(RwLock::new(d, Ghost(pred))) }
    }

    /// Another handle to the same sampler.
    pub fn handle(&self) -> (r: SharedDistribution)
        ensures
            r.desc() == self.desc(),
    {
        SharedDistribution { lock: clone_lock_handle(&self.lock) }
    }

    /// Samples the next value, safely under unsynchronized concurrent calls
    /// from every worker. Concurrent callers interleave, so of the result
    /// only range membership is promised; the multiset of values a
    /// deterministic sampler spreads over its callers is pinned by
    /// [`crate::distribution::spec_draws`].
    pub fn next(&self) -> (r: i64)
        ensures
            self.desc().can_output(r),
    {
        let (mut d, handle) = self.lock.acquire_write();
        let r = d.next_i64();
        handle.release_write(d);
        r
    }
}

} // verus!

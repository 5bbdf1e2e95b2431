//! The read operation's decision core: per attempt, check the shared
//! operation bound, then generate the row whose key is read and whose
//! columns are the expected answer. Executing the statement and driving the
//! attempt loop belong to the external scheduler and driver collaborators;
//! stopping and failing are orthogonal, so the bound decision here is
//! separate from the validation result.
use vstd::prelude::*;

use vstd::set_lib::lemma_int_range;

use crate::row::RowGenerator;
use crate::row::spec_row_parts;
use crate::row::spec_stepped_cols;
use crate::row::spec_stepped_pk;
use crate::row::spec_row_column_seed;
use crate::value::Value;
use crate::value::row_model;

verus! {

/// Whether the attempt with this sequence index executes, under an optional
/// bound on the total number of operations of the run.
pub open spec fn spec_attempt_executes(operation_id: u64, max_operations: Option<u64>) -> bool {
    match max_operations {
        Some(k) => operation_id < k,
        None => true,
    }
}

/// What one attempt begins with: the stream stops, or a row was generated
/// and its key is to be read.
pub enum AttemptStart {
    /// The operation bound is reached; no statement is executed.
    Stop,
    /// The expected row of this attempt, element 0 its partition key.
    Execute(Vec<Value>),
}

/// One worker's read operation: an exclusively owned row generator and the
/// run-wide operation bound.
pub struct ReadOperation {
    pub workload: RowGenerator,
    pub max_operations: Option<u64>,
}

impl ReadOperation {
    /// An operation over a worker's row generator, bounded by the run's
    /// optional total operation count.
    pub fn new(workload: RowGenerator, max_operations: Option<u64>) -> (r: ReadOperation)
        requires
            workload.wf(),
        ensures
            r.workload == workload,
            r.max_operations == max_operations,
            r.workload.wf(),
    {
        ReadOperation { workload, max_operations }
    }

    /// Begins the attempt with sequence index `operation_id`: signals the
    /// stream's end exactly when the bound is reached, and otherwise
    /// generates the expected row whose partition key the caller binds into
    /// the prepared read statement.
    pub fn start_attempt(&mut self, operation_id: u64) -> (r: AttemptStart)
        requires
            old(self).workload.wf(),
        ensures
            final(self).workload.wf(),
            final(self).max_operations == old(self).max_operations,
            r is Stop <==> !spec_attempt_executes(operation_id, old(self).max_operations),
            r is Stop ==> *final(self) == *old(self),
            r matches AttemptStart::Execute(row) ==> {
                &&& row@.len() == 1 + old(self).workload.column_generators@.len()
                &&& exists|s: i64|
                    #![auto]
                    {
                        &&& old(self).workload.pk_seed_distribution.desc().can_output(s)
                        &&& row_model(row@) == spec_row_parts(
                            old(self).workload.pk_generator,
                            old(self).workload.column_generators@,
                            s,
                        )
                        &&& final(self).workload.pk_generator == spec_stepped_pk(
                            old(self).workload.pk_generator,
                            s,
                        )
                        &&& final(self).workload.column_generators@ == spec_stepped_cols(
                            old(self).workload.column_generators@,
                            spec_row_column_seed(old(self).workload.pk_generator, s),
                        )
                    }
            },
    {
        let stop = match self.max_operations {
            Some(k) => operation_id >= k,
            None => false,
        };
        if stop {
            return AttemptStart::Stop;
        }
        let row = self.workload.generate_row();
        AttemptStart::Execute(row)
    }
}

/// Bound enforcement: with `max_operations = k`, over the attempt sequence
/// indices `0, 1, ..., n - 1` that a run of any worker layout hands out
/// (each index exactly once), the attempts that execute are exactly those
/// with index below `k` — so once `n` reaches `k`, exactly `k` attempts
/// execute in total, never `k - 1` or `k + 1`.
pub proof fn lemma_bound_exact(k: u64, n: u64)
    requires
        k <= n,
    ensures
        Set::new(
            |i: int| 0 <= i < n as int && spec_attempt_executes(i as u64, Some(k)),
        ).finite(),
        Set::new(|i: int| 0 <= i < n as int && spec_attempt_executes(i as u64, Some(k))).len()
            == k,
{
    let executed = Set::new(
        |i: int| 0 <= i < n as int && spec_attempt_executes(i as u64, Some(k)),
    );
    assert forall|i: int| executed.contains(i) implies vstd::set_lib::set_int_range(
        0,
        k as int,
    ).contains(i) by {
        assert((i as u64) < k);
    }
    assert forall|i: int|
        vstd::set_lib::set_int_range(0, k as int).contains(i) implies executed.contains(i) by {
        assert((i as u64) < k);
    }
    assert(executed =~= vstd::set_lib::set_int_range(0, k as int));
    lemma_int_range(0, k as int);
}

} // verus!

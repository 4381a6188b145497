use vstd::prelude::*;

verus! {

/// One change to the pending-job counter.
#[derive(Debug, Clone, Copy, PartialEq, Eq, Structural)]
pub enum CounterOp {
    /// A submit reserved a slot before enqueueing its job.
    Reserve,
    /// A worker finished a job, whether the job succeeded or failed.
    Complete,
}

/// Count of jobs accepted but not yet finished executing.
pub struct JobCounter {
    pending: usize,
}

/// Number of `op` entries in a trace.
pub open spec fn count_of(ops: Seq<CounterOp>, op: CounterOp) -> nat
    decreases ops.len(),
{
    if ops.len() == 0 {
        0
    } else {
        count_of(ops.drop_last(), op) + if ops.last() == op { 1nat } else { 0nat }
    }
}

/// The counter's value after a trace of changes, starting from `start`.
/// A completion at zero leaves zero, as the counter never goes negative.
pub open spec fn apply_ops(start: nat, ops: Seq<CounterOp>) -> nat
    decreases ops.len(),
{
    if ops.len() == 0 {
        start
    } else {
        let before = apply_ops(start, ops.drop_last());
        match ops.last() {
            CounterOp::Reserve => before + 1,
            CounterOp::Complete => if before == 0 { 0 } else { (before - 1) as nat },
        }
    }
}

/// No prefix of the trace completes more jobs than it reserved.
pub open spec fn well_ordered(ops: Seq<CounterOp>) -> bool {
    forall|k: int| 0 <= k <= ops.len() ==>
        #[trigger] count_of(ops.take(k), CounterOp::Complete) <= count_of(ops.take(k), CounterOp::Reserve)
}

impl JobCounter {
    /// The counter's value.
    pub closed spec fn value(&self) -> nat {
        self.pending as nat
    }

    /// A fresh counter with no pending job.
    pub fn new() -> (r: JobCounter)
        ensures
            r.value() == 0,
    {
        JobCounter { pending: 0 }
    }

    /// The current number of pending jobs.
    pub fn get(&self) -> (r: usize)
        ensures
            r == self.value(),
    {
        self.pending
    }

    /// Reserves a slot for a job about to be enqueued.
    pub fn reserve(&mut self)
        requires
            old(self).value() < usize::MAX,
        ensures
            final(self).value() == apply_ops(old(self).value(), seq![CounterOp::Reserve]),
            final(self).value() == old(self).value() + 1,
    {
        proof {
            reveal_with_fuel(apply_ops, 2);
        }
        self.pending = self.pending + 1;
    }

    /// Records that a worker finished a job, however the job ended.
    pub fn complete(&mut self)
        ensures
            final(self).value() == apply_ops(old(self).value(), seq![CounterOp::Complete]),
            old(self).value() > 0 ==> final(self).value() == old(self).value() - 1,
            old(self).value() == 0 ==> final(self).value() == 0,
    {
        proof {
            reveal_with_fuel(apply_ops, 2);
        }
        self.pending = self.pending.saturating_sub(1);
    }

    /// Sets the counter back to zero once every worker has been joined.
    pub fn reset(&mut self)
        ensures
            final(self).value() == 0,
    {
        self.pending = 0;
    }
}

proof fn lemma_take_full(ops: Seq<CounterOp>)
    ensures
        ops.take(ops.len() as int) == ops,
{
    assert(ops.take(ops.len() as int) =~= ops);
}

/// Every job that was reserved and then completed leaves no trace: starting
/// from zero, a trace in which no prefix completes more jobs than it reserved
/// ends at the number reserved minus the number completed. So when all `N`
/// submitted jobs have finished, the counter reads zero.
pub proof fn lemma_drained_counter(ops: Seq<CounterOp>)
    requires
        well_ordered(ops),
    ensures
        apply_ops(0, ops) == count_of(ops, CounterOp::Reserve) - count_of(ops, CounterOp::Complete),
        count_of(ops, CounterOp::Reserve) == count_of(ops, CounterOp::Complete) ==> apply_ops(0, ops) == 0,
    decreases ops.len(),
{
    lemma_take_full(ops);
    assert(count_of(ops.take(ops.len() as int), CounterOp::Complete) <= count_of(ops.take(ops.len() as int), CounterOp::Reserve));
    if ops.len() > 0 {
        let prev = ops.drop_last();
        assert forall|k: int| 0 <= k <= prev.len() implies
            #[trigger] count_of(prev.take(k), CounterOp::Complete) <= count_of(prev.take(k), CounterOp::Reserve) by {
            assert(prev.take(k) =~= ops.take(k));
            assert(count_of(ops.take(k), CounterOp::Complete) <= count_of(ops.take(k), CounterOp::Reserve));
        }
        lemma_drained_counter(prev);
    }
}

} // verus!

use vstd::prelude::*;
use crate::counter::JobCounter;
use crate::counter::CounterOp;
use crate::counter::apply_ops;

verus! {

/// What travels on the dispatch channel from the pool to its workers.
pub enum Message<J> {
    NewJob(J),
    Terminate,
}

/// What a worker does with the message it just took.
pub enum WorkerAction<J> {
    /// Run the job, then go back to the channel.
    Execute(J),
    /// Leave the loop; the worker thread ends.
    Exit,
}

/// How a job's execution ended.
#[derive(Debug, Clone, Copy, PartialEq, Eq, Structural)]
pub enum JobOutcome {
    Succeeded,
    Failed,
}

/// A worker's control state: its id and whether it has left its loop.
pub struct WorkerState {
    id: usize,
    terminated: bool,
}

impl WorkerState {
    pub closed spec fn spec_id(&self) -> nat {
        self.id as nat
    }

    pub closed spec fn spec_terminated(&self) -> bool {
        self.terminated
    }

    /// A worker that is ready to take its first message.
    pub fn new(id: usize) -> (r: WorkerState)
        ensures
            r.spec_id() == id,
            !r.spec_terminated(),
    {
        WorkerState { id, terminated: false }
    }

    pub fn id(&self) -> (r: usize)
        ensures
            r == self.spec_id(),
    {
        self.id
    }

    pub fn is_terminated(&self) -> (r: bool)
        ensures
            r == self.spec_terminated(),
    {
        self.terminated
    }

    /// Decides on the message taken from the channel; `None` means the
    /// channel is closed and drained. A job is run; a `Terminate` or a closed
    /// channel ends the worker, which then never reads again.
    pub fn on_receive<J>(&mut self, received: Option<Message<J>>) -> (r: WorkerAction<J>)
        requires
            !old(self).spec_terminated(),
        ensures
            final(self).spec_id() == old(self).spec_id(),
            match received {
                Some(Message::NewJob(j)) => r == WorkerAction::Execute(j) && !final(self).spec_terminated(),
                _ => r is Exit && final(self).spec_terminated(),
            },
    {
        match received {
            Some(Message::NewJob(j)) => WorkerAction::Execute(j),
            _ => {
                self.terminated = true;
                WorkerAction::Exit
            },
        }
    }

    /// Accounts for a job this worker has run. The pending count drops by one
    /// whether the job succeeded or failed, and the worker stays in its loop.
    pub fn finish_job(&self, outcome: JobOutcome, counter: &mut JobCounter)
        requires
            !self.spec_terminated(),
        ensures
            final(counter).value() == apply_ops(old(counter).value(), seq![CounterOp::Complete]),
            old(counter).value() > 0 ==> final(counter).value() == old(counter).value() - 1,
            !self.spec_terminated(),
    {
        counter.complete();
    }
}

/// Number of workers still in their loop, `stopped[i]` telling whether
/// worker `i` has left it.
pub open spec fn running_count(stopped: Seq<bool>) -> nat
    decreases stopped.len(),
{
    if stopped.len() == 0 {
        0
    } else {
        running_count(stopped.drop_last()) + if stopped.last() { 0nat } else { 1nat }
    }
}

/// The workers' states after the `Terminate` messages have been taken, the
/// `k`-th by worker `takers[k]`.
pub open spec fn after_terminates(stopped: Seq<bool>, takers: Seq<int>) -> Seq<bool>
    decreases takers.len(),
{
    if takers.len() == 0 {
        stopped
    } else {
        after_terminates(stopped, takers.drop_last()).update(takers.last(), true)
    }
}

proof fn lemma_stop_one(stopped: Seq<bool>, i: int)
    requires
        0 <= i < stopped.len(),
        !stopped[i],
    ensures
        running_count(stopped.update(i, true)) + 1 == running_count(stopped),
    decreases stopped.len(),
{
    let u = stopped.update(i, true);
    if i < stopped.len() - 1 {
        assert(u.drop_last() =~= stopped.drop_last().update(i, true));
        lemma_stop_one(stopped.drop_last(), i);
    } else {
        assert(u.drop_last() =~= stopped.drop_last());
    }
}

proof fn lemma_none_running(stopped: Seq<bool>)
    requires
        running_count(stopped) == 0,
    ensures
        forall|i: int| 0 <= i < stopped.len() ==> stopped[i],
    decreases stopped.len(),
{
    if stopped.len() > 0 {
        lemma_none_running(stopped.drop_last());
        assert forall|i: int| 0 <= i < stopped.len() implies stopped[i] by {
            if i < stopped.len() - 1 {
                assert(stopped[i] == stopped.drop_last()[i]);
            }
        }
    }
}

proof fn lemma_all_running(stopped: Seq<bool>)
    requires
        forall|i: int| 0 <= i < stopped.len() ==> !stopped[i],
    ensures
        running_count(stopped) == stopped.len(),
    decreases stopped.len(),
{
    if stopped.len() > 0 {
        lemma_all_running(stopped.drop_last());
    }
}

proof fn lemma_count_after(stopped: Seq<bool>, takers: Seq<int>)
    requires
        forall|k: int| 0 <= k < takers.len() ==> 0 <= #[trigger] takers[k] < stopped.len()
            && !after_terminates(stopped, takers.take(k))[takers[k]],
    ensures
        after_terminates(stopped, takers).len() == stopped.len(),
        running_count(after_terminates(stopped, takers)) + takers.len() == running_count(stopped),
    decreases takers.len(),
{
    if takers.len() > 0 {
        let prev = takers.drop_last();
        assert forall|k: int| 0 <= k < prev.len() implies 0 <= #[trigger] prev[k] < stopped.len()
            && !after_terminates(stopped, prev.take(k))[prev[k]] by {
            assert(prev.take(k) =~= takers.take(k));
            assert(prev[k] == takers[k]);
        }
        lemma_count_after(stopped, prev);
        let last = takers.len() - 1;
        assert(takers.take(last) =~= prev);
        assert(0 <= takers[last] < stopped.len() && !after_terminates(stopped, takers.take(last))[takers[last]]);
        lemma_stop_one(after_terminates(stopped, prev), takers.last());
    }
}

/// One `Terminate` per worker stops them all: when `n` running workers take
/// `n` `Terminate` messages, each taken by a worker still in its loop (a
/// stopped worker never reads again), no worker is left running.
pub proof fn lemma_terminates_stop_all(stopped: Seq<bool>, takers: Seq<int>)
    requires
        forall|i: int| 0 <= i < stopped.len() ==> !stopped[i],
        takers.len() == stopped.len(),
        forall|k: int| 0 <= k < takers.len() ==> 0 <= #[trigger] takers[k] < stopped.len()
            && !after_terminates(stopped, takers.take(k))[takers[k]],
    ensures
        forall|i: int| 0 <= i < stopped.len() ==> after_terminates(stopped, takers)[i],
{
    lemma_all_running(stopped);
    lemma_count_after(stopped, takers);
    lemma_none_running(after_terminates(stopped, takers));
}

} // verus!

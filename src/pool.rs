use vstd::prelude::*;
use crate::config::PoolError;
use crate::counter::JobCounter;

verus! {

/// The pool's lifecycle as plain values.
pub ghost struct PoolModel {
    pub size: nat,
    pub running: bool,
    pub sender_open: bool,
}

/// A pool is never empty, its size is a machine integer, and its sending end
/// is open only while it runs.
pub open spec fn model_wf(m: PoolModel) -> bool {
    0 < m.size <= usize::MAX && (m.sender_open ==> m.running)
}

/// Worker ids `0..n` in order.
pub open spec fn worker_ids(n: nat) -> Seq<usize> {
    Seq::new(n, |i: int| i as usize)
}

/// Whether a submit is let through.
pub open spec fn spec_admission(m: PoolModel) -> Result<(), PoolError> {
    if m.running && m.sender_open {
        Ok(())
    } else {
        Err(PoolError::Shutdown)
    }
}

/// The lifecycle after a shutdown: stopped and closed, whatever it was.
pub open spec fn spec_after_shutdown(m: PoolModel) -> PoolModel {
    PoolModel { size: m.size, running: false, sender_open: false }
}

/// How many `Terminate` messages a shutdown sends.
pub open spec fn spec_terminates(m: PoolModel) -> nat {
    if m.sender_open { m.size } else { 0 }
}

/// Which workers a shutdown joins, in order.
pub open spec fn spec_joins(m: PoolModel) -> Seq<usize> {
    if m.sender_open { worker_ids(m.size) } else { Seq::empty() }
}

/// The steps that a shutdown takes on the channel and the threads.
pub struct ShutdownPlan {
    /// Number of `Terminate` messages to send before closing the channel.
    pub terminates: usize,
    /// Ids of the workers whose threads are to be joined, in this order.
    pub join: Vec<usize>,
    /// Whether the sending end is to be dropped.
    pub close_sender: bool,
    /// Whether the pending-job counter is to be reset once all are joined.
    pub reset_counter: bool,
}

/// The pool's control state; the threads and the channel that it directs are
/// held by the caller.
pub struct PoolControl {
    size: usize,
    running: bool,
    sender_open: bool,
}

impl PoolControl {
    pub closed spec fn view(&self) -> PoolModel {
        PoolModel { size: self.size as nat, running: self.running, sender_open: self.sender_open }
    }

    pub open spec fn wf(&self) -> bool {
        model_wf(self@)
    }

    /// A running pool of `size` workers; zero workers are refused.
    pub fn new(size: usize) -> (r: Result<PoolControl, PoolError>)
        ensures
            size == 0 <==> r == Err::<PoolControl, PoolError>(PoolError::Configuration),
            size > 0 <==> r is Ok,
            r matches Ok(c) ==> c.wf() && c@.size == size && c@.running && c@.sender_open,
    {
        if size == 0 {
            return Err(PoolError::Configuration);
        }
        Ok(PoolControl { size, running: true, sender_open: true })
    }

    /// The fixed number of workers.
    pub fn worker_count(&self) -> (r: usize)
        ensures
            r == self@.size,
    {
        self.size
    }

    pub fn is_running(&self) -> (r: bool)
        ensures
            r == self@.running,
    {
        self.running
    }

    /// Whether the sending end is still open, so that dropping the pool
    /// must shut it down.
    pub fn sender_open(&self) -> (r: bool)
        ensures
            r == self@.sender_open,
    {
        self.sender_open
    }

    /// Whether a submit may go ahead.
    pub fn check_admission(&self) -> (r: Result<(), PoolError>)
        ensures
            r == spec_admission(self@),
    {
        if !self.running || !self.sender_open {
            return Err(PoolError::Shutdown);
        }
        Ok(())
    }

    /// The first half of a submit: when admitted, a slot is reserved on the
    /// pending-job counter before the job is enqueued; when not, nothing changes.
    pub fn begin_submit(&self, counter: &mut JobCounter) -> (r: Result<(), PoolError>)
        requires
            old(counter).value() < usize::MAX,
        ensures
            r == spec_admission(self@),
            r is Ok ==> final(counter).value() == old(counter).value() + 1,
            r is Err ==> final(counter).value() == old(counter).value(),
    {
        let r = self.check_admission();
        if r.is_ok() {
            counter.reserve();
        }
        r
    }

    /// Stops the pool. The first call stops admitting jobs, sends one
    /// `Terminate` per worker, closes the sender, joins every worker and
    /// resets the counter; any later call does nothing.
    pub fn shutdown(&mut self) -> (r: ShutdownPlan)
        requires
            old(self).wf(),
        ensures
            final(self).wf(),
            final(self)@ == spec_after_shutdown(old(self)@),
            r.terminates == spec_terminates(old(self)@),
            r.join@ == spec_joins(old(self)@),
            r.close_sender == old(self)@.sender_open,
            r.reset_counter == old(self)@.sender_open,
    {
        let was_open = self.sender_open;
        self.running = false;
        self.sender_open = false;
        let mut join: Vec<usize> = Vec::new();
        let mut terminates: usize = 0;
        if was_open {
            terminates = self.size;
            let mut i: usize = 0;
            while i < self.size
                invariant
                    i <= self.size,
                    join@ == worker_ids(i as nat),
                decreases self.size - i,
            {
                join.push(i);
                i = i + 1;
                assert(join@ =~= worker_ids(i as nat));
            }
        }
        proof {
            if !was_open {
                assert(join@ =~= Seq::<usize>::empty());
            }
        }
        ShutdownPlan { terminates, join, close_sender: was_open, reset_counter: was_open }
    }
}

/// The outcome of handing an admitted job to the channel.
pub fn send_outcome(sent: bool) -> (r: Result<(), PoolError>)
    ensures
        sent <==> r is Ok,
        !sent <==> r == Err::<(), PoolError>(PoolError::SendFailed),
{
    if sent {
        Ok(())
    } else {
        Err(PoolError::SendFailed)
    }
}

/// Once shut down, a pool refuses every submit with a shutdown error and
/// reports that it is not running; a further shutdown keeps it so.
pub proof fn lemma_submit_after_shutdown(m: PoolModel)
    requires
        model_wf(m),
    ensures
        spec_admission(spec_after_shutdown(m)) == Err::<(), PoolError>(PoolError::Shutdown),
        !spec_after_shutdown(m).running,
        !spec_after_shutdown(spec_after_shutdown(m)).running,
        model_wf(spec_after_shutdown(m)),
{
}

/// A second shutdown is a no-op: it sends no `Terminate`, joins no worker,
/// closes and resets nothing, and leaves the state as the first one left it.
pub proof fn lemma_shutdown_twice(m: PoolModel)
    requires
        model_wf(m),
    ensures
        spec_terminates(spec_after_shutdown(m)) == 0,
        spec_joins(spec_after_shutdown(m)) == Seq::<usize>::empty(),
        !spec_after_shutdown(m).sender_open,
        spec_after_shutdown(spec_after_shutdown(m)) == spec_after_shutdown(m),
{
}

/// Dropping a pool that was never shut down sends one `Terminate` per worker
/// and joins every worker exactly once, each id once and in order, so no
/// worker thread outlives the pool.
pub proof fn lemma_drop_joins_every_worker(m: PoolModel)
    requires
        model_wf(m),
        m.sender_open,
    ensures
        spec_terminates(m) == m.size,
        spec_joins(m).len() == m.size,
        forall|i: int| 0 <= i < m.size ==> spec_joins(m)[i] == i,
        spec_joins(m).no_duplicates(),
{
    let s = spec_joins(m);
    assert forall|i: int, j: int| 0 <= i < s.len() && 0 <= j < s.len() && i != j implies s[i] != s[j] by {
        assert(s[i] as int == i && s[j] as int == j);
    }
}

} // verus!

use vstd::prelude::*;

verus! {

/// Errors that the pool reports to its callers.
#[derive(Debug, Clone, Copy, PartialEq, Eq, Structural)]
pub enum PoolError {
    /// A pool of zero workers was requested.
    Configuration,
    /// A job was submitted after shutdown began, or with no open sending end.
    Shutdown,
    /// The dispatch channel refused the job because it closed during the submit.
    SendFailed,
}

/// What construction settles before any worker starts.
#[derive(Debug, Clone, Copy, PartialEq, Eq, Structural)]
pub struct PoolPlan {
    /// Number of workers to spawn, with ids `0..size`.
    pub size: usize,
    /// Capacity of the bounded dispatch channel.
    pub capacity: usize,
    /// True when `size` exceeds the advised maximum for this machine.
    pub advisory: bool,
}

/// Largest pool size advised for a machine with `cpus` logical cores.
pub open spec fn spec_recommended_max(cpus: nat) -> nat {
    2 * cpus
}

/// The dispatch channel holds twice as many messages as there are workers.
pub open spec fn spec_capacity(size: nat) -> nat {
    2 * size
}

/// Relies on num_cpus::get: the number of logical cores usable by this
/// process, which its documentation says is always at least 1.
#[verifier::external_body]
pub fn available_parallelism() -> (r: usize)
    ensures
        r >= 1,
{
    num_cpus::get()
}

/// The pool size asked for, or one worker per core when none is given.
pub fn requested_size(max_workers: Option<usize>, cpus: usize) -> (r: usize)
    ensures
        r == match max_workers {
            Some(n) => n,
            None => cpus,
        },
{
    match max_workers {
        Some(n) => n,
        None => cpus,
    }
}

/// Advised largest pool size, saturating at `usize::MAX`.
pub fn recommended_max(cpus: usize) -> (r: usize)
    ensures
        r == if spec_recommended_max(cpus as nat) <= usize::MAX {
            spec_recommended_max(cpus as nat)
        } else {
            usize::MAX as nat
        },
{
    if cpus > usize::MAX / 2 {
        usize::MAX
    } else {
        cpus * 2
    }
}

/// Whether `size` is above the advised maximum of twice the core count.
pub fn exceeds_recommended(size: usize, cpus: usize) -> (r: bool)
    ensures
        r == (size > spec_recommended_max(cpus as nat)),
{
    // size > 2 * cpus, written so that nothing overflows
    cpus < size && size - cpus > cpus
}

/// Capacity of the dispatch channel for a pool of `size` workers.
pub fn channel_capacity(size: usize) -> (r: usize)
    requires
        spec_capacity(size as nat) <= usize::MAX,
    ensures
        r == spec_capacity(size as nat),
{
    size * 2
}

/// Checks a requested pool size and settles the channel capacity and advisory.
/// A size of zero is refused; any positive size is accepted, however large
/// compared with the core count.
pub fn plan_pool(size: usize, cpus: usize) -> (r: Result<PoolPlan, PoolError>)
    requires
        spec_capacity(size as nat) <= usize::MAX,
    ensures
        size == 0 <==> r == Err::<PoolPlan, PoolError>(PoolError::Configuration),
        size > 0 <==> r is Ok,
        r matches Ok(p) ==> p.size == size && p.capacity == spec_capacity(size as nat)
            && p.advisory == (size > spec_recommended_max(cpus as nat)),
{
    if size == 0 {
        return Err(PoolError::Configuration);
    }
    Ok(PoolPlan { size, capacity: channel_capacity(size), advisory: exceeds_recommended(size, cpus) })
}

} // verus!

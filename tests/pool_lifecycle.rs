use nornir::config::{
    available_parallelism, channel_capacity, exceeds_recommended, plan_pool, recommended_max,
    requested_size, PoolError,
};
use nornir::counter::JobCounter;
use nornir::pool::{send_outcome, PoolControl};
use nornir::worker::{JobOutcome, Message, WorkerAction, WorkerState};

#[test]
fn positive_size_gives_that_many_workers_and_no_pending_job() {
    for size in [1usize, 2, 4, 17] {
        let pool = PoolControl::new(size).unwrap();
        assert_eq!(pool.worker_count(), size);
        assert!(pool.is_running());
        assert!(pool.sender_open());
        let counter = JobCounter::new();
        assert_eq!(counter.get(), 0);
        let plan = plan_pool(size, 4).unwrap();
        assert_eq!(plan.size, size);
    }
}

#[test]
fn zero_size_is_a_configuration_error() {
    assert!(matches!(PoolControl::new(0), Err(PoolError::Configuration)));
    assert_eq!(plan_pool(0, 8), Err(PoolError::Configuration));
}

#[test]
fn n_jobs_drain_to_zero_pending() {
    let pool = PoolControl::new(2).unwrap();
    let mut counter = JobCounter::new();
    let n = 25;
    for _ in 0..n {
        assert_eq!(pool.begin_submit(&mut counter), Ok(()));
    }
    assert_eq!(counter.get(), n);
    let worker = WorkerState::new(0);
    for _ in 0..n {
        worker.finish_job(JobOutcome::Succeeded, &mut counter);
    }
    assert_eq!(counter.get(), 0);
}

#[test]
fn failed_job_still_decrements_and_keeps_worker_running() {
    let pool = PoolControl::new(1).unwrap();
    let mut counter = JobCounter::new();
    pool.begin_submit(&mut counter).unwrap();
    pool.begin_submit(&mut counter).unwrap();
    let mut worker = WorkerState::new(0);
    let first = worker.on_receive(Some(Message::NewJob(1u32)));
    assert!(matches!(first, WorkerAction::Execute(1)));
    worker.finish_job(JobOutcome::Failed, &mut counter);
    assert_eq!(counter.get(), 1);
    assert!(!worker.is_terminated());
    let second = worker.on_receive(Some(Message::NewJob(2u32)));
    assert!(matches!(second, WorkerAction::Execute(2)));
    worker.finish_job(JobOutcome::Succeeded, &mut counter);
    assert_eq!(counter.get(), 0);
}

#[test]
fn submit_after_shutdown_is_refused() {
    let mut pool = PoolControl::new(3).unwrap();
    let mut counter = JobCounter::new();
    pool.shutdown();
    assert!(!pool.is_running());
    assert!(!pool.sender_open());
    assert_eq!(pool.check_admission(), Err(PoolError::Shutdown));
    assert_eq!(pool.begin_submit(&mut counter), Err(PoolError::Shutdown));
    assert_eq!(counter.get(), 0);
}

#[test]
fn second_shutdown_does_nothing() {
    let mut pool = PoolControl::new(3).unwrap();
    let first = pool.shutdown();
    assert_eq!(first.terminates, 3);
    assert_eq!(first.join, vec![0, 1, 2]);
    assert!(first.close_sender && first.reset_counter);
    let second = pool.shutdown();
    assert_eq!(second.terminates, 0);
    assert!(second.join.is_empty());
    assert!(!second.close_sender && !second.reset_counter);
    assert!(!pool.is_running());
}

#[test]
fn drop_path_joins_every_worker() {
    let mut pool = PoolControl::new(5).unwrap();
    assert!(pool.sender_open());
    let plan = pool.shutdown();
    assert_eq!(plan.terminates, 5);
    assert_eq!(plan.join, vec![0, 1, 2, 3, 4]);
    assert!(!pool.sender_open());
}

#[test]
fn four_workers_hundred_jobs_three_submitters() {
    let mut pool = PoolControl::new(4).unwrap();
    let mut counter = JobCounter::new();
    let mut workers: Vec<WorkerState> = (0..4).map(WorkerState::new).collect();
    let mut queue: Vec<u32> = Vec::new();
    let mut executed = 0u32;
    // jobs from three submitters, taken by the workers in round robin
    for job in 0..100u32 {
        pool.begin_submit(&mut counter).unwrap();
        assert_eq!(send_outcome(true), Ok(()));
        queue.push(job);
        if queue.len() >= 8 {
            let w = &mut workers[(job % 4) as usize];
            if let WorkerAction::Execute(_) = w.on_receive(Some(Message::NewJob(queue.remove(0)))) {
                executed += 1;
                w.finish_job(JobOutcome::Succeeded, &mut counter);
            }
        }
    }
    let mut k = 0usize;
    while !queue.is_empty() {
        let w = &mut workers[k % 4];
        if let WorkerAction::Execute(_) = w.on_receive(Some(Message::NewJob(queue.remove(0)))) {
            executed += 1;
            w.finish_job(JobOutcome::Succeeded, &mut counter);
        }
        k += 1;
    }
    let plan = pool.shutdown();
    for w in workers.iter_mut() {
        assert!(matches!(w.on_receive::<u32>(Some(Message::Terminate)), WorkerAction::Exit));
        assert!(w.is_terminated());
    }
    if plan.reset_counter {
        counter.reset();
    }
    assert_eq!(executed, 100);
    assert_eq!(counter.get(), 0);
}

#[test]
fn single_worker_runs_job_after_failing_one() {
    let pool = PoolControl::new(1).unwrap();
    let mut counter = JobCounter::new();
    let mut worker = WorkerState::new(0);
    let mut flag = false;
    pool.begin_submit(&mut counter).unwrap();
    pool.begin_submit(&mut counter).unwrap();
    // the first job raises, the second sets the flag
    if let WorkerAction::Execute(raises) = worker.on_receive(Some(Message::NewJob(true))) {
        let outcome = if raises { JobOutcome::Failed } else { JobOutcome::Succeeded };
        worker.finish_job(outcome, &mut counter);
    }
    if let WorkerAction::Execute(raises) = worker.on_receive(Some(Message::NewJob(false))) {
        if !raises {
            flag = true;
        }
        worker.finish_job(JobOutcome::Succeeded, &mut counter);
    }
    assert!(flag);
    assert_eq!(counter.get(), 0);
}

#[test]
fn oversized_pool_is_built_with_an_advisory() {
    let plan = plan_pool(1000, 4).unwrap();
    assert!(plan.advisory);
    assert_eq!(plan.capacity, 2000);
    let plan = plan_pool(8, 4).unwrap();
    assert!(!plan.advisory);
    let plan = plan_pool(9, 4).unwrap();
    assert!(plan.advisory);
}

#[test]
fn size_formulas() {
    assert_eq!(channel_capacity(3), 6);
    assert_eq!(recommended_max(6), 12);
    assert_eq!(recommended_max(usize::MAX), usize::MAX);
    assert!(exceeds_recommended(usize::MAX, usize::MAX / 2));
    assert!(!exceeds_recommended(usize::MAX, usize::MAX));
    assert_eq!(requested_size(Some(7), 3), 7);
    assert_eq!(requested_size(None, 3), 3);
    assert!(available_parallelism() >= 1);
}

#[test]
fn worker_exits_on_terminate_or_closed_channel() {
    let mut a = WorkerState::new(2);
    assert!(matches!(a.on_receive::<u8>(Some(Message::Terminate)), WorkerAction::Exit));
    assert!(a.is_terminated());
    assert_eq!(a.id(), 2);
    let mut b = WorkerState::new(3);
    assert!(matches!(b.on_receive::<u8>(None), WorkerAction::Exit));
    assert!(b.is_terminated());
}

#[test]
fn send_failure_is_reported_without_rollback() {
    let pool = PoolControl::new(2).unwrap();
    let mut counter = JobCounter::new();
    pool.begin_submit(&mut counter).unwrap();
    assert_eq!(send_outcome(false), Err(PoolError::SendFailed));
    // the reserved slot stays until the next shutdown resets the counter
    assert_eq!(counter.get(), 1);
    counter.reset();
    assert_eq!(counter.get(), 0);
}

#[test]
fn completing_at_zero_stays_at_zero() {
    let mut counter = JobCounter::new();
    counter.complete();
    assert_eq!(counter.get(), 0);
}

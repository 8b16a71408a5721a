use hello_server::pool::{saturate_fresh_pool, ClaimOutcome, PoolError, ThreadPool, WorkerPhase};

#[test]
fn new_zero_is_configuration_error() {
    let r = ThreadPool::new(0);
    assert!(matches!(r, Err(PoolError::ConfigurationError)));
}

#[test]
fn new_spawns_exactly_n_workers() {
    for n in 1..=4 {
        let p = ThreadPool::new(n).unwrap();
        assert_eq!(p.size(), n);
        assert!(p.is_accepting());
        assert_eq!(p.queue_len(), 0);
        assert_eq!(p.executed_len(), 0);
        assert_eq!(p.joined_count(), 0);
        for w in 0..n {
            assert_eq!(p.worker_phase(w), WorkerPhase::Waiting);
        }
    }
}

#[test]
fn all_workers_run_concurrently() {
    let mut p = ThreadPool::new(3).unwrap();
    assert!(p.execute(1).is_ok());
    assert!(p.execute(2).is_ok());
    assert!(p.execute(3).is_ok());
    assert_eq!(p.claim(0), ClaimOutcome::Execute(1));
    assert_eq!(p.claim(1), ClaimOutcome::Execute(2));
    assert_eq!(p.claim(2), ClaimOutcome::Execute(3));
    // all three workers hold distinct jobs at once, none completed yet
    assert_eq!(p.worker_phase(0), WorkerPhase::Executing(1));
    assert_eq!(p.worker_phase(1), WorkerPhase::Executing(2));
    assert_eq!(p.worker_phase(2), WorkerPhase::Executing(3));
    assert_eq!(p.executed_len(), 3);
}

#[test]
fn saturation_reaches_all_workers_at_once() {
    let jobs = vec![11, 22, 33, 44];
    let p = saturate_fresh_pool(&jobs);
    assert_eq!(p.size(), 4);
    assert_eq!(p.queue_len(), 0);
    assert_eq!(p.executed_len(), 4);
    for (i, job) in jobs.iter().enumerate() {
        assert_eq!(p.worker_phase(i), WorkerPhase::Executing(*job));
    }
}

#[test]
fn single_worker_serializes() {
    let mut p = ThreadPool::new(1).unwrap();
    assert!(p.execute(1).is_ok());
    assert!(p.execute(2).is_ok());
    // job 1 occupies the only worker; job 2 stays queued
    assert_eq!(p.claim(0), ClaimOutcome::Execute(1));
    assert_eq!(p.worker_phase(0), WorkerPhase::Executing(1));
    assert_eq!(p.queue_len(), 1);
    // only after job 1 releases the worker can job 2 start
    p.complete(0, true);
    assert_eq!(p.claim(0), ClaimOutcome::Execute(2));
    assert_eq!(p.worker_phase(0), WorkerPhase::Executing(2));
}

#[test]
fn shutdown_drains_all_jobs() {
    let mut p = ThreadPool::new(2).unwrap();
    assert!(p.execute(10).is_ok());
    assert!(p.execute(20).is_ok());
    assert!(p.execute(30).is_ok());
    p.begin_shutdown();
    // already-queued jobs are still claimed and run, in FIFO order
    assert_eq!(p.claim(0), ClaimOutcome::Execute(10));
    assert_eq!(p.claim(1), ClaimOutcome::Execute(20));
    p.complete(0, true);
    p.complete(1, true);
    assert_eq!(p.claim(0), ClaimOutcome::Execute(30));
    p.complete(0, true);
    // closed and drained: each worker stops
    assert_eq!(p.claim(0), ClaimOutcome::Stop);
    assert_eq!(p.claim(1), ClaimOutcome::Stop);
    assert_eq!(p.worker_phase(0), WorkerPhase::Stopped);
    assert_eq!(p.worker_phase(1), WorkerPhase::Stopped);
    // joined in ascending id order
    assert_eq!(p.join_next(), 0);
    assert_eq!(p.join_next(), 1);
    assert_eq!(p.joined_count(), 2);
    // no job lost, none duplicated
    assert_eq!(p.queue_len(), 0);
    assert_eq!(p.executed_len(), 3);
    assert_eq!(p.executed_job(0), 10);
    assert_eq!(p.executed_job(1), 20);
    assert_eq!(p.executed_job(2), 30);
}

#[test]
fn submission_after_shutdown_is_rejected() {
    let mut p = ThreadPool::new(2).unwrap();
    p.begin_shutdown();
    let r = p.execute(5);
    assert!(matches!(r, Err(PoolError::QueueClosedError)));
    // and it had no side effect
    assert_eq!(p.queue_len(), 0);
    assert_eq!(p.executed_len(), 0);
}

#[test]
fn begin_shutdown_is_idempotent() {
    let mut p = ThreadPool::new(1).unwrap();
    assert!(p.execute(1).is_ok());
    p.begin_shutdown();
    p.begin_shutdown();
    assert!(!p.is_accepting());
    // the queued job survived both calls
    assert_eq!(p.queue_len(), 1);
    assert_eq!(p.claim(0), ClaimOutcome::Execute(1));
}

#[test]
fn worker_survives_failed_job() {
    let mut p = ThreadPool::new(1).unwrap();
    assert!(p.execute(4).is_ok());
    assert_eq!(p.claim(0), ClaimOutcome::Execute(4));
    // the job fails; the failure is contained and the worker waits again
    p.complete(0, false);
    assert_eq!(p.worker_phase(0), WorkerPhase::Waiting);
    assert!(p.execute(5).is_ok());
    assert_eq!(p.claim(0), ClaimOutcome::Execute(5));
}

#[test]
fn open_and_empty_queue_means_wait() {
    let mut p = ThreadPool::new(1).unwrap();
    assert_eq!(p.claim(0), ClaimOutcome::Wait);
    assert_eq!(p.worker_phase(0), WorkerPhase::Waiting);
    assert_eq!(p.queue_len(), 0);
}

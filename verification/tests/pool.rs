use fezer::error::err_eq;
use fezer::error::IoError;
use fezer::error::IoErrorKind;
use fezer::error::NewThreadPoolError;
use fezer::error::StartThreadsError;
use fezer::error::TryScheduleError;
use fezer::inner::WorkStep;
use fezer::threadpool::ThreadPool;

fn own(s: &str) -> String {
    s.to_string()
}

#[test]
fn new_rejects_empty_name() {
    match ThreadPool::<u64>::new("", 3) {
        Err(NewThreadPoolError::Parameter(msg)) => {
            assert_eq!(msg, own("ThreadPool::new called with empty name"));
        }
        _ => panic!("an empty name must be rejected"),
    }
}

#[test]
fn new_rejects_zero_size() {
    match ThreadPool::<u64>::new("worker", 0) {
        Err(NewThreadPoolError::Parameter(msg)) => {
            assert_eq!(msg, own("ThreadPool::new called with invalid size value: 0"));
        }
        _ => panic!("a zero size must be rejected"),
    }
}

#[test]
fn new_starts_and_names_the_workers() {
    let mut pool = ThreadPool::<u64>::new("worker", 3).unwrap();
    assert_eq!(pool.size(), 3);
    assert_eq!(pool.num_live_threads(), 3);
    let names = pool.inner_mut().take_spawn_requests();
    assert_eq!(names, vec![own("worker-0"), own("worker-1"), own("worker-2")]);
}

#[test]
fn schedule_then_workers_run_jobs_in_order() {
    let mut pool = ThreadPool::<u64>::new("w", 1).unwrap();
    pool.schedule(1);
    pool.schedule(2);
    pool.schedule(3);
    let inner = pool.inner_mut();
    assert!(matches!(inner.work(), WorkStep::Run(1)));
    assert!(matches!(inner.work(), WorkStep::Run(2)));
    assert!(matches!(inner.work(), WorkStep::Run(3)));
    assert!(matches!(inner.work(), WorkStep::Idle));
}

#[test]
fn try_schedule_fails_when_queue_is_full() {
    // A pool of one worker has a queue bound of two hundred jobs.
    let mut pool = ThreadPool::<u64>::new("w", 1).unwrap();
    for k in 0..200 {
        assert!(pool.try_schedule(k).is_ok());
    }
    assert!(matches!(pool.try_schedule(200), Err(TryScheduleError::QueueFull)));
}

#[test]
fn pool_recovers_from_panicking_jobs() {
    // Five jobs on a pool of three workers; the zero-valued jobs panic their
    // worker.  After the queue drains the live count is back at three and
    // the other three jobs have completed.
    let mut pool = ThreadPool::<u64>::new("w", 3).unwrap();
    for job in [1, 0, 2, 0, 3] {
        pool.schedule(job);
    }
    let inner = pool.inner_mut();
    let mut completed: Vec<u64> = Vec::new();
    let mut panicked = 0;
    loop {
        match inner.work() {
            WorkStep::Run(job) => {
                if job == 0 {
                    // The job panics; its worker's thread dies.
                    inner.worker_panicked();
                    panicked += 1;
                } else {
                    completed.push(job);
                    // The worker replenishes again after running its job.
                    let _ = inner.start_threads();
                }
            }
            WorkStep::Idle => break,
            WorkStep::Exit => panic!("the pool is still open"),
        }
    }
    assert_eq!(panicked, 2);
    assert_eq!(completed, vec![1, 2, 3]);
    assert_eq!(inner.num_live_threads(), 3);
}

#[test]
fn try_join_times_out_while_workers_live() {
    let mut pool = ThreadPool::<u64>::new("w", 2).unwrap();
    // A job that would never return sits in the queue; no worker stops.
    pool.schedule(99);
    let r = pool.try_join(100);
    assert_eq!(r, Err(own("timed out waiting for ThreadPool workers to stop")));
}

#[test]
fn join_closes_the_queue_and_workers_drain_then_exit() {
    let mut pool = ThreadPool::<u64>::new("w", 2).unwrap();
    pool.schedule(5);
    let mut inner = pool.join();
    // The remaining job is still delivered after the close...
    assert!(matches!(inner.work(), WorkStep::Run(5)));
    let _ = inner.start_threads();
    // ...then each worker observes the disconnect and exits.
    assert!(matches!(inner.work(), WorkStep::Exit));
    assert!(matches!(inner.work(), WorkStep::Exit));
    assert_eq!(inner.num_live_threads(), 0);
}

#[test]
fn replenish_restores_the_live_count() {
    let mut pool = ThreadPool::<u64>::new("w", 3).unwrap();
    let inner = pool.inner_mut();
    inner.worker_panicked();
    inner.worker_panicked();
    assert_eq!(inner.num_live_threads(), 1);
    assert!(inner.start_threads().is_ok());
    assert_eq!(inner.num_live_threads(), 3);
    // The replacements continue the numbering.
    let names = inner.take_spawn_requests();
    assert_eq!(names, vec![own("w-0"), own("w-1"), own("w-2"), own("w-3"), own("w-4")]);
}

#[test]
fn spawn_failures_are_classified_by_remaining_workers() {
    let mut pool = ThreadPool::<u64>::new("w", 2).unwrap();
    let inner = pool.inner_mut();
    let boom = IoError::new(IoErrorKind::Other, own("boom"));
    match inner.spawn_failed(boom) {
        StartThreadsError::Respawn(e) => {
            assert_eq!(e.kind, IoErrorKind::Other);
            assert_eq!(e.message, own("boom"));
        }
        StartThreadsError::NoThreads(_) => panic!("one worker still lives"),
    }
    let boom = IoError::new(IoErrorKind::Other, own("boom"));
    assert!(matches!(inner.spawn_failed(boom), StartThreadsError::NoThreads(_)));
    assert_eq!(inner.num_live_threads(), 0);
}

#[test]
fn thread_limit_classifies_no_threads_and_respawn() {
    let mut pool = ThreadPool::<u64>::new("w", 2).unwrap();
    {
        let inner = pool.inner_mut();
        inner.worker_panicked();
        inner.worker_panicked();
        inner.set_max_threads(0);
    }
    // No worker lives and none may be started: NoThreads.
    match pool.try_schedule(1) {
        Err(TryScheduleError::NoThreads(e)) => {
            assert_eq!(e.kind, IoErrorKind::Other);
            assert_eq!(e.message, own("Number of threads reached the upper limit"));
        }
        _ => panic!("the spawn limit must classify as NoThreads at zero workers"),
    }
    // One worker may start, then the limit bites again: Respawn.
    pool.inner_mut().set_max_threads(1);
    match pool.try_schedule(2) {
        Err(TryScheduleError::Respawn(e)) => {
            assert_eq!(e.kind, IoErrorKind::Other);
            assert_eq!(e.message, own("Number of threads reached the upper limit"));
        }
        _ => panic!("the spawn limit must classify as Respawn once a worker lives"),
    }
    assert_eq!(pool.num_live_threads(), 1);
}

#[test]
fn error_messages_render_as_documented() {
    let e = StartThreadsError::NoThreads(IoError::new(IoErrorKind::Other, own("x")));
    assert_eq!(
        e.message(),
        own("ThreadPool workers all panicked, failed starting replacement threads: x"),
    );
    let e = StartThreadsError::Respawn(IoError::new(IoErrorKind::Other, own("y")));
    assert_eq!(
        e.message(),
        own("ThreadPool failed starting threads to replace panicked threads: y"),
    );
    let e = NewThreadPoolError::Parameter(own("bad"));
    assert_eq!(e.message(), own("bad"));
    let e = NewThreadPoolError::Spawn(IoError::new(IoErrorKind::Other, own("z")));
    assert_eq!(e.message(), own("ThreadPool failed starting threads: z"));
    let e = TryScheduleError::QueueFull;
    assert_eq!(e.message(), own("ThreadPool queue is full"));
}

#[test]
fn errors_convert_to_io_errors_with_the_documented_kinds() {
    let e = NewThreadPoolError::Parameter(own("bad")).into_io_error();
    assert_eq!(e.kind, IoErrorKind::InvalidInput);
    assert_eq!(e.message, own("bad"));

    let e = NewThreadPoolError::Spawn(IoError::new(IoErrorKind::PermissionDenied, own("no")))
        .into_io_error();
    assert_eq!(e.kind, IoErrorKind::Other);
    assert_eq!(e.message, own("failed to start threads: no"));

    let e = TryScheduleError::QueueFull.into_io_error();
    assert_eq!(e.kind, IoErrorKind::WouldBlock);
    assert_eq!(e.message, own("TryScheduleError::QueueFull"));

    // Spawn failures keep their underlying kind.
    let e = TryScheduleError::NoThreads(IoError::new(IoErrorKind::PermissionDenied, own("no")))
        .into_io_error();
    assert_eq!(e.kind, IoErrorKind::PermissionDenied);
    assert_eq!(
        e.message,
        own("ThreadPool workers all panicked, failed starting replacement threads: no"),
    );
    let e = TryScheduleError::Respawn(IoError::new(IoErrorKind::TimedOut, own("slow")))
        .into_io_error();
    assert_eq!(e.kind, IoErrorKind::TimedOut);
    assert_eq!(
        e.message,
        own("ThreadPool failed starting threads to replace panicked threads: slow"),
    );
}

#[test]
fn error_equality_compares_kind_and_message() {
    let a = IoError::new(IoErrorKind::Other, own("x"));
    let b = IoError::new(IoErrorKind::Other, own("x"));
    let c = IoError::new(IoErrorKind::TimedOut, own("x"));
    let d = IoError::new(IoErrorKind::Other, own("y"));
    assert!(err_eq(&a, &b));
    assert!(!err_eq(&a, &c));
    assert!(!err_eq(&a, &d));

    let e1 = StartThreadsError::NoThreads(IoError::new(IoErrorKind::Other, own("x")));
    let e2 = StartThreadsError::NoThreads(IoError::new(IoErrorKind::Other, own("x")));
    let e3 = StartThreadsError::Respawn(IoError::new(IoErrorKind::Other, own("x")));
    assert_eq!(e1, e2);
    assert_ne!(e1, e3);

    assert_eq!(TryScheduleError::QueueFull, TryScheduleError::QueueFull);
    assert_ne!(
        TryScheduleError::QueueFull,
        TryScheduleError::NoThreads(IoError::new(IoErrorKind::Other, own("x"))),
    );

    let p1 = NewThreadPoolError::Parameter(own("m"));
    let p2 = NewThreadPoolError::Parameter(own("m"));
    let s1 = NewThreadPoolError::Spawn(IoError::new(IoErrorKind::Other, own("m")));
    assert_eq!(p1, p2);
    assert_ne!(p1, s1);
}

#[test]
fn start_errors_convert_into_schedule_and_pool_errors() {
    let e = StartThreadsError::NoThreads(IoError::new(IoErrorKind::Other, own("x")));
    assert!(matches!(TryScheduleError::from(e), TryScheduleError::NoThreads(_)));
    let e = StartThreadsError::Respawn(IoError::new(IoErrorKind::Other, own("x")));
    assert!(matches!(TryScheduleError::from(e), TryScheduleError::Respawn(_)));
    let e = StartThreadsError::NoThreads(IoError::new(IoErrorKind::Other, own("x")));
    assert!(matches!(NewThreadPoolError::from(e), NewThreadPoolError::Spawn(_)));
}

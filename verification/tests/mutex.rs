use fezer::channel::Poll;
use fezer::mutex::Mutex;

#[test]
fn lock_grants_only_one_guard_at_a_time() {
    let mut m = Mutex::new(0u64);
    let f1 = m.lock();
    let f2 = m.lock();
    let g = match f1.poll(&mut m, 1) {
        Poll::Ready(g) => g,
        Poll::Pending => panic!("an unlocked mutex must be taken on the spot"),
    };
    // While the guard exists every further acquisition suspends.
    assert!(matches!(f2.poll(&mut m, 2), Poll::Pending));
    assert!(matches!(f2.poll(&mut m, 3), Poll::Pending));
    g.unlock(&mut m);
    // The release woke the queued waiters, in FIFO order.
    assert_eq!(m.take_wakes(), vec![2, 3]);
    // Now the lock can be taken again.
    assert!(matches!(f2.poll(&mut m, 2), Poll::Ready(_)));
}

#[test]
fn guard_reads_and_writes_the_protected_value() {
    let mut m = Mutex::new(10u64);
    let g = match m.lock().poll(&mut m, 1) {
        Poll::Ready(g) => g,
        Poll::Pending => panic!("an unlocked mutex must be taken on the spot"),
    };
    assert_eq!(*g.read(&m), 10);
    let v = *g.read(&m) + 5;
    g.write(&mut m, v);
    assert_eq!(*g.read(&m), 15);
    g.unlock(&mut m);
    assert_eq!(m.take_wakes(), Vec::<u64>::new());
}

#[test]
fn release_wakes_every_waiter_and_allows_barging() {
    let mut m = Mutex::new(0u64);
    let g = match m.lock().poll(&mut m, 1) {
        Poll::Ready(g) => g,
        Poll::Pending => panic!("an unlocked mutex must be taken on the spot"),
    };
    assert!(matches!(m.lock().poll(&mut m, 2), Poll::Pending));
    g.unlock(&mut m);
    assert_eq!(m.take_wakes(), vec![2]);
    // A newly arriving acquirer may barge in ahead of the woken waiter.
    let barger = match m.lock().poll(&mut m, 9) {
        Poll::Ready(g) => g,
        Poll::Pending => panic!("the released mutex must be takeable"),
    };
    // The woken waiter then queues again.
    assert!(matches!(m.lock().poll(&mut m, 2), Poll::Pending));
    barger.unlock(&mut m);
    assert_eq!(m.take_wakes(), vec![2]);
}

#[test]
fn mutex_serializes_task_increments() {
    // Three "tasks" each add one to the protected counter, suspending when
    // the mutex is held; every increment lands.
    let mut m = Mutex::new(0u64);
    for waker in 0..3u64 {
        let g = match m.lock().poll(&mut m, waker) {
            Poll::Ready(g) => g,
            Poll::Pending => panic!("the mutex is free between iterations"),
        };
        let v = *g.read(&m) + 1;
        g.write(&mut m, v);
        g.unlock(&mut m);
        m.take_wakes();
    }
    let g = match m.lock().poll(&mut m, 7) {
        Poll::Ready(g) => g,
        Poll::Pending => panic!("the mutex is free at the end"),
    };
    assert_eq!(*g.read(&m), 3);
    g.unlock(&mut m);
}

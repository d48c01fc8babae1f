use fezer::channel::oneshot;
use fezer::channel::sync_channel;
use fezer::channel::Poll;
use fezer::channel::RecvError;
use fezer::channel::RecvTimeoutError;
use fezer::channel::SendError;
use fezer::channel::SendFut;
use fezer::channel::TryRecvError;
use fezer::channel::TrySendError;

#[test]
fn oneshot_delivers_exactly_one_value() {
    let (tx, rx, mut inner) = oneshot::<u64>();
    assert_eq!(tx.send(&mut inner, 7), Ok(()));
    assert_eq!(rx.try_recv(&mut inner), Ok(7));
    // The sender is consumed, so the only further outcome is the disconnect.
    assert_eq!(rx.try_recv(&mut inner), Err(TryRecvError::Disconnected));
}

#[test]
fn oneshot_send_to_dropped_receiver_returns_value() {
    let (tx, rx, mut inner) = oneshot::<u64>();
    rx.disconnect(&mut inner);
    assert_eq!(tx.send(&mut inner, 9), Err(SendError(9)));
}

#[test]
fn oneshot_dropped_sender_wakes_suspended_receiver() {
    let (tx, rx, mut inner) = oneshot::<u64>();
    // The receiver suspends on the empty queue under waker 5.
    assert_eq!(rx.poll(&mut inner, 5), Poll::Pending);
    // Dropping the sender hands the receiver's waker out to be woken...
    tx.disconnect(&mut inner);
    assert_eq!(inner.take_wakes(), vec![5]);
    // ...and the woken receiver observes the disconnect.
    assert_eq!(rx.poll(&mut inner, 5), Poll::Ready(Err(RecvError)));
}

#[test]
fn bounded_send_then_recv_in_order() {
    let (tx, rx, mut inner) = sync_channel::<u64>(3);
    assert_eq!(tx.try_send(&mut inner, 1), Ok(()));
    assert_eq!(tx.try_send(&mut inner, 2), Ok(()));
    assert_eq!(tx.try_send(&mut inner, 3), Ok(()));
    assert_eq!(rx.try_recv(&mut inner), Ok(1));
    assert_eq!(rx.try_recv(&mut inner), Ok(2));
    assert_eq!(rx.try_recv(&mut inner), Ok(3));
    assert_eq!(rx.try_recv(&mut inner), Err(TryRecvError::Empty));
}

#[test]
fn bounded_queue_never_exceeds_capacity() {
    let (tx, _rx, mut inner) = sync_channel::<u64>(1);
    assert_eq!(tx.try_send(&mut inner, 1), Ok(()));
    assert_eq!(tx.try_send(&mut inner, 2), Err(TrySendError::Full(2)));
    assert_eq!(tx.try_send(&mut inner, 3), Err(TrySendError::Full(3)));
}

#[test]
fn try_send_to_dropped_receiver_is_disconnected() {
    let (tx, rx, mut inner) = sync_channel::<u64>(1);
    rx.disconnect(&mut inner);
    assert_eq!(tx.try_send(&mut inner, 4), Err(TrySendError::Disconnected(4)));
}

#[test]
fn receive_from_full_queue_wakes_all_suspended_senders() {
    let (tx, rx, mut inner) = sync_channel::<u64>(1);
    assert_eq!(tx.try_send(&mut inner, 1), Ok(()));
    // Two sends suspend on the full queue, registering wakers 11 and 12.
    let mut f1 = SendFut::new(2u64);
    let mut f2 = SendFut::new(3u64);
    assert_eq!(f1.poll(&mut inner, 11), Poll::Pending);
    assert_eq!(f2.poll(&mut inner, 12), Poll::Pending);
    assert_eq!(inner.take_wakes(), Vec::<u64>::new());
    // The receive that makes space wakes every suspended sender, in order.
    assert_eq!(rx.try_recv(&mut inner), Ok(1));
    assert_eq!(inner.take_wakes(), vec![11, 12]);
    // The woken senders retry; capacity one admits one of them.
    assert_eq!(f1.poll(&mut inner, 11), Poll::Ready(Ok(())));
    assert_eq!(f2.poll(&mut inner, 12), Poll::Pending);
}

#[test]
fn receiver_waker_replacement_drops_stale_waker_unwoken() {
    let (tx, rx, mut inner) = sync_channel::<u64>(1);
    // The receiver suspends twice; the second registration replaces the
    // first, which is never woken.
    assert_eq!(rx.poll(&mut inner, 21), Poll::Pending);
    assert_eq!(rx.poll(&mut inner, 22), Poll::Pending);
    assert_eq!(tx.try_send(&mut inner, 8), Ok(()));
    assert_eq!(inner.take_wakes(), vec![22]);
}

#[test]
fn successful_send_wakes_suspended_receiver() {
    let (tx, rx, mut inner) = sync_channel::<u64>(2);
    assert_eq!(rx.poll(&mut inner, 3), Poll::Pending);
    assert_eq!(tx.send(&mut inner, 10), Ok(()));
    assert_eq!(inner.take_wakes(), vec![3]);
    assert_eq!(rx.poll(&mut inner, 3), Poll::Ready(Ok(10)));
}

#[test]
fn last_sender_drop_wakes_receiver() {
    let (tx, rx, mut inner) = sync_channel::<u64>(1);
    let tx2 = tx.duplicate(&mut inner);
    assert_eq!(rx.poll(&mut inner, 40), Poll::Pending);
    // Dropping one of two senders wakes nobody.
    tx.disconnect(&mut inner);
    assert_eq!(inner.take_wakes(), Vec::<u64>::new());
    // Dropping the last one wakes the suspended receiver.
    tx2.disconnect(&mut inner);
    assert_eq!(inner.take_wakes(), vec![40]);
    assert_eq!(rx.poll(&mut inner, 40), Poll::Ready(Err(RecvError)));
}

#[test]
fn receiver_drop_wakes_all_suspended_senders() {
    let (tx, rx, mut inner) = sync_channel::<u64>(1);
    assert_eq!(tx.try_send(&mut inner, 1), Ok(()));
    let mut f1 = SendFut::new(2u64);
    let mut f2 = SendFut::new(3u64);
    assert_eq!(f1.poll(&mut inner, 51), Poll::Pending);
    assert_eq!(f2.poll(&mut inner, 52), Poll::Pending);
    rx.disconnect(&mut inner);
    assert_eq!(inner.take_wakes(), vec![51, 52]);
    assert_eq!(f1.poll(&mut inner, 51), Poll::Ready(Err(SendError(2))));
    assert_eq!(f2.poll(&mut inner, 52), Poll::Ready(Err(SendError(3))));
}

#[test]
fn recv_returns_value_or_disconnect() {
    let (tx, rx, mut inner) = sync_channel::<u64>(2);
    assert_eq!(tx.try_send(&mut inner, 5), Ok(()));
    assert_eq!(rx.recv(&mut inner), Ok(5));
    tx.disconnect(&mut inner);
    assert_eq!(rx.recv(&mut inner), Err(RecvError));
}

#[test]
fn recv_timeout_times_out_on_empty_queue_with_senders() {
    let (tx, rx, mut inner) = sync_channel::<u64>(1);
    assert_eq!(rx.recv_timeout(&mut inner, 50), Err(RecvTimeoutError::Timeout));
    assert_eq!(tx.try_send(&mut inner, 6), Ok(()));
    assert_eq!(rx.recv_timeout(&mut inner, 50), Ok(6));
    tx.disconnect(&mut inner);
    assert_eq!(rx.recv_timeout(&mut inner, 50), Err(RecvTimeoutError::Disconnected));
}

#[test]
fn recv_deadline_behaves_as_recv_timeout() {
    let (tx, rx, mut inner) = sync_channel::<u64>(1);
    assert_eq!(rx.recv_deadline(&mut inner, 100), Err(RecvTimeoutError::Timeout));
    assert_eq!(tx.try_send(&mut inner, 6), Ok(()));
    assert_eq!(rx.recv_deadline(&mut inner, 100), Ok(6));
}

#[test]
fn try_iter_stops_at_first_empty() {
    let (tx, rx, mut inner) = sync_channel::<u64>(3);
    assert_eq!(tx.try_send(&mut inner, 1), Ok(()));
    assert_eq!(tx.try_send(&mut inner, 2), Ok(()));
    let mut it = rx.try_iter();
    assert_eq!(it.next(&rx, &mut inner), Some(1));
    assert_eq!(it.next(&rx, &mut inner), Some(2));
    assert_eq!(it.next(&rx, &mut inner), None);
}

#[test]
fn iter_yields_until_disconnect() {
    let (tx, rx, mut inner) = sync_channel::<u64>(3);
    assert_eq!(tx.try_send(&mut inner, 1), Ok(()));
    assert_eq!(tx.try_send(&mut inner, 2), Ok(()));
    tx.disconnect(&mut inner);
    let mut it = rx.iter();
    assert_eq!(it.next(&rx, &mut inner), Some(1));
    assert_eq!(it.next(&rx, &mut inner), Some(2));
    assert_eq!(it.next(&rx, &mut inner), None);
}

#[test]
fn into_iter_owns_the_receiver() {
    let (tx, rx, mut inner) = sync_channel::<u64>(3);
    assert_eq!(tx.try_send(&mut inner, 4), Ok(()));
    tx.disconnect(&mut inner);
    let mut it = rx.into_iter();
    assert_eq!(it.next(&mut inner), Some(4));
    assert_eq!(it.next(&mut inner), None);
}

#[test]
fn send_blocking_on_disconnected_returns_value() {
    let (tx, rx, mut inner) = sync_channel::<u64>(1);
    rx.disconnect(&mut inner);
    assert_eq!(tx.send(&mut inner, 13), Err(SendError(13)));
}

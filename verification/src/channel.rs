//! Bounded multi-producer/single-consumer and one-shot channels.
//!
//! The shared state of a channel — the bounded FIFO of values, the list of
//! wakers of senders suspended on a full queue, and the single cell for the
//! waker of a receiver suspended on an empty queue — is the explicit value
//! `Inner<T>`.  Handles (`OneSender`, `SyncSender`, `Receiver`) are
//! capabilities whose operations are state transitions on that value.
//!
//! In a threaded embedding the state sits behind a lock and wakes are
//! invoked after the lock is released.  Here each transition records the wakers that
//! must be woken in a pending list; the driver takes them with `take_wakes`
//! and performs the wakes, which renders exactly the "capture under the lock,
//! wake outside the lock" discipline.
//!
//! A waker is a plain `u64` token chosen by the driver (the executor uses the
//! task id).

use vstd::prelude::*;

verus! {

/// Error of a blocking or one-shot send: the receiver is gone.
/// The value is handed back so the caller can recover it.
#[derive(Debug, PartialEq, Eq)]
pub struct SendError<T>(pub T);

/// Error of a non-blocking send.
#[derive(Debug, PartialEq, Eq)]
pub enum TrySendError<T> {
    /// The queue holds `capacity` values; the value is handed back.
    Full(T),
    /// The receiver is gone; the value is handed back.
    Disconnected(T),
}

/// Error of a blocking receive: all senders are gone and the queue is empty.
#[derive(Debug, PartialEq, Eq)]
pub struct RecvError;

/// Error of a non-blocking receive.
#[derive(Debug, PartialEq, Eq)]
pub enum TryRecvError {
    /// The queue is empty but senders remain.
    Empty,
    /// All senders are gone and the queue is empty.
    Disconnected,
}

/// Error of a receive bounded by a timeout or deadline.
#[derive(Debug, PartialEq, Eq)]
pub enum RecvTimeoutError {
    /// No value arrived in time.
    Timeout,
    /// All senders are gone and the queue is empty.
    Disconnected,
}

/// Result of polling a suspendable operation.
#[derive(Debug, PartialEq, Eq)]
pub enum Poll<T> {
    Ready(T),
    Pending,
}

/// The shared state of one channel.
pub struct Inner<T> {
    queue: Vec<T>,
    capacity: usize,
    senders: usize,
    receiver_alive: bool,
    sender_wakers: Vec<u64>,
    receiver_waker: Option<u64>,
    pending_wakes: Vec<u64>,
}

impl<T> Inner<T> {
    /// The values currently queued, oldest first.
    pub closed spec fn queue(self) -> Seq<T> {
        self.queue@
    }

    /// The fixed bound on the queue, at least 1.
    pub closed spec fn capacity(self) -> nat {
        self.capacity as nat
    }

    /// How many sender handles are still live.
    pub closed spec fn senders(self) -> nat {
        self.senders as nat
    }

    /// Whether the receiver handle is still live.
    pub closed spec fn receiver_alive(self) -> bool {
        self.receiver_alive
    }

    /// Wakers of senders suspended on a full queue, oldest first.
    pub closed spec fn sender_wakers(self) -> Seq<u64> {
        self.sender_wakers@
    }

    /// The waker of a receiver suspended on an empty queue, if any.
    pub closed spec fn receiver_waker(self) -> Option<u64> {
        self.receiver_waker
    }

    /// Wakes recorded by transitions and not yet taken by the driver.
    pub closed spec fn pending_wakes(self) -> Seq<u64> {
        self.pending_wakes@
    }

    /// The channel invariant: the queue never exceeds its capacity, the
    /// capacity is positive, and a receiver waker is only installed while the
    /// receiver is live.
    pub open spec fn wf(self) -> bool {
        &&& self.capacity() >= 1
        &&& self.queue().len() <= self.capacity()
        &&& (self.receiver_waker() is Some ==> self.receiver_alive())
    }

    /// The registries and liveness flags of `self` and `other` agree; only
    /// the queue may differ.
    pub open spec fn same_wakers_as(self, other: Self) -> bool {
        &&& self.senders() == other.senders()
        &&& self.receiver_alive() == other.receiver_alive()
        &&& self.sender_wakers() == other.sender_wakers()
        &&& self.receiver_waker() == other.receiver_waker()
        &&& self.pending_wakes() == other.pending_wakes()
    }

    /// The whole state of `self` and `other` agrees.
    pub open spec fn same_state_as(self, other: Self) -> bool {
        &&& self.same_wakers_as(other)
        &&& self.queue() == other.queue()
        &&& self.capacity() == other.capacity()
    }

    /// Hand out the wakes recorded so far; the driver must now wake each
    /// listed waker, in order.
    pub fn take_wakes(&mut self) -> (wakes: Vec<u64>)
        ensures
            wakes@ == old(self).pending_wakes(),
            final(self).pending_wakes() == Seq::<u64>::empty(),
            final(self).queue() == old(self).queue(),
            final(self).capacity() == old(self).capacity(),
            final(self).senders() == old(self).senders(),
            final(self).receiver_alive() == old(self).receiver_alive(),
            final(self).sender_wakers() == old(self).sender_wakers(),
            final(self).receiver_waker() == old(self).receiver_waker(),
            old(self).wf() ==> final(self).wf(),
    {
        let mut wakes: Vec<u64> = Vec::new();
        core::mem::swap(&mut self.pending_wakes, &mut wakes);
        wakes
    }
}

/// The sending half of a one-shot channel; consumed by `send`, so at most one
/// value ever enters the channel.
pub struct OneSender {
    _private: (),
}

/// The sending half of a bounded channel; any number may be live at once.
pub struct SyncSender {
    _private: (),
}

/// The receiving half of a channel; exactly one exists per channel.
pub struct Receiver {
    _private: (),
}

impl OneSender {
    /// Send the single value and give the sender up, as a send followed by
    /// the handle's drop: on success the value is queued and the receiver
    /// waker (if installed) is moved to the pending wakes; either way no
    /// sender remains afterwards.
    pub fn send<T>(self, inner: &mut Inner<T>, value: T) -> (r: Result<(), SendError<T>>)
        requires
            old(inner).wf(),
            old(inner).senders() == 1,
            old(inner).queue().len() < old(inner).capacity(),
        ensures
            final(inner).wf(),
            final(inner).senders() == 0,
            final(inner).capacity() == old(inner).capacity(),
            final(inner).sender_wakers() == old(inner).sender_wakers(),
            final(inner).receiver_alive() == old(inner).receiver_alive(),
            final(inner).receiver_waker() is None,
            old(inner).receiver_alive() ==> {
                &&& r == Ok::<(), SendError<T>>(())
                &&& final(inner).queue() == old(inner).queue().push(value)
                &&& final(inner).pending_wakes() == match old(inner).receiver_waker() {
                    Some(w) => old(inner).pending_wakes().push(w),
                    None => old(inner).pending_wakes(),
                }
            },
            !old(inner).receiver_alive() ==> {
                &&& r == Err::<(), SendError<T>>(SendError(value))
                &&& final(inner).queue() == old(inner).queue()
                &&& final(inner).pending_wakes() == old(inner).pending_wakes()
            },
    {
        inner.senders = 0;
        if inner.receiver_alive {
            inner.queue.push(value);
            if let Some(w) = inner.receiver_waker {
                inner.pending_wakes.push(w);
                inner.receiver_waker = None;
            }
            Ok(())
        } else {
            // The receiver is gone, so no waker can be installed.
            Err(SendError(value))
        }
    }

    /// Give the sender up without sending.  The receiver waker, if installed,
    /// moves to the pending wakes so a suspended receiver observes the
    /// disconnect.
    pub fn disconnect<T>(self, inner: &mut Inner<T>)
        requires
            old(inner).wf(),
            old(inner).senders() == 1,
        ensures
            final(inner).wf(),
            final(inner).senders() == 0,
            final(inner).queue() == old(inner).queue(),
            final(inner).capacity() == old(inner).capacity(),
            final(inner).sender_wakers() == old(inner).sender_wakers(),
            final(inner).receiver_alive() == old(inner).receiver_alive(),
            final(inner).receiver_waker() is None,
            final(inner).pending_wakes() == match old(inner).receiver_waker() {
                Some(w) => old(inner).pending_wakes().push(w),
                None => old(inner).pending_wakes(),
            },
    {
        inner.senders = 0;
        if let Some(w) = inner.receiver_waker {
            inner.pending_wakes.push(w);
            inner.receiver_waker = None;
        }
    }
}

/// The suspendable send of a bounded channel: holds the value until the queue
/// has space or the receiver is gone.
pub struct SendFut<T> {
    value: Option<T>,
}

impl<T> SendFut<T> {
    /// The value still waiting to be sent, if the send has not completed.
    pub closed spec fn value(self) -> Option<T> {
        self.value
    }

    pub fn new(value: T) -> (f: SendFut<T>)
        ensures
            f.value() == Some(value),
    {
        SendFut { value: Some(value) }
    }

    /// One poll of the suspendable send.  If the receiver is gone the send
    /// fails with the value handed back; if the queue is full the sender's
    /// waker joins the sender-waker list and the send stays pending;
    /// otherwise the value is queued and the receiver waker (if installed)
    /// moves to the pending wakes.
    pub fn poll(&mut self, inner: &mut Inner<T>, waker: u64) -> (r: Poll<
        Result<(), SendError<T>>,
    >)
        requires
            old(inner).wf(),
            old(self).value() is Some,
        ensures
            final(inner).wf(),
            final(inner).capacity() == old(inner).capacity(),
            final(inner).senders() == old(inner).senders(),
            final(inner).receiver_alive() == old(inner).receiver_alive(),
            !old(inner).receiver_alive() ==> {
                &&& r == Poll::Ready(Err::<(), SendError<T>>(
                    SendError(old(self).value()->0),
                ))
                &&& final(self).value() is None
                &&& final(inner).same_state_as(*old(inner))
            },
            (old(inner).receiver_alive() && old(inner).queue().len() >= old(
                inner,
            ).capacity()) ==> {
                &&& r is Pending
                &&& final(self).value() == old(self).value()
                &&& final(inner).queue() == old(inner).queue()
                &&& final(inner).sender_wakers() == old(inner).sender_wakers().push(waker)
                &&& final(inner).receiver_waker() == old(inner).receiver_waker()
                &&& final(inner).pending_wakes() == old(inner).pending_wakes()
            },
            (old(inner).receiver_alive() && old(inner).queue().len() < old(
                inner,
            ).capacity()) ==> {
                &&& r == Poll::Ready(Ok::<(), SendError<T>>(()))
                &&& final(self).value() is None
                &&& final(inner).queue() == old(inner).queue().push(old(self).value()->0)
                &&& final(inner).sender_wakers() == old(inner).sender_wakers()
                &&& final(inner).receiver_waker() is None
                &&& final(inner).pending_wakes() == match old(inner).receiver_waker() {
                    Some(w) => old(inner).pending_wakes().push(w),
                    None => old(inner).pending_wakes(),
                }
            },
    {
        if !inner.receiver_alive {
            let value = self.value.take().unwrap();
            return Poll::Ready(Err(SendError(value)));
        }
        if inner.queue.len() >= inner.capacity {
            inner.sender_wakers.push(waker);
            return Poll::Pending;
        }
        let value = self.value.take().unwrap();
        inner.queue.push(value);
        if let Some(w) = inner.receiver_waker {
            inner.pending_wakes.push(w);
            inner.receiver_waker = None;
        }
        Poll::Ready(Ok(()))
    }
}

impl SyncSender {
    /// Move the receiver's waker (if installed) to the pending wakes.
    pub fn wake_receiver<T>(&self, inner: &mut Inner<T>)
        requires
            old(inner).wf(),
        ensures
            final(inner).wf(),
            final(inner).queue() == old(inner).queue(),
            final(inner).capacity() == old(inner).capacity(),
            final(inner).senders() == old(inner).senders(),
            final(inner).receiver_alive() == old(inner).receiver_alive(),
            final(inner).sender_wakers() == old(inner).sender_wakers(),
            final(inner).receiver_waker() is None,
            final(inner).pending_wakes() == match old(inner).receiver_waker() {
                Some(w) => old(inner).pending_wakes().push(w),
                None => old(inner).pending_wakes(),
            },
    {
        if let Some(w) = inner.receiver_waker {
            inner.pending_wakes.push(w);
            inner.receiver_waker = None;
        }
    }

    /// Wake the receiver only after a successful send; failures leave every
    /// waker in place.
    pub fn wake_receiver_if_ok<T, E>(&self, inner: &mut Inner<T>, result: Result<(), E>) -> (r:
        Result<(), E>)
        requires
            old(inner).wf(),
        ensures
            r == result,
            final(inner).wf(),
            final(inner).queue() == old(inner).queue(),
            final(inner).capacity() == old(inner).capacity(),
            final(inner).senders() == old(inner).senders(),
            final(inner).receiver_alive() == old(inner).receiver_alive(),
            final(inner).sender_wakers() == old(inner).sender_wakers(),
            result is Ok ==> {
                &&& final(inner).receiver_waker() is None
                &&& final(inner).pending_wakes() == match old(inner).receiver_waker() {
                    Some(w) => old(inner).pending_wakes().push(w),
                    None => old(inner).pending_wakes(),
                }
            },
            result is Err ==> final(inner).same_wakers_as(*old(inner)),
    {
        if result.is_ok() {
            self.wake_receiver(inner);
        }
        result
    }

    /// The blocking send.  In this sequential rendering nothing can drain the
    /// queue while the caller waits, so the call is stated for the inputs on
    /// which the wait ends at once: a queue with space, or a gone receiver.
    pub fn send<T>(&self, inner: &mut Inner<T>, value: T) -> (r: Result<(), SendError<T>>)
        requires
            old(inner).wf(),
            old(inner).queue().len() < old(inner).capacity() || !old(inner).receiver_alive(),
        ensures
            final(inner).wf(),
            final(inner).capacity() == old(inner).capacity(),
            final(inner).senders() == old(inner).senders(),
            final(inner).receiver_alive() == old(inner).receiver_alive(),
            final(inner).sender_wakers() == old(inner).sender_wakers(),
            old(inner).receiver_alive() ==> {
                &&& r == Ok::<(), SendError<T>>(())
                &&& final(inner).queue() == old(inner).queue().push(value)
                &&& final(inner).receiver_waker() is None
                &&& final(inner).pending_wakes() == match old(inner).receiver_waker() {
                    Some(w) => old(inner).pending_wakes().push(w),
                    None => old(inner).pending_wakes(),
                }
            },
            !old(inner).receiver_alive() ==> {
                &&& r == Err::<(), SendError<T>>(SendError(value))
                &&& final(inner).same_state_as(*old(inner))
            },
    {
        if !inner.receiver_alive {
            return Err(SendError(value));
        }
        inner.queue.push(value);
        self.wake_receiver(inner);
        Ok(())
    }

    /// The non-blocking send: fails with `Disconnected` when the receiver is
    /// gone, with `Full` when the queue holds `capacity` values, and queues
    /// the value and wakes the receiver otherwise.
    pub fn try_send<T>(&self, inner: &mut Inner<T>, value: T) -> (r: Result<
        (),
        TrySendError<T>,
    >)
        requires
            old(inner).wf(),
        ensures
            final(inner).wf(),
            final(inner).capacity() == old(inner).capacity(),
            final(inner).senders() == old(inner).senders(),
            final(inner).receiver_alive() == old(inner).receiver_alive(),
            final(inner).sender_wakers() == old(inner).sender_wakers(),
            !old(inner).receiver_alive() ==> {
                &&& r == Err::<(), TrySendError<T>>(TrySendError::Disconnected(value))
                &&& final(inner).same_state_as(*old(inner))
            },
            (old(inner).receiver_alive() && old(inner).queue().len() >= old(
                inner,
            ).capacity()) ==> {
                &&& r == Err::<(), TrySendError<T>>(TrySendError::Full(value))
                &&& final(inner).same_state_as(*old(inner))
            },
            (old(inner).receiver_alive() && old(inner).queue().len() < old(
                inner,
            ).capacity()) ==> {
                &&& r == Ok::<(), TrySendError<T>>(())
                &&& final(inner).queue() == old(inner).queue().push(value)
                &&& final(inner).receiver_waker() is None
                &&& final(inner).pending_wakes() == match old(inner).receiver_waker() {
                    Some(w) => old(inner).pending_wakes().push(w),
                    None => old(inner).pending_wakes(),
                }
            },
    {
        if !inner.receiver_alive {
            return Err(TrySendError::Disconnected(value));
        }
        if inner.queue.len() >= inner.capacity {
            return Err(TrySendError::Full(value));
        }
        inner.queue.push(value);
        self.wake_receiver(inner);
        Ok(())
    }

    /// A further sender handle for the same channel.  The live-sender count
    /// must follow the handles, so cloning goes through the shared state.
    pub fn duplicate<T>(&self, inner: &mut Inner<T>) -> (s: SyncSender)
        requires
            old(inner).wf(),
            old(inner).senders() < usize::MAX,
        ensures
            final(inner).wf(),
            final(inner).senders() == old(inner).senders() + 1,
            final(inner).queue() == old(inner).queue(),
            final(inner).capacity() == old(inner).capacity(),
            final(inner).receiver_alive() == old(inner).receiver_alive(),
            final(inner).sender_wakers() == old(inner).sender_wakers(),
            final(inner).receiver_waker() == old(inner).receiver_waker(),
            final(inner).pending_wakes() == old(inner).pending_wakes(),
    {
        inner.senders = inner.senders + 1;
        SyncSender { _private: () }
    }

    /// Give this sender handle up.  When it was the last one, the receiver
    /// waker (if installed) moves to the pending wakes so a suspended
    /// receiver observes the disconnect.
    pub fn disconnect<T>(self, inner: &mut Inner<T>)
        requires
            old(inner).wf(),
            old(inner).senders() >= 1,
        ensures
            final(inner).wf(),
            final(inner).senders() == old(inner).senders() - 1,
            final(inner).queue() == old(inner).queue(),
            final(inner).capacity() == old(inner).capacity(),
            final(inner).receiver_alive() == old(inner).receiver_alive(),
            final(inner).sender_wakers() == old(inner).sender_wakers(),
            old(inner).senders() == 1 ==> {
                &&& final(inner).receiver_waker() is None
                &&& final(inner).pending_wakes() == match old(inner).receiver_waker() {
                    Some(w) => old(inner).pending_wakes().push(w),
                    None => old(inner).pending_wakes(),
                }
            },
            old(inner).senders() > 1 ==> {
                &&& final(inner).receiver_waker() == old(inner).receiver_waker()
                &&& final(inner).pending_wakes() == old(inner).pending_wakes()
            },
    {
        inner.senders = inner.senders - 1;
        if inner.senders == 0 {
            if let Some(w) = inner.receiver_waker {
                inner.pending_wakes.push(w);
                inner.receiver_waker = None;
            }
        }
    }
}

impl Receiver {
    /// Move every sender waker to the pending wakes, oldest first.  This is
    /// the "queue full becomes queue has space" transition: all suspended
    /// senders present at that moment are woken.
    pub fn wake_senders<T>(&self, inner: &mut Inner<T>)
        requires
            old(inner).wf(),
        ensures
            final(inner).wf(),
            final(inner).queue() == old(inner).queue(),
            final(inner).capacity() == old(inner).capacity(),
            final(inner).senders() == old(inner).senders(),
            final(inner).receiver_alive() == old(inner).receiver_alive(),
            final(inner).receiver_waker() == old(inner).receiver_waker(),
            final(inner).sender_wakers() == Seq::<u64>::empty(),
            final(inner).pending_wakes() == old(inner).pending_wakes() + old(
                inner,
            ).sender_wakers(),
    {
        let mut wakers: Vec<u64> = Vec::new();
        core::mem::swap(&mut inner.sender_wakers, &mut wakers);
        inner.pending_wakes.append(&mut wakers);
    }

    /// Wake the senders only after a receive that removed a value; failures
    /// leave every waker in place.
    pub fn wake_senders_if_ok<T, E>(&self, inner: &mut Inner<T>, result: Result<T, E>) -> (r:
        Result<T, E>)
        requires
            old(inner).wf(),
        ensures
            r == result,
            final(inner).wf(),
            final(inner).queue() == old(inner).queue(),
            final(inner).capacity() == old(inner).capacity(),
            final(inner).senders() == old(inner).senders(),
            final(inner).receiver_alive() == old(inner).receiver_alive(),
            final(inner).receiver_waker() == old(inner).receiver_waker(),
            result is Ok ==> {
                &&& final(inner).sender_wakers() == Seq::<u64>::empty()
                &&& final(inner).pending_wakes() == old(inner).pending_wakes() + old(
                    inner,
                ).sender_wakers()
            },
            result is Err ==> final(inner).same_wakers_as(*old(inner)),
    {
        if result.is_ok() {
            self.wake_senders(inner);
        }
        result
    }

    /// The non-blocking receive: takes the oldest queued value and wakes all
    /// suspended senders; on an empty queue it reports `Disconnected` when no
    /// sender remains and `Empty` otherwise.
    pub fn try_recv<T>(&self, inner: &mut Inner<T>) -> (r: Result<T, TryRecvError>)
        requires
            old(inner).wf(),
        ensures
            final(inner).wf(),
            final(inner).capacity() == old(inner).capacity(),
            final(inner).senders() == old(inner).senders(),
            final(inner).receiver_alive() == old(inner).receiver_alive(),
            final(inner).receiver_waker() == old(inner).receiver_waker(),
            old(inner).queue().len() > 0 ==> {
                &&& r == Ok::<T, TryRecvError>(old(inner).queue()[0])
                &&& final(inner).queue() == old(inner).queue().drop_first()
                &&& final(inner).sender_wakers() == Seq::<u64>::empty()
                &&& final(inner).pending_wakes() == old(inner).pending_wakes() + old(
                    inner,
                ).sender_wakers()
            },
            (old(inner).queue().len() == 0 && old(inner).senders() == 0) ==> {
                &&& r == Err::<T, TryRecvError>(TryRecvError::Disconnected)
                &&& final(inner).same_state_as(*old(inner))
            },
            (old(inner).queue().len() == 0 && old(inner).senders() > 0) ==> {
                &&& r == Err::<T, TryRecvError>(TryRecvError::Empty)
                &&& final(inner).same_state_as(*old(inner))
            },
    {
        if inner.queue.len() > 0 {
            let value = inner.queue.remove(0);
            self.wake_senders(inner);
            Ok(value)
        } else if inner.senders == 0 {
            Err(TryRecvError::Disconnected)
        } else {
            Err(TryRecvError::Empty)
        }
    }

    /// The blocking receive.  In this sequential rendering nothing can fill
    /// the queue while the caller waits, so the call is stated for the inputs
    /// on which the wait ends at once: a queued value, or no senders left.
    pub fn recv<T>(&self, inner: &mut Inner<T>) -> (r: Result<T, RecvError>)
        requires
            old(inner).wf(),
            old(inner).queue().len() > 0 || old(inner).senders() == 0,
        ensures
            final(inner).wf(),
            final(inner).capacity() == old(inner).capacity(),
            final(inner).senders() == old(inner).senders(),
            final(inner).receiver_alive() == old(inner).receiver_alive(),
            final(inner).receiver_waker() == old(inner).receiver_waker(),
            old(inner).queue().len() > 0 ==> {
                &&& r == Ok::<T, RecvError>(old(inner).queue()[0])
                &&& final(inner).queue() == old(inner).queue().drop_first()
                &&& final(inner).sender_wakers() == Seq::<u64>::empty()
                &&& final(inner).pending_wakes() == old(inner).pending_wakes() + old(
                    inner,
                ).sender_wakers()
            },
            old(inner).queue().len() == 0 ==> {
                &&& r == Err::<T, RecvError>(RecvError)
                &&& final(inner).same_state_as(*old(inner))
            },
    {
        if inner.queue.len() > 0 {
            let value = inner.queue.remove(0);
            self.wake_senders(inner);
            Ok(value)
        } else {
            Err(RecvError)
        }
    }

    /// The receive bounded by a timeout.  While the caller waits nothing can
    /// fill the queue, so an empty queue with live senders times out.
    pub fn recv_timeout<T>(&self, inner: &mut Inner<T>, _timeout_ms: u64) -> (r: Result<
        T,
        RecvTimeoutError,
    >)
        requires
            old(inner).wf(),
        ensures
            final(inner).wf(),
            final(inner).capacity() == old(inner).capacity(),
            final(inner).senders() == old(inner).senders(),
            final(inner).receiver_alive() == old(inner).receiver_alive(),
            final(inner).receiver_waker() == old(inner).receiver_waker(),
            old(inner).queue().len() > 0 ==> {
                &&& r == Ok::<T, RecvTimeoutError>(old(inner).queue()[0])
                &&& final(inner).queue() == old(inner).queue().drop_first()
                &&& final(inner).sender_wakers() == Seq::<u64>::empty()
                &&& final(inner).pending_wakes() == old(inner).pending_wakes() + old(
                    inner,
                ).sender_wakers()
            },
            (old(inner).queue().len() == 0 && old(inner).senders() == 0) ==> {
                &&& r == Err::<T, RecvTimeoutError>(RecvTimeoutError::Disconnected)
                &&& final(inner).same_state_as(*old(inner))
            },
            (old(inner).queue().len() == 0 && old(inner).senders() > 0) ==> {
                &&& r == Err::<T, RecvTimeoutError>(RecvTimeoutError::Timeout)
                &&& final(inner).same_state_as(*old(inner))
            },
    {
        match self.try_recv(inner) {
            Ok(value) => Ok(value),
            Err(TryRecvError::Disconnected) => Err(RecvTimeoutError::Disconnected),
            Err(TryRecvError::Empty) => Err(RecvTimeoutError::Timeout),
        }
    }

    /// The receive bounded by a deadline; behaves as `recv_timeout`.
    pub fn recv_deadline<T>(&self, inner: &mut Inner<T>, deadline_ms: u64) -> (r: Result<
        T,
        RecvTimeoutError,
    >)
        requires
            old(inner).wf(),
        ensures
            final(inner).wf(),
            final(inner).capacity() == old(inner).capacity(),
            final(inner).senders() == old(inner).senders(),
            final(inner).receiver_alive() == old(inner).receiver_alive(),
            final(inner).receiver_waker() == old(inner).receiver_waker(),
            old(inner).queue().len() > 0 ==> {
                &&& r == Ok::<T, RecvTimeoutError>(old(inner).queue()[0])
                &&& final(inner).queue() == old(inner).queue().drop_first()
                &&& final(inner).sender_wakers() == Seq::<u64>::empty()
                &&& final(inner).pending_wakes() == old(inner).pending_wakes() + old(
                    inner,
                ).sender_wakers()
            },
            (old(inner).queue().len() == 0 && old(inner).senders() == 0) ==> {
                &&& r == Err::<T, RecvTimeoutError>(RecvTimeoutError::Disconnected)
                &&& final(inner).same_state_as(*old(inner))
            },
            (old(inner).queue().len() == 0 && old(inner).senders() > 0) ==> {
                &&& r == Err::<T, RecvTimeoutError>(RecvTimeoutError::Timeout)
                &&& final(inner).same_state_as(*old(inner))
            },
    {
        self.recv_timeout(inner, deadline_ms)
    }

    /// One poll of the suspendable receive.  A queued value resolves the
    /// receive and wakes all suspended senders; an empty queue with no
    /// senders resolves with the disconnect; otherwise the receiver's waker
    /// is installed — replacing, unwoken, any stale one, so the cell never
    /// holds more than one — and the receive stays pending.
    pub fn poll<T>(&self, inner: &mut Inner<T>, waker: u64) -> (r: Poll<Result<T, RecvError>>)
        requires
            old(inner).wf(),
            old(inner).receiver_alive(),
        ensures
            final(inner).wf(),
            final(inner).capacity() == old(inner).capacity(),
            final(inner).senders() == old(inner).senders(),
            final(inner).receiver_alive() == old(inner).receiver_alive(),
            old(inner).queue().len() > 0 ==> {
                &&& r == Poll::Ready(Ok::<T, RecvError>(old(inner).queue()[0]))
                &&& final(inner).queue() == old(inner).queue().drop_first()
                &&& final(inner).receiver_waker() == old(inner).receiver_waker()
                &&& final(inner).sender_wakers() == Seq::<u64>::empty()
                &&& final(inner).pending_wakes() == old(inner).pending_wakes() + old(
                    inner,
                ).sender_wakers()
            },
            (old(inner).queue().len() == 0 && old(inner).senders() == 0) ==> {
                &&& r == Poll::Ready(Err::<T, RecvError>(RecvError))
                &&& final(inner).same_state_as(*old(inner))
            },
            (old(inner).queue().len() == 0 && old(inner).senders() > 0) ==> {
                &&& r is Pending
                &&& final(inner).queue() == old(inner).queue()
                &&& final(inner).sender_wakers() == old(inner).sender_wakers()
                &&& final(inner).receiver_waker() == Some(waker)
                &&& final(inner).pending_wakes() == old(inner).pending_wakes()
            },
    {
        if inner.queue.len() > 0 {
            let value = inner.queue.remove(0);
            self.wake_senders(inner);
            Poll::Ready(Ok(value))
        } else if inner.senders == 0 {
            Poll::Ready(Err(RecvError))
        } else {
            // A stale waker is dropped unwoken by design: the cell holds at
            // most one, the newest.
            inner.receiver_waker = Some(waker);
            Poll::Pending
        }
    }

    /// Give the receiver up.  Every suspended sender moves to the pending
    /// wakes so it observes the disconnect; the receiver's own waker is
    /// dropped unwoken.
    pub fn disconnect<T>(self, inner: &mut Inner<T>)
        requires
            old(inner).wf(),
        ensures
            final(inner).wf(),
            final(inner).queue() == old(inner).queue(),
            final(inner).capacity() == old(inner).capacity(),
            final(inner).senders() == old(inner).senders(),
            final(inner).receiver_alive() == false,
            final(inner).receiver_waker() is None,
            final(inner).sender_wakers() == Seq::<u64>::empty(),
            final(inner).pending_wakes() == old(inner).pending_wakes() + old(
                inner,
            ).sender_wakers(),
    {
        inner.receiver_alive = false;
        inner.receiver_waker = None;
        let mut wakers: Vec<u64> = Vec::new();
        core::mem::swap(&mut inner.sender_wakers, &mut wakers);
        inner.pending_wakes.append(&mut wakers);
    }

    /// A blocking iterator token over this receiver.
    pub fn iter(&self) -> (it: Iter) {
        Iter { _private: () }
    }

    /// A non-blocking iterator token over this receiver.
    pub fn try_iter(&self) -> (it: TryIter) {
        TryIter { _private: () }
    }

    /// An owning iterator token; the receiver lives on inside it.
    pub fn into_iter(self) -> (it: IntoIter) {
        IntoIter { rx: self }
    }
}

/// Blocking iteration: each step is a blocking receive; `None` on disconnect.
pub struct Iter {
    _private: (),
}

impl Iter {
    pub fn next<T>(&mut self, rx: &Receiver, inner: &mut Inner<T>) -> (r: Option<T>)
        requires
            old(inner).wf(),
            old(inner).queue().len() > 0 || old(inner).senders() == 0,
        ensures
            final(inner).wf(),
            old(inner).queue().len() > 0 ==> r == Some(old(inner).queue()[0]),
            old(inner).queue().len() == 0 ==> r is None,
            final(inner).capacity() == old(inner).capacity(),
            final(inner).senders() == old(inner).senders(),
            final(inner).receiver_alive() == old(inner).receiver_alive(),
            old(inner).queue().len() > 0 ==> final(inner).queue() == old(
                inner,
            ).queue().drop_first(),
            old(inner).queue().len() == 0 ==> final(inner).same_state_as(*old(inner)),
    {
        match rx.recv(inner) {
            Ok(value) => Some(value),
            Err(RecvError) => None,
        }
    }
}

/// Owning iteration; behaves as `Iter`.
pub struct IntoIter {
    rx: Receiver,
}

impl IntoIter {
    pub fn next<T>(&mut self, inner: &mut Inner<T>) -> (r: Option<T>)
        requires
            old(inner).wf(),
            old(inner).queue().len() > 0 || old(inner).senders() == 0,
        ensures
            final(inner).wf(),
            old(inner).queue().len() > 0 ==> r == Some(old(inner).queue()[0]),
            old(inner).queue().len() == 0 ==> r is None,
            final(inner).capacity() == old(inner).capacity(),
            final(inner).senders() == old(inner).senders(),
            final(inner).receiver_alive() == old(inner).receiver_alive(),
            old(inner).queue().len() > 0 ==> final(inner).queue() == old(
                inner,
            ).queue().drop_first(),
            old(inner).queue().len() == 0 ==> final(inner).same_state_as(*old(inner)),
    {
        match self.rx.recv(inner) {
            Ok(value) => Some(value),
            Err(RecvError) => None,
        }
    }
}

/// Non-blocking iteration: each step is a `try_recv`; `None` at the first
/// point where a receive would block or the channel is disconnected.
pub struct TryIter {
    _private: (),
}

impl TryIter {
    pub fn next<T>(&mut self, rx: &Receiver, inner: &mut Inner<T>) -> (r: Option<T>)
        requires
            old(inner).wf(),
        ensures
            final(inner).wf(),
            old(inner).queue().len() > 0 ==> {
                &&& r == Some(old(inner).queue()[0])
                &&& final(inner).queue() == old(inner).queue().drop_first()
            },
            old(inner).queue().len() == 0 ==> {
                &&& r is None
                &&& final(inner).same_state_as(*old(inner))
            },
            final(inner).capacity() == old(inner).capacity(),
            final(inner).senders() == old(inner).senders(),
            final(inner).receiver_alive() == old(inner).receiver_alive(),
    {
        match rx.try_recv(inner) {
            Ok(value) => Some(value),
            Err(_) => None,
        }
    }
}

/// A channel delivering at most one value: capacity 1, a single sender that
/// is consumed by its send.
pub fn oneshot<T>() -> (r: (OneSender, Receiver, Inner<T>))
    ensures
        r.2.wf(),
        r.2.queue() == Seq::<T>::empty(),
        r.2.capacity() == 1,
        r.2.senders() == 1,
        r.2.receiver_alive(),
        r.2.sender_wakers() == Seq::<u64>::empty(),
        r.2.receiver_waker() is None,
        r.2.pending_wakes() == Seq::<u64>::empty(),
{
    let inner = Inner {
        queue: Vec::new(),
        capacity: 1,
        senders: 1,
        receiver_alive: true,
        sender_wakers: Vec::new(),
        receiver_waker: None,
        pending_wakes: Vec::new(),
    };
    (OneSender { _private: () }, Receiver { _private: () }, inner)
}

/// A bounded channel of the given positive capacity, with one sender handle
/// (more via `duplicate`) and one receiver.
pub fn sync_channel<T>(bound: usize) -> (r: (SyncSender, Receiver, Inner<T>))
    requires
        bound >= 1,
    ensures
        r.2.wf(),
        r.2.queue() == Seq::<T>::empty(),
        r.2.capacity() == bound,
        r.2.senders() == 1,
        r.2.receiver_alive(),
        r.2.sender_wakers() == Seq::<u64>::empty(),
        r.2.receiver_waker() is None,
        r.2.pending_wakes() == Seq::<u64>::empty(),
{
    let inner = Inner {
        queue: Vec::new(),
        capacity: bound,
        senders: 1,
        receiver_alive: true,
        sender_wakers: Vec::new(),
        receiver_waker: None,
        pending_wakes: Vec::new(),
    };
    (SyncSender { _private: () }, Receiver { _private: () }, inner)
}

/// The queue after the values of `vs` are sent one by one, oldest first:
/// each successful send pushes its value at the back, exactly as the
/// `ensures` of `SyncSender::send`, `try_send` and `SendFut::poll` state.
pub open spec fn queue_after_sends<T>(q: Seq<T>, vs: Seq<T>) -> Seq<T>
    decreases vs.len(),
{
    if vs.len() == 0 {
        q
    } else {
        queue_after_sends(q.push(vs[0]), vs.drop_first())
    }
}

/// The values handed out by `n` successive receives from a queue `q`: each
/// receive takes the front, exactly as the `ensures` of `Receiver::recv`,
/// `try_recv` and `poll` state.
pub open spec fn values_received<T>(q: Seq<T>, n: nat) -> Seq<T>
    decreases n,
{
    if n == 0 || q.len() == 0 {
        Seq::<T>::empty()
    } else {
        seq![q[0]] + values_received(q.drop_first(), (n - 1) as nat)
    }
}

/// Law: receives return a queue's values unchanged and in order.
pub proof fn lemma_values_received_all<T>(q: Seq<T>)
    ensures
        values_received(q, q.len()) == q,
    decreases q.len(),
{
    if q.len() == 0 {
        assert(values_received(q, q.len()) =~= q);
    } else {
        lemma_values_received_all(q.drop_first());
        assert(seq![q[0]] + q.drop_first() =~= q);
    }
}

/// Law: sends append their values in order.
pub proof fn lemma_queue_after_sends<T>(q: Seq<T>, vs: Seq<T>)
    ensures
        queue_after_sends(q, vs) == q + vs,
    decreases vs.len(),
{
    if vs.len() == 0 {
        assert(q + vs =~= q);
    } else {
        lemma_queue_after_sends(q.push(vs[0]), vs.drop_first());
        assert(q.push(vs[0]) + vs.drop_first() =~= q + vs);
    }
}

/// Law: sending `n` values into an empty channel and then receiving `n`
/// values yields the same sequence in the same order.
pub proof fn lemma_send_recv_round_trip<T>(vs: Seq<T>)
    ensures
        queue_after_sends(Seq::<T>::empty(), vs) == vs,
        values_received(queue_after_sends(Seq::<T>::empty(), vs), vs.len()) == vs,
{
    lemma_queue_after_sends(Seq::<T>::empty(), vs);
    assert(Seq::<T>::empty() + vs =~= vs);
    lemma_values_received_all(vs);
}

} // verus!

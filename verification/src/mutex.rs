//! A mutex whose acquisition can suspend, for tasks that hold the guard
//! across suspension points.
//!
//! The state is a `locked` flag, the protected value, and a FIFO queue of
//! wakers of suspended acquirers.  Acquisition is the polled transition
//! `LockFuture::poll`: an unlocked mutex is taken on the spot (barging — a
//! newly arriving task may win over queued waiters, which are all re-woken on
//! every release); a locked one queues the caller's waker.  Releasing moves
//! the whole waiter queue, in FIFO order, to the pending wakes for the driver
//! to perform.
//!
//! A ghost count of outstanding guards is carried along; the invariant `wf`
//! ties it to the `locked` flag, so at most one guard ever exists.

use crate::channel::Poll;
use vstd::prelude::*;

verus! {

/// The mutex: a `locked` flag, the protected value, and the waiter queue.
pub struct Mutex<T> {
    locked: bool,
    value: T,
    wakers: Vec<u64>,
    pending_wakes: Vec<u64>,
    guards: Ghost<nat>,
}

/// Witness of an exclusive acquisition; give it back with `unlock`.
pub struct MutexGuard {
    _private: (),
}

/// The suspendable acquisition; poll it against the mutex.
pub struct LockFuture {
    _private: (),
}

impl<T> Mutex<T> {
    /// Whether a guard is outstanding.
    pub closed spec fn locked(self) -> bool {
        self.locked
    }

    /// The protected value.
    pub closed spec fn stored(self) -> T {
        self.value
    }

    /// Wakers of suspended acquirers, oldest first.
    pub closed spec fn wakers(self) -> Seq<u64> {
        self.wakers@
    }

    /// Wakes recorded by releases and not yet taken by the driver.
    pub closed spec fn pending_wakes(self) -> Seq<u64> {
        self.pending_wakes@
    }

    /// How many guard objects are outstanding (ghost bookkeeping).
    pub closed spec fn guards(self) -> nat {
        self.guards@
    }

    /// The mutex invariant: a guard exists exactly while `locked` holds —
    /// so at any instant at most one guard object exists.
    pub open spec fn wf(self) -> bool {
        self.guards() == if self.locked() {
            1nat
        } else {
            0nat
        }
    }

    pub fn new(value: T) -> (m: Mutex<T>)
        ensures
            m.wf(),
            !m.locked(),
            m.stored() == value,
            m.wakers() == Seq::<u64>::empty(),
            m.pending_wakes() == Seq::<u64>::empty(),
    {
        Mutex {
            locked: false,
            value,
            wakers: Vec::new(),
            pending_wakes: Vec::new(),
            guards: Ghost(0nat),
        }
    }

    /// The suspendable acquisition of this mutex.
    pub fn lock(&self) -> (f: LockFuture) {
        LockFuture { _private: () }
    }

    /// Hand out the wakes recorded so far; the driver must now wake each
    /// listed waker, in order.
    pub fn take_wakes(&mut self) -> (wakes: Vec<u64>)
        ensures
            wakes@ == old(self).pending_wakes(),
            final(self).pending_wakes() == Seq::<u64>::empty(),
            final(self).locked() == old(self).locked(),
            final(self).stored() == old(self).stored(),
            final(self).wakers() == old(self).wakers(),
            final(self).guards() == old(self).guards(),
            old(self).wf() ==> final(self).wf(),
    {
        let mut wakes: Vec<u64> = Vec::new();
        core::mem::swap(&mut self.pending_wakes, &mut wakes);
        wakes
    }
}

impl MutexGuard {
    /// Take an unlocked mutex.  The flag is asserted free and set; the ghost
    /// guard count goes to one.
    pub fn new<T>(mutex: &mut Mutex<T>) -> (g: MutexGuard)
        requires
            old(mutex).wf(),
            !old(mutex).locked(),
        ensures
            final(mutex).wf(),
            final(mutex).locked(),
            final(mutex).guards() == 1,
            final(mutex).stored() == old(mutex).stored(),
            final(mutex).wakers() == old(mutex).wakers(),
            final(mutex).pending_wakes() == old(mutex).pending_wakes(),
    {
        mutex.locked = true;
        proof {
            mutex.guards@ = 1nat;
        }
        MutexGuard { _private: () }
    }

    /// Read the protected value through the guard.
    pub fn read<'a, T>(&self, mutex: &'a Mutex<T>) -> (v: &'a T)
        requires
            mutex.wf(),
            mutex.locked(),
        ensures
            *v == mutex.stored(),
    {
        &mutex.value
    }

    /// Replace the protected value through the guard.
    pub fn write<T>(&self, mutex: &mut Mutex<T>, value: T)
        requires
            old(mutex).wf(),
            old(mutex).locked(),
        ensures
            final(mutex).wf(),
            final(mutex).locked(),
            final(mutex).stored() == value,
            final(mutex).wakers() == old(mutex).wakers(),
            final(mutex).pending_wakes() == old(mutex).pending_wakes(),
            final(mutex).guards() == old(mutex).guards(),
    {
        mutex.value = value;
    }

    /// Release the mutex.  The flag is cleared and the whole waiter queue
    /// moves, in FIFO order, to the pending wakes; afterwards no waker queue
    /// entry remains, and no guard.
    pub fn unlock<T>(self, mutex: &mut Mutex<T>)
        requires
            old(mutex).wf(),
            old(mutex).locked(),
        ensures
            final(mutex).wf(),
            !final(mutex).locked(),
            final(mutex).guards() == 0,
            final(mutex).stored() == old(mutex).stored(),
            final(mutex).wakers() == Seq::<u64>::empty(),
            final(mutex).pending_wakes() == old(mutex).pending_wakes() + old(mutex).wakers(),
    {
        mutex.locked = false;
        proof {
            mutex.guards@ = 0nat;
        }
        let mut wakers: Vec<u64> = Vec::new();
        core::mem::swap(&mut mutex.wakers, &mut wakers);
        mutex.pending_wakes.append(&mut wakers);
    }
}

impl LockFuture {
    /// One poll of the acquisition: an unlocked mutex is taken and the poll
    /// resolves with the guard; a locked one queues the caller's waker at the
    /// back of the FIFO and stays pending.
    pub fn poll<T>(&self, mutex: &mut Mutex<T>, waker: u64) -> (r: Poll<MutexGuard>)
        requires
            old(mutex).wf(),
        ensures
            final(mutex).wf(),
            final(mutex).stored() == old(mutex).stored(),
            final(mutex).pending_wakes() == old(mutex).pending_wakes(),
            !old(mutex).locked() ==> {
                &&& r is Ready
                &&& final(mutex).locked()
                &&& final(mutex).guards() == 1
                &&& final(mutex).wakers() == old(mutex).wakers()
            },
            old(mutex).locked() ==> {
                &&& r is Pending
                &&& final(mutex).locked()
                &&& final(mutex).guards() == old(mutex).guards()
                &&& final(mutex).wakers() == old(mutex).wakers().push(waker)
            },
    {
        if !mutex.locked {
            Poll::Ready(MutexGuard::new(mutex))
        } else {
            mutex.wakers.push(waker);
            Poll::Pending
        }
    }
}

/// Law: under the mutex invariant at most one guard object exists at any
/// instant.
pub proof fn lemma_mutual_exclusion<T>(mutex: Mutex<T>)
    requires
        mutex.wf(),
    ensures
        mutex.guards() <= 1,
{
}

} // verus!

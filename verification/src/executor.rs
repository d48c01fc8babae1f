//! The single-threaded cooperative executor.
//!
//! The executor owns its tasks in a slab — a task's index is its waker token
//! — and a FIFO ready queue of indices.  Running pops the oldest ready
//! index, polls that task once, and applies the effects the poll collected:
//! released wakers are enqueued, spawned siblings join the slab and the
//! queue, timer requests are kept for the driver.  A finished task leaves an
//! empty slot; waking an empty slot or an index that was never a task does
//! nothing, and a duplicate wake of a queued task merely queues it again —
//! one more poll of a suspended task is harmless, it just re-registers.
//!
//! Cooperative scheduling cannot promise that tasks stop waking one another,
//! and every loop here must terminate, so `run` takes a poll budget; a
//! positive leftover says the ready queue drained.

use crate::channel::Poll;
use crate::task::Pollable;
use crate::task::PollCtx;
use crate::task::Task;
use crate::task::WakeAt;
use vstd::pervasive::VecAdditionalExecFns;
use vstd::prelude::*;

verus! {

/// The executor: the task slab, the ready queue, and the timer requests
/// collected for the driver.
pub struct Executor<T> {
    tasks: Vec<Option<Task<T>>>,
    ready: Vec<usize>,
    timers: Vec<WakeAt>,
}

impl<T> Executor<T> {
    /// The task slab: `None` where a task has finished.
    pub closed spec fn tasks(self) -> Seq<Option<Task<T>>> {
        self.tasks@
    }

    /// The ready queue, oldest first, as indices into the slab.
    pub closed spec fn ready(self) -> Seq<usize> {
        self.ready@
    }

    /// Timer wake requests collected from the tasks.
    pub closed spec fn timers(self) -> Seq<WakeAt> {
        self.timers@
    }

    /// The executor invariant: every ready index points into the slab.
    pub open spec fn wf(self) -> bool {
        forall|i: int| 0 <= i < self.ready().len() ==> (#[trigger] self.ready()[i]) < self.tasks().len()
    }

    /// An empty executor: no tasks, nothing ready.
    pub fn new() -> (ex: Executor<T>)
        ensures
            ex.wf(),
            ex.tasks() == Seq::<Option<Task<T>>>::empty(),
            ex.ready() == Seq::<usize>::empty(),
            ex.timers() == Seq::<WakeAt>::empty(),
    {
        Executor { tasks: Vec::new(), ready: Vec::new(), timers: Vec::new() }
    }

    /// Submit a computation: it joins the slab as a queued task.
    pub fn spawn(&mut self, computation: T)
        requires
            old(self).wf(),
            old(self).tasks().len() < usize::MAX,
        ensures
            final(self).wf(),
            final(self).tasks().len() == old(self).tasks().len() + 1,
            final(self).tasks()[old(self).tasks().len() as int] matches Some(t)
                && t.computation() == computation,
            forall|i: int|
                0 <= i < old(self).tasks().len() ==> final(self).tasks()[i] == old(self).tasks()[i],
            final(self).ready() == old(self).ready().push(old(self).tasks().len() as usize),
            final(self).timers() == old(self).timers(),
    {
        let id = self.tasks.len();
        self.tasks.push(Some(Task::new(computation)));
        self.ready.push(id);
        proof {
            assert forall|i: int| 0 <= i < self.ready().len() implies (#[trigger] self.ready()[i])
                < self.tasks().len() by {
                if i < old(self).ready().len() {
                    assert(self.ready()[i] == old(self).ready()[i]);
                }
            }
        }
    }

    /// Wake the task with the given waker token: enqueue it for another
    /// poll.  Waking a finished task, or a token that never named a task,
    /// has no effect; waking a task that is already queued queues it once
    /// more, which is benign.
    pub fn wake(&mut self, waker: u64)
        requires
            old(self).wf(),
        ensures
            final(self).wf(),
            final(self).tasks() == old(self).tasks(),
            final(self).timers() == old(self).timers(),
            (waker < old(self).tasks().len() && old(self).tasks()[waker as int] is Some)
                ==> final(self).ready() == old(self).ready().push(waker as usize),
            !(waker < old(self).tasks().len() && old(self).tasks()[waker as int] is Some)
                ==> final(self).ready() == old(self).ready(),
    {
        if waker < (self.tasks.len() as u64) {
            let id = waker as usize;
            if self.tasks[id].is_some() {
                self.ready.push(id);
                proof {
                    assert forall|i: int|
                        0 <= i < self.ready().len() implies (#[trigger] self.ready()[i])
                        < self.tasks().len() by {
                        if i < old(self).ready().len() {
                            assert(self.ready()[i] == old(self).ready()[i]);
                        }
                    }
                }
            }
        }
    }

    /// Hand out the collected timer requests; the driver must wake each
    /// listed waker once the clock reaches its time.
    pub fn take_timers(&mut self) -> (timers: Vec<WakeAt>)
        ensures
            timers@ == old(self).timers(),
            final(self).timers() == Seq::<WakeAt>::empty(),
            final(self).tasks() == old(self).tasks(),
            final(self).ready() == old(self).ready(),
            old(self).wf() ==> final(self).wf(),
    {
        let mut timers: Vec<WakeAt> = Vec::new();
        core::mem::swap(&mut self.timers, &mut timers);
        timers
    }

    /// Whether any task is still ready to poll.
    pub fn has_ready(&self) -> (b: bool)
        ensures
            b == (self.ready().len() > 0),
    {
        self.ready.len() > 0
    }

    /// Drive the tasks: repeatedly poll the oldest ready task and apply the
    /// effects of the poll, for at most `budget` polls.  The leftover budget
    /// comes back with the executor; a positive leftover means the ready
    /// queue drained — every task either finished or suspended awaiting a
    /// wake.  When there is work and budget, at least one poll is taken; an
    /// executor with nothing ready comes back at once, untouched.  The slab
    /// only grows, so waker tokens handed out earlier stay bound to their
    /// tasks, and timer requests already collected are kept.
    pub fn run<W>(self, world: &mut W, budget: usize) -> (r: (Executor<T>, usize)) where
        T: Pollable<W>,

        requires
            self.wf(),
        ensures
            r.0.wf(),
            r.1 <= budget,
            r.1 > 0 ==> r.0.ready().len() == 0,
            (budget > 0 && self.ready().len() > 0) ==> r.1 < budget,
            self.ready().len() == 0 ==> {
                &&& r.1 == budget
                &&& r.0.tasks() == self.tasks()
                &&& r.0.ready() == self.ready()
                &&& r.0.timers() == self.timers()
            },
            r.0.tasks().len() >= self.tasks().len(),
            r.0.timers().len() >= self.timers().len(),
            forall|i: int|
                0 <= i < self.timers().len() ==> r.0.timers()[i] == self.timers()[i],
    {
        let mut ex = self;
        let mut left = budget;
        while left > 0 && ex.ready.len() > 0
            invariant
                ex.wf(),
                left <= budget,
                left == budget ==> {
                    &&& ex.tasks() == self.tasks()
                    &&& ex.ready() == self.ready()
                    &&& ex.timers() == self.timers()
                },
                self.ready().len() == 0 ==> left == budget,
                ex.tasks().len() >= self.tasks().len(),
                ex.timers().len() >= self.timers().len(),
                forall|i: int|
                    0 <= i < self.timers().len() ==> ex.timers()[i] == self.timers()[i],
            decreases left,
        {
            left = left - 1;
            ex.step(world);
        }
        (ex, left)
    }

    /// One scheduling step: poll the oldest ready task once and apply the
    /// effects of the poll.  The head of the ready queue is dequeued and the
    /// rest survives in order (wakes and spawns only append behind it), and
    /// no slab slot but the polled one changes — so a stale entry for a
    /// finished task is skipped without any effect beyond its dequeue.
    pub fn step<W>(&mut self, world: &mut W) where T: Pollable<W>
        requires
            old(self).wf(),
            old(self).ready().len() > 0,
        ensures
            final(self).wf(),
            final(self).ready().len() >= old(self).ready().len() - 1,
            forall|i: int|
                0 <= i < old(self).ready().len() - 1 ==> (#[trigger] final(self).ready()[i])
                    == old(self).ready()[i + 1],
            forall|i: int|
                (0 <= i < old(self).tasks().len() && i != old(self).ready()[0]) ==> (
                #[trigger] final(self).tasks()[i]) == old(self).tasks()[i],
            old(self).tasks()[old(self).ready()[0] as int] is None ==> {
                &&& final(self).ready().len() == old(self).ready().len() - 1
                &&& final(self).tasks() == old(self).tasks()
                &&& final(self).timers() == old(self).timers()
            },
            final(self).tasks().len() >= old(self).tasks().len(),
            final(self).timers().len() >= old(self).timers().len(),
            forall|i: int|
                0 <= i < old(self).timers().len() ==> final(self).timers()[i] == old(
                    self,
                ).timers()[i],
    {
        let id = self.ready.remove(0);
        proof {
            assert(old(self).ready()[0] < old(self).tasks().len());
        }
        let mut slot: Option<Task<T>> = None;
        self.tasks.set_and_swap(id, &mut slot);
        proof {
            assert forall|i: int| 0 <= i < self.ready().len() implies (#[trigger] self.ready()[i])
                < self.tasks().len() by {
                assert(self.ready()[i] == old(self).ready()[i + 1]);
                assert(self.tasks().len() == old(self).tasks().len());
            }
            assert forall|i: int|
                0 <= i < old(self).ready().len() - 1 implies (#[trigger] self.ready()[i]) == old(
                self,
            ).ready()[i + 1] by {}
            assert forall|i: int|
                (0 <= i < old(self).tasks().len() && i != old(self).ready()[0]) implies (
            #[trigger] self.tasks()[i]) == old(self).tasks()[i] by {}
        }
        match slot {
            None => {
                // The task already finished; the stale wake is a no-op, and
                // writing the empty slot back leaves the slab as it was.
                proof {
                    assert(self.tasks() =~= old(self).tasks());
                }
            },
            Some(mut task) => {
                let mut ctx = PollCtx::<T>::new(id as u64);
                let polled = task.poll(world, &mut ctx);
                if let Poll::Pending = polled {
                    let mut back: Option<Task<T>> = Some(task);
                    self.tasks.set_and_swap(id, &mut back);
                    proof {
                        assert forall|i: int|
                            0 <= i < self.ready().len() implies (#[trigger] self.ready()[i])
                            < self.tasks().len() by {
                            assert(self.ready()[i] == old(self).ready()[i + 1]);
                            assert(self.tasks().len() == old(self).tasks().len());
                        }
                        assert forall|i: int|
                            (0 <= i < old(self).tasks().len() && i != old(self).ready()[0])
                            implies (#[trigger] self.tasks()[i]) == old(self).tasks()[i] by {}
                    }
                }
                let (wakes, spawned, timers) = ctx.into_parts();
                let mut k: usize = 0;
                while k < wakes.len()
                    invariant
                        self.wf(),
                        k <= wakes.len(),
                        self.tasks().len() >= old(self).tasks().len(),
                        self.timers() == old(self).timers(),
                        self.ready().len() >= old(self).ready().len() - 1,
                        forall|i: int|
                            0 <= i < old(self).ready().len() - 1 ==> (#[trigger] self.ready()[i])
                                == old(self).ready()[i + 1],
                        forall|i: int|
                            (0 <= i < old(self).tasks().len() && i != old(self).ready()[0]) ==> (
                            #[trigger] self.tasks()[i]) == old(self).tasks()[i],
                    decreases wakes.len() - k,
                {
                    let w = wakes[k];
                    self.wake(w);
                    k = k + 1;
                }
                let mut spawned = spawned;
                while spawned.len() > 0
                    invariant
                        self.wf(),
                        self.tasks().len() >= old(self).tasks().len(),
                        self.timers() == old(self).timers(),
                        self.ready().len() >= old(self).ready().len() - 1,
                        forall|i: int|
                            0 <= i < old(self).ready().len() - 1 ==> (#[trigger] self.ready()[i])
                                == old(self).ready()[i + 1],
                        forall|i: int|
                            (0 <= i < old(self).tasks().len() && i != old(self).ready()[0]) ==> (
                            #[trigger] self.tasks()[i]) == old(self).tasks()[i],
                    decreases spawned.len(),
                {
                    let computation = spawned.remove(0);
                    if self.tasks.len() < usize::MAX {
                        self.spawn(computation);
                    }
                }
                let ghost pre = *self;
                let mut timers = timers;
                self.timers.append(&mut timers);
                proof {
                    // The append touches only the timer list; the invariant
                    // carries over the untouched slab and queue.
                    assert(self.ready() == pre.ready());
                    assert(self.tasks() == pre.tasks());
                }
            },
        }
    }
}

impl<T> core::default::Default for Executor<T> {
    fn default() -> (ex: Executor<T>)
        ensures
            ex.wf(),
            ex.tasks() == Seq::<Option<Task<T>>>::empty(),
            ex.ready() == Seq::<usize>::empty(),
            ex.timers() == Seq::<WakeAt>::empty(),
    {
        Executor::new()
    }
}

} // verus!

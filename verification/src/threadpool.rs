//! The worker pool handle: a fixed target of live workers named
//! `"<prefix>-<n>"`, a bounded job queue of two hundred jobs per worker, and
//! self-healing — every schedule and every worker iteration replenishes the
//! worker population.
//!
//! The pool owns the shared state of `crate::inner`; jobs are opaque values
//! of the type parameter `J` (the embedding program hands in its boxed
//! closures).  Thread creation itself is the driver's: it takes the owed
//! worker names from the state and reports failures back.

use crate::error::NewThreadPoolError;
use crate::error::TryScheduleError;
use crate::inner::Inner;
use vstd::prelude::*;
use vstd::string::StringExecFns;

verus! {

/// The pool handle; dropping it (via `join` or `try_join`) closes the job
/// queue.
pub struct ThreadPool<J> {
    inner: Inner<J>,
}

impl<J> ThreadPool<J> {
    /// The pool's shared state.
    pub closed spec fn inner(self) -> Inner<J> {
        self.inner
    }

    /// A pool of `size` workers named after the non-empty `name`.  Both
    /// parameter checks fail with the documented message; with valid
    /// parameters the initial workers are started at once.
    pub fn new(name: &'static str, size: usize) -> (r: Result<ThreadPool<J>, NewThreadPoolError>)
        requires
            size <= usize::MAX / 200,
        ensures
            name@.len() == 0 ==> {
                &&& r is Err
                &&& r->Err_0 is Parameter
                &&& r->Err_0->Parameter_0@ == "ThreadPool::new called with empty name"@
            },
            (name@.len() > 0 && size == 0) ==> {
                &&& r is Err
                &&& r->Err_0 is Parameter
                &&& r->Err_0->Parameter_0@ == "ThreadPool::new called with invalid size value: "@
                    + crate::decimal::dec_digits(size as nat)
            },
            (name@.len() > 0 && size >= 1) ==> {
                &&& r is Ok
                &&& r->Ok_0.inner().wf()
                &&& r->Ok_0.inner().name() == name@
                &&& r->Ok_0.inner().size() == size
                &&& r->Ok_0.inner().live() == size
                &&& r->Ok_0.inner().counter() == size
                &&& r->Ok_0.inner().queue() == Seq::<J>::empty()
                &&& r->Ok_0.inner().queue_cap() == size * 200
                &&& r->Ok_0.inner().open()
                &&& r->Ok_0.inner().max_threads() == usize::MAX
                &&& r->Ok_0.inner().spawn_requests().len() == size
                &&& forall|i: int|
                    0 <= i < size ==> #[trigger] r->Ok_0.inner().spawn_requests()[i]@
                        == crate::inner::worker_name_spec(name@, i as nat)
            },
    {
        if name.is_empty() {
            return Err(
                NewThreadPoolError::Parameter(
                    String::from_str("ThreadPool::new called with empty name"),
                ),
            );
        }
        if size < 1 {
            let mut message = String::from_str("ThreadPool::new called with invalid size value: ");
            let digits = crate::decimal::decimal_string(size);
            message.append(digits.as_str());
            return Err(NewThreadPoolError::Parameter(message));
        }
        let mut inner = Inner::new(name, size, usize::MAX);
        match inner.start_threads() {
            Ok(()) => Ok(ThreadPool { inner }),
            Err(e) => Err(NewThreadPoolError::from(e)),
        }
    }

    /// The target worker count the pool was built with.
    pub fn size(&self) -> (n: usize)
        ensures
            n == self.inner().size(),
    {
        self.inner.target_size()
    }

    /// How many workers are live right now.
    pub fn num_live_threads(&self) -> (n: usize)
        ensures
            n == self.inner().live(),
    {
        self.inner.num_live_threads()
    }

    /// Schedule a job, replenishing the workers before and after the
    /// enqueue (the later replenish changes nothing once the earlier one
    /// reached the target, so the composed effect is one replenish and the
    /// queued job).  The blocking schedule retries a full queue and a
    /// worker-less pool with a sleep; while this sequential rendering waits
    /// nothing can drain the queue or free the thread bound, so the call is
    /// stated for the inputs on which the wait ends at once: a queue with
    /// space, and a pool that is not pinned at zero workers by the
    /// process-wide bound.
    pub fn schedule(&mut self, job: J)
        requires
            old(self).inner().wf(),
            old(self).inner().queue().len() < old(self).inner().queue_cap(),
            !(old(self).inner().live() == 0 && old(self).inner().max_threads() == 0),
            old(self).inner().counter() + old(self).inner().size() <= usize::MAX,
        ensures
            final(self).inner().wf(),
            final(self).inner().queue() == old(self).inner().queue().push(job),
            Inner::replenish_rel(old(self).inner(), final(self).inner()),
    {
        let _replenished = self.inner.start_threads();
        let _enqueued = self.inner.try_enqueue(job);
        let _replenished_after = self.inner.start_threads();
    }

    /// Schedule a job without retrying: a full queue fails with `QueueFull`
    /// and drops the job; otherwise the job is queued and the outcome of the
    /// replenishment that follows is surfaced, classified as the error
    /// taxonomy asks.
    pub fn try_schedule(&mut self, job: J) -> (r: Result<(), TryScheduleError>)
        requires
            old(self).inner().wf(),
            old(self).inner().counter() + old(self).inner().size() <= usize::MAX,
        ensures
            final(self).inner().wf(),
            old(self).inner().queue().len() >= old(self).inner().queue_cap() ==> {
                &&& r == Err::<(), TryScheduleError>(TryScheduleError::QueueFull)
                &&& Inner::same_state(old(self).inner(), final(self).inner())
            },
            old(self).inner().queue().len() < old(self).inner().queue_cap() ==> {
                &&& final(self).inner().queue() == old(self).inner().queue().push(job)
                &&& Inner::replenish_rel(old(self).inner(), final(self).inner())
                &&& (r is Ok <==> old(self).inner().replenish_ok())
                &&& (r is Err ==> (match r->Err_0 {
                    TryScheduleError::QueueFull => false,
                    TryScheduleError::NoThreads(io) => old(self).inner().replenish_target() == 0
                        && io.kind == crate::error::IoErrorKind::Other && io.message@
                        == "Number of threads reached the upper limit"@,
                    TryScheduleError::Respawn(io) => old(self).inner().replenish_target() > 0
                        && io.kind == crate::error::IoErrorKind::Other && io.message@
                        == "Number of threads reached the upper limit"@,
                }))
            },
    {
        let enqueued = self.inner.try_enqueue(job);
        if enqueued.is_err() {
            return Err(TryScheduleError::QueueFull);
        }
        match self.inner.start_threads() {
            Ok(()) => Ok(()),
            Err(e) => Err(TryScheduleError::from(e)),
        }
    }

    /// Drop the pool handle and wait for the workers to stop.  Closing the
    /// queue is the transition; the wait is the driver's loop, so the closed
    /// state is handed back for the driver to run the workers down on.
    pub fn join(self) -> (inner: Inner<J>)
        ensures
            !inner.open(),
            inner.name() == self.inner().name(),
            inner.counter() == self.inner().counter(),
            inner.size() == self.inner().size(),
            inner.live() == self.inner().live(),
            inner.queue() == self.inner().queue(),
            inner.queue_cap() == self.inner().queue_cap(),
            inner.max_threads() == self.inner().max_threads(),
            inner.spawn_requests() == self.inner().spawn_requests(),
            self.inner().wf() ==> inner.wf(),
    {
        let mut inner = self.inner;
        inner.close();
        inner
    }

    /// Drop the pool handle and wait up to the timeout for the workers to
    /// stop.  While this sequential rendering waits no worker can exit, so
    /// the call succeeds exactly when none is live, and otherwise reports the
    /// documented timeout.
    pub fn try_join(self, _timeout_ms: u64) -> (r: Result<(), String>)
        ensures
            self.inner().live() == 0 <==> r is Ok,
            r is Err ==> r->Err_0@ == "timed out waiting for ThreadPool workers to stop"@,
    {
        let mut inner = self.inner;
        inner.close();
        if inner.num_live_threads() == 0 {
            Ok(())
        } else {
            Err(String::from_str("timed out waiting for ThreadPool workers to stop"))
        }
    }

    /// The pool's shared state, for the driver that runs the workers: the
    /// worker transitions (`work`, `take_spawn_requests`, `spawn_failed`,
    /// `worker_panicked`) live on it.
    pub fn inner_mut(&mut self) -> (inner: &mut Inner<J>)
        ensures
            *inner == old(self).inner(),
            final(self).inner() == *final(inner),
    {
        &mut self.inner
    }
}

} // verus!

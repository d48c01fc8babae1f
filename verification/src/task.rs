//! Tasks and the context a poll runs under.
//!
//! A task wraps a user-supplied suspendable computation: anything
//! implementing `Pollable` against the user's world (the channels, mutexes
//! and other state the tasks share).  Instead of a hidden waker argument and
//! a thread-local spawn endpoint, both are explicit here:
//! the `PollCtx` carries the task's waker token in and collects the effects
//! of the poll — wakes released by channel or mutex transitions, siblings to
//! spawn, and timer wake requests — for the executor to apply when the poll
//! returns.

use crate::channel::Poll;
use vstd::prelude::*;

verus! {

/// A request to wake `waker` once the clock reaches `at_ms` — it stands for
/// a helper thread that sleeps until then and wakes.
#[derive(Clone, Copy, Debug, PartialEq, Eq, Structural)]
pub struct WakeAt {
    pub at_ms: u64,
    pub waker: u64,
}

/// What a poll runs under: the polled task's waker token, and the effects
/// collected for the executor.
pub struct PollCtx<T> {
    waker: u64,
    wakes: Vec<u64>,
    spawned: Vec<T>,
    timers: Vec<WakeAt>,
}

impl<T> PollCtx<T> {
    /// The waker token of the task being polled.
    pub closed spec fn waker(self) -> u64 {
        self.waker
    }

    /// Wakers the poll released, oldest first.
    pub closed spec fn wakes(self) -> Seq<u64> {
        self.wakes@
    }

    /// Sibling tasks the poll spawned, oldest first.
    pub closed spec fn spawned(self) -> Seq<T> {
        self.spawned@
    }

    /// Timer wakes the poll requested.
    pub closed spec fn timers(self) -> Seq<WakeAt> {
        self.timers@
    }

    /// A fresh context for polling the task whose waker token is `waker`.
    pub fn new(waker: u64) -> (ctx: PollCtx<T>)
        ensures
            ctx.waker() == waker,
            ctx.wakes() == Seq::<u64>::empty(),
            ctx.spawned() == Seq::<T>::empty(),
            ctx.timers() == Seq::<WakeAt>::empty(),
    {
        PollCtx { waker, wakes: Vec::new(), spawned: Vec::new(), timers: Vec::new() }
    }

    /// The waker token, for registering with a primitive.
    pub fn current_waker(&self) -> (w: u64)
        ensures
            w == self.waker(),
    {
        self.waker
    }

    /// Record a batch of wakers — typically what a channel or mutex handed
    /// out — to wake after this poll, in order.
    pub fn push_wakes(&mut self, wakes: Vec<u64>)
        ensures
            final(self).wakes() == old(self).wakes() + wakes@,
            final(self).waker() == old(self).waker(),
            final(self).spawned() == old(self).spawned(),
            final(self).timers() == old(self).timers(),
    {
        let mut wakes = wakes;
        self.wakes.append(&mut wakes);
    }

    /// Ask for a wake of the polled task once the clock reaches `at_ms`.
    pub fn request_wake_at(&mut self, at_ms: u64)
        ensures
            final(self).timers() == old(self).timers().push(
                WakeAt { at_ms, waker: old(self).waker() },
            ),
            final(self).waker() == old(self).waker(),
            final(self).wakes() == old(self).wakes(),
            final(self).spawned() == old(self).spawned(),
    {
        let waker = self.waker;
        self.timers.push(WakeAt { at_ms, waker });
    }

    /// Split the collected effects out for the executor to apply.
    pub fn into_parts(self) -> (parts: (Vec<u64>, Vec<T>, Vec<WakeAt>))
        ensures
            parts.0@ == self.wakes(),
            parts.1@ == self.spawned(),
            parts.2@ == self.timers(),
    {
        let PollCtx { waker: _, wakes, spawned, timers } = self;
        (wakes, spawned, timers)
    }
}

/// A suspendable computation the executor can drive: one poll either
/// finishes (`Ready`) or suspends (`Pending`) after registering its waker
/// with whatever primitive it waits on.
pub trait Pollable<W>: Sized {
    fn poll(&mut self, world: &mut W, ctx: &mut PollCtx<Self>) -> Poll<()>;
}

/// An in-flight computation owned by an executor.
pub struct Task<T> {
    computation: T,
}

impl<T> Task<T> {
    /// The wrapped computation.
    pub closed spec fn computation(self) -> T {
        self.computation
    }

    pub fn new(computation: T) -> (task: Task<T>)
        ensures
            task.computation() == computation,
    {
        Task { computation }
    }

    /// Advance the computation to its next suspension point or to
    /// completion.
    pub fn poll<W>(&mut self, world: &mut W, ctx: &mut PollCtx<T>) -> Poll<()> where
        T: Pollable<W>,
     {
        self.computation.poll(world, ctx)
    }

    /// Spawn a sibling task on the same executor.  The spawn endpoint is the
    /// poll context (where a thread-local set around each poll would
    /// otherwise sit), so spawning is only possible from inside a poll —
    /// anywhere else there is no context to call it with.
    pub fn spawn(ctx: &mut PollCtx<T>, computation: T)
        ensures
            final(ctx).spawned() == old(ctx).spawned().push(computation),
            final(ctx).waker() == old(ctx).waker(),
            final(ctx).wakes() == old(ctx).wakes(),
            final(ctx).timers() == old(ctx).timers(),
    {
        ctx.spawned.push(computation);
    }
}

} // verus!

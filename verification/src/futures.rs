//! A timer: the simplest suspendable computation.
//!
//! A timer in a threaded embedding would read the clock and, while its
//! deadline has not passed, keep a helper thread sleeping to wake the task.
//! Here the clock reading is a parameter and the helper thread is a wake
//! request in the poll context; the driver performs it once the clock
//! reaches the deadline.

use crate::channel::Poll;
use crate::task::PollCtx;
use crate::task::WakeAt;
use vstd::prelude::*;

verus! {

/// A computation that finishes once the clock reaches its deadline.
pub struct Timer {
    end_ms: u64,
}

impl Timer {
    /// The deadline, in the driver's clock.
    pub closed spec fn end_ms(self) -> u64 {
        self.end_ms
    }

    /// One poll of the timer against the clock reading `now_ms`: ready once
    /// the deadline is reached, and otherwise pending with a wake requested
    /// for the deadline.
    pub fn poll<T>(&self, now_ms: u64, ctx: &mut PollCtx<T>) -> (r: Poll<()>)
        ensures
            final(ctx).waker() == old(ctx).waker(),
            final(ctx).wakes() == old(ctx).wakes(),
            final(ctx).spawned() == old(ctx).spawned(),
            now_ms >= self.end_ms() ==> {
                &&& r is Ready
                &&& final(ctx).timers() == old(ctx).timers()
            },
            now_ms < self.end_ms() ==> {
                &&& r is Pending
                &&& final(ctx).timers() == old(ctx).timers().push(
                    WakeAt { at_ms: self.end_ms(), waker: old(ctx).waker() },
                )
            },
    {
        if now_ms >= self.end_ms {
            Poll::Ready(())
        } else {
            ctx.request_wake_at(self.end_ms);
            Poll::Pending
        }
    }
}

/// A timer due `dur_ms` after the clock reading `now_ms`.
pub fn sleep(dur_ms: u64, now_ms: u64) -> (t: Timer)
    requires
        now_ms + dur_ms <= u64::MAX,
    ensures
        t.end_ms() == now_ms + dur_ms,
{
    Timer { end_ms: now_ms + dur_ms }
}

} // verus!

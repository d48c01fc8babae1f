//! The shared state of the worker pool.
//!
//! A threaded pool shares this record between the pool handle and every
//! live worker, the live-worker count being the number of sharers.  Here the
//! record is an explicit value with the count as a field, and the operating
//! system enters as events: starting a thread appends the new worker's name
//! to a request list the driver takes and performs, a failed start or a
//! panicking worker is reported back, and a worker iteration is the `work`
//! transition.
//!
//! Replenishment — spawning workers until the pool reaches its target size —
//! is the loop `start_threads`; the process-wide upper bound on threads is
//! the `max_threads` field, and hitting it classifies the failure exactly as
//! the error taxonomy asks: `NoThreads` when no worker is live, `Respawn`
//! otherwise.

use crate::atomic_counter::AtomicCounter;
use crate::decimal::dec_digits;
use crate::decimal::decimal_string;
use crate::error::IoError;
use crate::error::IoErrorKind;
use crate::error::StartThreadsError;
use vstd::prelude::*;
use vstd::string::StringExecFns;

verus! {

/// What a worker's receive produced: a job, a lapse of the receive timeout,
/// or the closed queue.
pub enum JobEvent<J> {
    Job(J),
    Timeout,
    Disconnected,
}

/// What a worker must do after one `work` transition: run the job it was
/// handed, go round again, or exit.
pub enum WorkStep<J> {
    Run(J),
    Idle,
    Exit,
}

/// The full name of the `k`-th worker a state goes on to spawn.
pub open spec fn worker_name_spec(prefix: Seq<char>, n: nat) -> Seq<char> {
    prefix + "-"@ + dec_digits(n)
}

/// Whether `e` carries the given kind and message and classifies the live
/// count correctly: `NoThreads` exactly when no worker remains.
pub open spec fn classifies(
    e: StartThreadsError,
    live_at_failure: nat,
    kind: IoErrorKind,
    msg: Seq<char>,
) -> bool {
    match e {
        StartThreadsError::NoThreads(io) => live_at_failure == 0 && io.kind == kind && io.message@
            == msg,
        StartThreadsError::Respawn(io) => live_at_failure > 0 && io.kind == kind && io.message@
            == msg,
    }
}

/// The shared state of one pool.
pub struct Inner<J> {
    name: String,
    next_name_num: AtomicCounter,
    size: usize,
    live: usize,
    queue: Vec<J>,
    queue_cap: usize,
    open: bool,
    max_threads: usize,
    spawn_requests: Vec<String>,
}

impl<J> Inner<J> {
    /// The name prefix of this pool's workers.
    pub closed spec fn name(self) -> Seq<char> {
        self.name@
    }

    /// The number the next spawned worker's name will carry.
    pub closed spec fn counter(self) -> nat {
        self.next_name_num.current()
    }

    /// The target worker count.
    pub closed spec fn size(self) -> nat {
        self.size as nat
    }

    /// How many workers are live.
    pub closed spec fn live(self) -> nat {
        self.live as nat
    }

    /// The queued jobs, oldest first.
    pub closed spec fn queue(self) -> Seq<J> {
        self.queue@
    }

    /// The fixed bound of the job queue: two hundred jobs per worker.
    pub closed spec fn queue_cap(self) -> nat {
        self.queue_cap as nat
    }

    /// Whether the pool handle still exists, keeping the job queue open.
    pub closed spec fn open(self) -> bool {
        self.open
    }

    /// The process-wide upper bound on worker threads.
    pub closed spec fn max_threads(self) -> nat {
        self.max_threads as nat
    }

    /// Names of workers whose start is owed to the driver.
    pub closed spec fn spawn_requests(self) -> Seq<String> {
        self.spawn_requests@
    }

    /// The pool invariant: a positive target size, and a job queue that never
    /// exceeds its bound of two hundred jobs per worker.
    pub open spec fn wf(self) -> bool {
        &&& self.size() >= 1
        &&& self.queue().len() <= self.queue_cap()
        &&& self.queue_cap() == self.size() * 200
    }

    /// The live count replenishment reaches: the target size, cut off at the
    /// process-wide bound, and never below the current count.
    pub open spec fn replenish_target(self) -> nat {
        if self.live() >= self.size() {
            self.live()
        } else if self.max_threads() >= self.size() {
            self.size()
        } else if self.live() >= self.max_threads() {
            self.live()
        } else {
            self.max_threads()
        }
    }

    /// Whether replenishment reaches the target size without hitting the
    /// process-wide bound.
    pub open spec fn replenish_ok(self) -> bool {
        self.live() >= self.size() || self.max_threads() >= self.size()
    }

    /// How replenishment rewrites the state: the live count reaches its
    /// target, the name counter moves once per spawned worker, and one spawn
    /// request per spawned worker — carrying the prefixed, numbered name — is
    /// appended.  The queue, the flags and the configuration stay.
    pub open spec fn replenish_rel(pre: Self, post: Self) -> bool {
        &&& post.live() == pre.replenish_target()
        &&& post.counter() == pre.counter() + (pre.replenish_target() - pre.live())
        &&& post.name() == pre.name()
        &&& post.size() == pre.size()
        &&& post.max_threads() == pre.max_threads()
        &&& post.open() == pre.open()
        &&& post.queue_cap() == pre.queue_cap()
        &&& post.spawn_requests().len() == pre.spawn_requests().len() + (pre.replenish_target()
            - pre.live())
        &&& forall|i: int|
            0 <= i < pre.spawn_requests().len() ==> post.spawn_requests()[i]
                == pre.spawn_requests()[i]
        &&& forall|i: int|
            pre.spawn_requests().len() <= i < post.spawn_requests().len()
                ==> #[trigger] post.spawn_requests()[i]@ == worker_name_spec(
                pre.name(),
                (pre.counter() + (i - pre.spawn_requests().len())) as nat,
            )
    }

    /// The whole state of `pre` and `post` agrees.
    pub open spec fn same_state(pre: Self, post: Self) -> bool {
        &&& post.name() == pre.name()
        &&& post.counter() == pre.counter()
        &&& post.size() == pre.size()
        &&& post.live() == pre.live()
        &&& post.queue() == pre.queue()
        &&& post.queue_cap() == pre.queue_cap()
        &&& post.open() == pre.open()
        &&& post.max_threads() == pre.max_threads()
        &&& post.spawn_requests() == pre.spawn_requests()
    }

    /// A fresh pool state: no workers yet, an empty open queue bounded at two
    /// hundred jobs per worker, and the process-wide bound wide open.
    pub fn new(name: &'static str, size: usize, max_threads: usize) -> (inner: Inner<J>)
        requires
            size >= 1,
            size <= usize::MAX / 200,
        ensures
            inner.wf(),
            inner.name() == name@,
            inner.counter() == 0,
            inner.size() == size,
            inner.live() == 0,
            inner.queue() == Seq::<J>::empty(),
            inner.queue_cap() == size * 200,
            inner.open(),
            inner.max_threads() == max_threads,
            inner.spawn_requests() == Seq::<String>::empty(),
    {
        Inner {
            name: String::from_str(name),
            next_name_num: AtomicCounter::new(),
            size,
            live: 0,
            queue: Vec::new(),
            queue_cap: size * 200,
            open: true,
            max_threads,
            spawn_requests: Vec::new(),
        }
    }

    /// How many workers are live.
    pub fn num_live_threads(&self) -> (n: usize)
        ensures
            n == self.live(),
    {
        self.live
    }

    /// The target worker count.
    pub fn target_size(&self) -> (n: usize)
        ensures
            n == self.size(),
    {
        self.size
    }

    /// The number the next spawned worker's name will carry; drivers check
    /// it against the machine limit before asking for a replenish.
    pub fn name_counter(&self) -> (n: usize)
        ensures
            n == self.counter(),
    {
        self.next_name_num.peek()
    }

    /// Set the process-wide upper bound on worker threads.
    pub fn set_max_threads(&mut self, max_threads: usize)
        ensures
            final(self).max_threads() == max_threads,
            final(self).name() == old(self).name(),
            final(self).counter() == old(self).counter(),
            final(self).size() == old(self).size(),
            final(self).live() == old(self).live(),
            final(self).queue() == old(self).queue(),
            final(self).queue_cap() == old(self).queue_cap(),
            final(self).open() == old(self).open(),
            final(self).spawn_requests() == old(self).spawn_requests(),
            old(self).wf() ==> final(self).wf(),
    {
        self.max_threads = max_threads;
    }

    /// Start one worker if the pool is below its target size: the worker gets
    /// the next numbered name, counts as live at once, and its start is owed
    /// to the driver.  Hitting the process-wide bound fails with the
    /// documented message, classified by the live count.
    pub fn start_thread(&mut self) -> (r: Result<(), StartThreadsError>)
        requires
            old(self).wf(),
            old(self).counter() < usize::MAX,
        ensures
            final(self).wf(),
            final(self).name() == old(self).name(),
            final(self).size() == old(self).size(),
            final(self).max_threads() == old(self).max_threads(),
            final(self).open() == old(self).open(),
            final(self).queue() == old(self).queue(),
            final(self).queue_cap() == old(self).queue_cap(),
            old(self).live() >= old(self).size() ==> {
                &&& r is Ok
                &&& final(self).live() == old(self).live()
                &&& final(self).counter() == old(self).counter()
                &&& final(self).spawn_requests() == old(self).spawn_requests()
            },
            (old(self).live() < old(self).size() && old(self).live() < old(
                self,
            ).max_threads()) ==> {
                &&& r is Ok
                &&& final(self).live() == old(self).live() + 1
                &&& final(self).counter() == old(self).counter() + 1
                &&& final(self).spawn_requests().len() == old(self).spawn_requests().len() + 1
                &&& forall|i: int|
                    0 <= i < old(self).spawn_requests().len() ==> final(self).spawn_requests()[i]
                        == old(self).spawn_requests()[i]
                &&& final(self).spawn_requests()[old(self).spawn_requests().len() as int]@
                    == worker_name_spec(old(self).name(), old(self).counter())
            },
            (old(self).live() < old(self).size() && old(self).live() >= old(
                self,
            ).max_threads()) ==> {
                &&& r is Err
                &&& classifies(
                    r->Err_0,
                    old(self).live(),
                    IoErrorKind::Other,
                    "Number of threads reached the upper limit"@,
                )
                &&& final(self).live() == old(self).live()
                &&& final(self).counter() == old(self).counter()
                &&& final(self).spawn_requests() == old(self).spawn_requests()
            },
    {
        if self.live >= self.size {
            return Ok(());
        }
        if self.live >= self.max_threads {
            let e = IoError::new(
                IoErrorKind::Other,
                String::from_str("Number of threads reached the upper limit"),
            );
            if self.live == 0 {
                return Err(StartThreadsError::NoThreads(e));
            } else {
                return Err(StartThreadsError::Respawn(e));
            }
        }
        let n = self.next_name_num.next();
        let mut worker_name = self.name.clone();
        worker_name.append("-");
        let digits = decimal_string(n);
        worker_name.append(digits.as_str());
        self.spawn_requests.push(worker_name);
        self.live = self.live + 1;
        Ok(())
    }

    /// Replenish: start workers until the pool reaches its target size.  On
    /// success the live count equals the target size; hitting the
    /// process-wide bound stops at that bound and fails, classified by the
    /// live count reached.
    pub fn start_threads(&mut self) -> (r: Result<(), StartThreadsError>)
        requires
            old(self).wf(),
            old(self).counter() + old(self).size() - old(self).live() <= usize::MAX,
        ensures
            final(self).wf(),
            Self::replenish_rel(*old(self), *final(self)),
            final(self).queue() == old(self).queue(),
            r is Ok <==> old(self).replenish_ok(),
            r is Err ==> classifies(
                r->Err_0,
                old(self).replenish_target(),
                IoErrorKind::Other,
                "Number of threads reached the upper limit"@,
            ),
    {
        while self.live < self.size
            invariant
                self.wf(),
                self.name() == old(self).name(),
                self.size() == old(self).size(),
                self.max_threads() == old(self).max_threads(),
                self.open() == old(self).open(),
                self.queue() == old(self).queue(),
                self.queue_cap() == old(self).queue_cap(),
                old(self).live() <= self.live(),
                self.live() <= old(self).replenish_target(),
                self.live() > old(self).live() ==> self.live() <= self.max_threads(),
                self.counter() == old(self).counter() + (self.live() - old(self).live()),
                old(self).counter() + old(self).size() - old(self).live() <= usize::MAX,
                self.spawn_requests().len() == old(self).spawn_requests().len() + (self.live()
                    - old(self).live()),
                forall|i: int|
                    0 <= i < old(self).spawn_requests().len() ==> self.spawn_requests()[i] == old(
                        self,
                    ).spawn_requests()[i],
                forall|i: int|
                    old(self).spawn_requests().len() <= i < self.spawn_requests().len()
                        ==> #[trigger] self.spawn_requests()[i]@ == worker_name_spec(
                        old(self).name(),
                        (old(self).counter() + (i - old(self).spawn_requests().len())) as nat,
                    ),
            decreases old(self).replenish_target() - self.live(),
        {
            let stepped = self.start_thread();
            if let Err(e) = stepped {
                return Err(e);
            }
        }
        Ok(())
    }

    /// Hand out the names of the workers whose start is owed; the driver must
    /// now create one thread per name, reporting failures with
    /// `spawn_failed`.
    pub fn take_spawn_requests(&mut self) -> (names: Vec<String>)
        ensures
            names@ == old(self).spawn_requests(),
            final(self).spawn_requests() == Seq::<String>::empty(),
            final(self).name() == old(self).name(),
            final(self).counter() == old(self).counter(),
            final(self).size() == old(self).size(),
            final(self).live() == old(self).live(),
            final(self).queue() == old(self).queue(),
            final(self).queue_cap() == old(self).queue_cap(),
            final(self).open() == old(self).open(),
            final(self).max_threads() == old(self).max_threads(),
            old(self).wf() ==> final(self).wf(),
    {
        let mut names: Vec<String> = Vec::new();
        core::mem::swap(&mut self.spawn_requests, &mut names);
        names
    }

    /// The driver reports that the operating system refused to create a
    /// worker's thread: the worker no longer counts as live, and the failure
    /// is classified by the count that remains.
    pub fn spawn_failed(&mut self, e: IoError) -> (r: StartThreadsError)
        requires
            old(self).live() >= 1,
        ensures
            final(self).live() == old(self).live() - 1,
            classifies(r, final(self).live(), e.kind, e.message@),
            final(self).name() == old(self).name(),
            final(self).counter() == old(self).counter(),
            final(self).size() == old(self).size(),
            final(self).queue() == old(self).queue(),
            final(self).queue_cap() == old(self).queue_cap(),
            final(self).open() == old(self).open(),
            final(self).max_threads() == old(self).max_threads(),
            final(self).spawn_requests() == old(self).spawn_requests(),
            old(self).wf() ==> final(self).wf(),
    {
        self.live = self.live - 1;
        if self.live == 0 {
            StartThreadsError::NoThreads(e)
        } else {
            StartThreadsError::Respawn(e)
        }
    }

    /// The driver reports that a worker's thread died inside a job: it no
    /// longer counts as live.  The next `work` or schedule restores the
    /// count.
    pub fn worker_panicked(&mut self)
        requires
            old(self).live() >= 1,
        ensures
            final(self).live() == old(self).live() - 1,
            final(self).name() == old(self).name(),
            final(self).counter() == old(self).counter(),
            final(self).size() == old(self).size(),
            final(self).queue() == old(self).queue(),
            final(self).queue_cap() == old(self).queue_cap(),
            final(self).open() == old(self).open(),
            final(self).max_threads() == old(self).max_threads(),
            final(self).spawn_requests() == old(self).spawn_requests(),
            old(self).wf() ==> final(self).wf(),
    {
        self.live = self.live - 1;
    }

    /// Close the job queue: models the drop of the pool handle's sending
    /// endpoint.  Workers observe the disconnect once the queue drains.
    pub fn close(&mut self)
        ensures
            !final(self).open(),
            final(self).name() == old(self).name(),
            final(self).counter() == old(self).counter(),
            final(self).size() == old(self).size(),
            final(self).live() == old(self).live(),
            final(self).queue() == old(self).queue(),
            final(self).queue_cap() == old(self).queue_cap(),
            final(self).max_threads() == old(self).max_threads(),
            final(self).spawn_requests() == old(self).spawn_requests(),
            old(self).wf() ==> final(self).wf(),
    {
        self.open = false;
    }

    /// Put a job at the back of the queue, or hand it back when the queue
    /// holds its full bound.
    pub fn try_enqueue(&mut self, job: J) -> (r: Result<(), J>)
        requires
            old(self).wf(),
        ensures
            final(self).wf(),
            final(self).name() == old(self).name(),
            final(self).counter() == old(self).counter(),
            final(self).size() == old(self).size(),
            final(self).live() == old(self).live(),
            final(self).queue_cap() == old(self).queue_cap(),
            final(self).open() == old(self).open(),
            final(self).max_threads() == old(self).max_threads(),
            final(self).spawn_requests() == old(self).spawn_requests(),
            old(self).queue().len() < old(self).queue_cap() ==> {
                &&& r is Ok
                &&& final(self).queue() == old(self).queue().push(job)
            },
            old(self).queue().len() >= old(self).queue_cap() ==> {
                &&& r == Err::<(), J>(job)
                &&& final(self).queue() == old(self).queue()
            },
    {
        if self.queue.len() >= self.queue_cap {
            Err(job)
        } else {
            self.queue.push(job);
            Ok(())
        }
    }

    /// A worker's receive on the job queue, with its timeout: the oldest job
    /// if one is queued, the lapse of the timeout on an empty open queue —
    /// while the worker waits nothing can arrive in this sequential rendering
    /// — and the disconnect once the queue is closed and drained.
    pub fn take_job(&mut self) -> (ev: JobEvent<J>)
        requires
            old(self).wf(),
        ensures
            final(self).wf(),
            final(self).name() == old(self).name(),
            final(self).counter() == old(self).counter(),
            final(self).size() == old(self).size(),
            final(self).live() == old(self).live(),
            final(self).queue_cap() == old(self).queue_cap(),
            final(self).open() == old(self).open(),
            final(self).max_threads() == old(self).max_threads(),
            final(self).spawn_requests() == old(self).spawn_requests(),
            old(self).queue().len() > 0 ==> {
                &&& ev == JobEvent::Job(old(self).queue()[0])
                &&& final(self).queue() == old(self).queue().drop_first()
            },
            (old(self).queue().len() == 0 && old(self).open()) ==> {
                &&& ev is Timeout
                &&& final(self).queue() == old(self).queue()
            },
            (old(self).queue().len() == 0 && !old(self).open()) ==> {
                &&& ev is Disconnected
                &&& final(self).queue() == old(self).queue()
            },
    {
        if self.queue.len() > 0 {
            let job = self.queue.remove(0);
            JobEvent::Job(job)
        } else if self.open {
            JobEvent::Timeout
        } else {
            JobEvent::Disconnected
        }
    }

    /// One iteration of a worker's loop: receive with timeout; on a job,
    /// replenish the pool (a panicked sibling may have died) and hand the job
    /// out to be run; on a timeout, replenish and go round; on the
    /// disconnect, stop being live and exit.  Replenishment failures are
    /// ignored here — the schedule path retries them.
    pub fn work(&mut self) -> (step: WorkStep<J>)
        requires
            old(self).wf(),
            old(self).live() >= 1,
            old(self).counter() + old(self).size() <= usize::MAX,
        ensures
            final(self).wf(),
            old(self).queue().len() > 0 ==> {
                &&& step == WorkStep::Run(old(self).queue()[0])
                &&& final(self).queue() == old(self).queue().drop_first()
                &&& Self::replenish_rel(*old(self), *final(self))
            },
            (old(self).queue().len() == 0 && old(self).open()) ==> {
                &&& step is Idle
                &&& final(self).queue() == old(self).queue()
                &&& Self::replenish_rel(*old(self), *final(self))
            },
            (old(self).queue().len() == 0 && !old(self).open()) ==> {
                &&& step is Exit
                &&& final(self).live() == old(self).live() - 1
                &&& final(self).queue() == old(self).queue()
                &&& final(self).name() == old(self).name()
                &&& final(self).counter() == old(self).counter()
                &&& final(self).size() == old(self).size()
                &&& final(self).queue_cap() == old(self).queue_cap()
                &&& final(self).open() == old(self).open()
                &&& final(self).max_threads() == old(self).max_threads()
                &&& final(self).spawn_requests() == old(self).spawn_requests()
            },
    {
        match self.take_job() {
            JobEvent::Job(job) => {
                let _ignored = self.start_threads();
                WorkStep::Run(job)
            },
            JobEvent::Timeout => {
                let _ignored = self.start_threads();
                WorkStep::Idle
            },
            JobEvent::Disconnected => {
                self.live = self.live - 1;
                WorkStep::Exit
            },
        }
    }
}

/// Law: replenishment converges — when the process-wide bound does not bite,
/// one `start_threads` call brings the live count to the target size.
pub proof fn lemma_pool_live_convergence<J>(inner: Inner<J>)
    requires
        inner.wf(),
        inner.max_threads() >= inner.size(),
        inner.live() <= inner.size(),
    ensures
        inner.replenish_target() == inner.size(),
        inner.replenish_ok(),
{
}

} // verus!

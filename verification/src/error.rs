//! Classified errors of the worker pool, and their rendering.
//!
//! Failures of the operating system's thread creation reach the library as
//! plain `IoError` values (a kind plus a message); the embedding program
//! converts from its native error type.  The library classifies them —
//! `NoThreads` when the pool was empty at the moment of failure, `Respawn`
//! otherwise — and renders every error back to an `IoError` with the
//! documented kind mapping: parameter errors to invalid input, a full queue
//! to would-block, spawn failures keeping their underlying kind.

use vstd::prelude::*;
use vstd::string::StringExecFns;

verus! {

/// The kinds of I/O-classified failures the pool deals in.
#[derive(Clone, Copy, Debug, PartialEq, Eq, Structural)]
pub enum IoErrorKind {
    NotFound,
    PermissionDenied,
    WouldBlock,
    InvalidInput,
    TimedOut,
    Interrupted,
    OutOfMemory,
    Unsupported,
    Other,
}

/// An I/O-classified failure: a kind and a human-readable message.
#[derive(Debug)]
pub struct IoError {
    pub kind: IoErrorKind,
    pub message: String,
}

impl IoError {
    pub fn new(kind: IoErrorKind, message: String) -> (e: IoError)
        ensures
            e.kind == kind,
            e.message@ == message@,
    {
        IoError { kind, message }
    }
}

/// Two I/O errors are the same failure when kind and message agree.
pub fn err_eq(a: &IoError, b: &IoError) -> (r: bool)
    ensures
        r == (a.kind == b.kind && a.message@ == b.message@),
{
    a.kind == b.kind && a.message == b.message
}

impl PartialEq for IoError {
    fn eq(&self, other: &Self) -> (r: bool) {
        err_eq(self, other)
    }
}

impl vstd::std_specs::cmp::PartialEqSpecImpl for IoError {
    open spec fn obeys_eq_spec() -> bool {
        true
    }

    open spec fn eq_spec(&self, other: &Self) -> bool {
        self.kind == other.kind && self.message@ == other.message@
    }
}

/// Failure of bringing the worker population up to size.
#[derive(Debug)]
pub enum StartThreadsError {
    /// No worker was live at the moment thread creation failed.
    NoThreads(IoError),
    /// Workers remain, but a replacement could not be started.
    Respawn(IoError),
}

impl StartThreadsError {
    /// The rendered message, as the error displays itself.
    pub fn message(&self) -> (r: String)
        ensures
            self is NoThreads ==> r@ ==
                "ThreadPool workers all panicked, failed starting replacement threads: "@
                + self->NoThreads_0.message@,
            self is Respawn ==> r@ ==
                "ThreadPool failed starting threads to replace panicked threads: "@
                + self->Respawn_0.message@,
    {
        match self {
            StartThreadsError::NoThreads(e) => String::from_str(
                "ThreadPool workers all panicked, failed starting replacement threads: ",
            ).concat(e.message.as_str()),
            StartThreadsError::Respawn(e) => String::from_str(
                "ThreadPool failed starting threads to replace panicked threads: ",
            ).concat(e.message.as_str()),
        }
    }
}

impl PartialEq for StartThreadsError {
    fn eq(&self, other: &Self) -> (r: bool) {
        match (self, other) {
            (StartThreadsError::NoThreads(a), StartThreadsError::NoThreads(b)) => err_eq(a, b),
            (StartThreadsError::Respawn(a), StartThreadsError::Respawn(b)) => err_eq(a, b),
            _ => false,
        }
    }
}

impl vstd::std_specs::cmp::PartialEqSpecImpl for StartThreadsError {
    open spec fn obeys_eq_spec() -> bool {
        true
    }

    open spec fn eq_spec(&self, other: &Self) -> bool {
        match (self, other) {
            (StartThreadsError::NoThreads(a), StartThreadsError::NoThreads(b)) => a.kind == b.kind
                && a.message@ == b.message@,
            (StartThreadsError::Respawn(a), StartThreadsError::Respawn(b)) => a.kind == b.kind
                && a.message@ == b.message@,
            _ => false,
        }
    }
}

/// Failure of constructing a pool.
#[derive(Debug)]
pub enum NewThreadPoolError {
    /// A parameter was invalid; the message says which.
    Parameter(String),
    /// Thread creation failed while starting the initial workers.
    Spawn(IoError),
}

impl NewThreadPoolError {
    /// The rendered message, as the error displays itself.
    pub fn message(&self) -> (r: String)
        ensures
            self is Parameter ==> r@ == self->Parameter_0@,
            self is Spawn ==> r@ == "ThreadPool failed starting threads: "@
                + self->Spawn_0.message@,
    {
        match self {
            NewThreadPoolError::Parameter(s) => s.clone(),
            NewThreadPoolError::Spawn(e) => String::from_str(
                "ThreadPool failed starting threads: ",
            ).concat(e.message.as_str()),
        }
    }

    /// The documented conversion to a plain I/O error: parameter errors map
    /// to invalid input; spawn failures are wrapped under the `Other` kind.
    pub fn into_io_error(self) -> (r: IoError)
        ensures
            self is Parameter ==> {
                &&& r.kind == IoErrorKind::InvalidInput
                &&& r.message@ == self->Parameter_0@
            },
            self is Spawn ==> {
                &&& r.kind == IoErrorKind::Other
                &&& r.message@ == "failed to start threads: "@ + self->Spawn_0.message@
            },
    {
        match self {
            NewThreadPoolError::Parameter(s) => IoError { kind: IoErrorKind::InvalidInput, message: s },
            NewThreadPoolError::Spawn(e) => IoError {
                kind: IoErrorKind::Other,
                message: String::from_str("failed to start threads: ").concat(e.message.as_str()),
            },
        }
    }
}

impl PartialEq for NewThreadPoolError {
    fn eq(&self, other: &Self) -> (r: bool) {
        match (self, other) {
            (NewThreadPoolError::Parameter(a), NewThreadPoolError::Parameter(b)) => *a == *b,
            (NewThreadPoolError::Spawn(a), NewThreadPoolError::Spawn(b)) => err_eq(a, b),
            _ => false,
        }
    }
}

impl vstd::std_specs::cmp::PartialEqSpecImpl for NewThreadPoolError {
    open spec fn obeys_eq_spec() -> bool {
        true
    }

    open spec fn eq_spec(&self, other: &Self) -> bool {
        match (self, other) {
            (NewThreadPoolError::Parameter(a), NewThreadPoolError::Parameter(b)) => a@ == b@,
            (NewThreadPoolError::Spawn(a), NewThreadPoolError::Spawn(b)) => a.kind == b.kind
                && a.message@ == b.message@,
            _ => false,
        }
    }
}

impl core::convert::From<StartThreadsError> for NewThreadPoolError {
    /// Both classifications collapse to a spawn failure of construction.
    fn from(err: StartThreadsError) -> (r: Self) {
        match err {
            StartThreadsError::NoThreads(e) => NewThreadPoolError::Spawn(e),
            StartThreadsError::Respawn(e) => NewThreadPoolError::Spawn(e),
        }
    }
}

impl vstd::std_specs::convert::FromSpecImpl<StartThreadsError> for NewThreadPoolError {
    open spec fn obeys_from_spec() -> bool {
        true
    }

    open spec fn from_spec(err: StartThreadsError) -> Self {
        match err {
            StartThreadsError::NoThreads(e) => NewThreadPoolError::Spawn(e),
            StartThreadsError::Respawn(e) => NewThreadPoolError::Spawn(e),
        }
    }
}

/// Failure of the non-blocking schedule.
#[derive(Debug)]
pub enum TryScheduleError {
    /// The job queue holds its full bound of jobs.
    QueueFull,
    /// No worker was live at the moment thread creation failed.
    NoThreads(IoError),
    /// Workers remain, but a replacement could not be started.
    Respawn(IoError),
}

impl TryScheduleError {
    /// The rendered message, as the error displays itself.
    pub fn message(&self) -> (r: String)
        ensures
            self is QueueFull ==> r@ == "ThreadPool queue is full"@,
            self is NoThreads ==> r@ ==
                "ThreadPool workers all panicked, failed starting replacement threads: "@
                + self->NoThreads_0.message@,
            self is Respawn ==> r@ ==
                "ThreadPool failed starting threads to replace panicked threads: "@
                + self->Respawn_0.message@,
    {
        match self {
            TryScheduleError::QueueFull => String::from_str("ThreadPool queue is full"),
            TryScheduleError::NoThreads(e) => String::from_str(
                "ThreadPool workers all panicked, failed starting replacement threads: ",
            ).concat(e.message.as_str()),
            TryScheduleError::Respawn(e) => String::from_str(
                "ThreadPool failed starting threads to replace panicked threads: ",
            ).concat(e.message.as_str()),
        }
    }

    /// The documented conversion to a plain I/O error: a full queue maps to
    /// would-block; spawn failures keep their underlying kind and carry the
    /// rendered message.
    pub fn into_io_error(self) -> (r: IoError)
        ensures
            self is QueueFull ==> {
                &&& r.kind == IoErrorKind::WouldBlock
                &&& r.message@ == "TryScheduleError::QueueFull"@
            },
            self is NoThreads ==> {
                &&& r.kind == self->NoThreads_0.kind
                &&& r.message@ ==
                    "ThreadPool workers all panicked, failed starting replacement threads: "@
                    + self->NoThreads_0.message@
            },
            self is Respawn ==> {
                &&& r.kind == self->Respawn_0.kind
                &&& r.message@ ==
                    "ThreadPool failed starting threads to replace panicked threads: "@
                    + self->Respawn_0.message@
            },
    {
        match self {
            TryScheduleError::QueueFull => IoError {
                kind: IoErrorKind::WouldBlock,
                message: String::from_str("TryScheduleError::QueueFull"),
            },
            TryScheduleError::NoThreads(e) => IoError {
                kind: e.kind,
                message: String::from_str(
                    "ThreadPool workers all panicked, failed starting replacement threads: ",
                ).concat(e.message.as_str()),
            },
            TryScheduleError::Respawn(e) => IoError {
                kind: e.kind,
                message: String::from_str(
                    "ThreadPool failed starting threads to replace panicked threads: ",
                ).concat(e.message.as_str()),
            },
        }
    }
}

impl PartialEq for TryScheduleError {
    fn eq(&self, other: &Self) -> (r: bool) {
        match (self, other) {
            (TryScheduleError::QueueFull, TryScheduleError::QueueFull) => true,
            (TryScheduleError::NoThreads(a), TryScheduleError::NoThreads(b)) => err_eq(a, b),
            (TryScheduleError::Respawn(a), TryScheduleError::Respawn(b)) => err_eq(a, b),
            _ => false,
        }
    }
}

impl vstd::std_specs::cmp::PartialEqSpecImpl for TryScheduleError {
    open spec fn obeys_eq_spec() -> bool {
        true
    }

    open spec fn eq_spec(&self, other: &Self) -> bool {
        match (self, other) {
            (TryScheduleError::QueueFull, TryScheduleError::QueueFull) => true,
            (TryScheduleError::NoThreads(a), TryScheduleError::NoThreads(b)) => a.kind == b.kind
                && a.message@ == b.message@,
            (TryScheduleError::Respawn(a), TryScheduleError::Respawn(b)) => a.kind == b.kind
                && a.message@ == b.message@,
            _ => false,
        }
    }
}

impl core::convert::From<StartThreadsError> for TryScheduleError {
    /// The classification is kept as it stands.
    fn from(err: StartThreadsError) -> (r: Self) {
        match err {
            StartThreadsError::NoThreads(e) => TryScheduleError::NoThreads(e),
            StartThreadsError::Respawn(e) => TryScheduleError::Respawn(e),
        }
    }
}

impl vstd::std_specs::convert::FromSpecImpl<StartThreadsError> for TryScheduleError {
    open spec fn obeys_from_spec() -> bool {
        true
    }

    open spec fn from_spec(err: StartThreadsError) -> Self {
        match err {
            StartThreadsError::NoThreads(e) => TryScheduleError::NoThreads(e),
            StartThreadsError::Respawn(e) => TryScheduleError::Respawn(e),
        }
    }
}

} // verus!

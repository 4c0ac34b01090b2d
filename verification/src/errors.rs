//! The demo's error taxonomy: the prompt's input stream closing, a worker
//! terminating abnormally, and a lock left poisoned by a holder that failed.
//! The first is fatal (nothing can proceed without input); the other two are
//! surfaced to the caller as recoverable, reported conditions.

use vstd::prelude::*;

verus! {

/// Everything that can go wrong in the demo.
#[derive(Clone, Copy, Debug, PartialEq, Eq, Structural)]
pub enum DemoError {
    /// Reading the interactive prompt failed; there is no way to proceed.
    InputStreamClosed,
    /// The worker at this position in the handle list terminated abnormally.
    WorkerFailed { index: usize },
    /// A prior holder terminated abnormally while holding the lock.
    LockPoisoned,
}

impl DemoError {
    /// The diagnostic the demo prints for this error.
    pub fn describe(&self) -> (r: &'static str)
        ensures
            self is InputStreamClosed ==> r@ == "input stream closed"@,
            self is WorkerFailed ==> r@ == "a worker terminated abnormally"@,
            self is LockPoisoned ==> r@ == "lock poisoned by a failed worker"@,
    {
        match self {
            DemoError::InputStreamClosed => "input stream closed",
            DemoError::WorkerFailed { .. } => "a worker terminated abnormally",
            DemoError::LockPoisoned => "lock poisoned by a failed worker",
        }
    }
}

} // verus!

//! A model of the mutual-exclusion lock's poisoning discipline. The lock the
//! binary uses marks itself poisoned when a holder terminates abnormally; the
//! demo's chosen policy is to surface that to the next acquirer as a defined
//! error, leaving the lock poisoned, rather than to deadlock or to proceed
//! silently with possibly inconsistent protected data.

use crate::errors::DemoError;
use vstd::prelude::*;

verus! {

/// The states a lock can be observed in.
#[derive(Clone, Copy, Debug, PartialEq, Eq, Structural)]
pub enum LockState {
    /// Free: the next acquirer gets it.
    Unlocked,
    /// Some worker holds it; an acquirer would block until it is released.
    Held,
    /// A holder terminated abnormally while holding it.
    Poisoned,
}

/// Where an acquisition attempt leaves the lock. A free lock is taken; a
/// poisoned lock stays poisoned.
pub open spec fn acquire_next(s: LockState) -> LockState {
    match s {
        LockState::Unlocked => LockState::Held,
        LockState::Held => LockState::Held,
        LockState::Poisoned => LockState::Poisoned,
    }
}

/// What an acquisition attempt reports: success on a free lock, the defined
/// poisoned-state error on a poisoned one.
pub open spec fn acquire_report(s: LockState) -> Result<(), DemoError> {
    match s {
        LockState::Poisoned => Err(DemoError::LockPoisoned),
        _ => Ok(()),
    }
}

/// Where an abnormal termination of the holder leaves the lock.
pub open spec fn abnormal_exit_next(s: LockState) -> LockState {
    LockState::Poisoned
}

/// The lock's observable state, stepped as the binary's real lock is.
pub struct LockModel {
    pub state: LockState,
}

impl LockModel {
    /// A fresh, free lock.
    pub fn new() -> (m: Self)
        ensures
            m.state is Unlocked,
    {
        LockModel { state: LockState::Unlocked }
    }

    /// One acquisition attempt. The model steps only when the lock is not
    /// held: a held lock blocks the acquirer until release instead of
    /// returning.
    pub fn acquire(&mut self) -> (r: Result<(), DemoError>)
        requires
            !(old(self).state is Held),
        ensures
            final(self).state == acquire_next(old(self).state),
            r == acquire_report(old(self).state),
    {
        match self.state {
            LockState::Poisoned => Err(DemoError::LockPoisoned),
            _ => {
                self.state = LockState::Held;
                Ok(())
            },
        }
    }

    /// The holder releases the lock normally.
    pub fn release(&mut self)
        requires
            old(self).state is Held,
        ensures
            final(self).state is Unlocked,
    {
        self.state = LockState::Unlocked;
    }

    /// The holder terminates abnormally while holding the lock.
    pub fn fail_while_held(&mut self)
        requires
            old(self).state is Held,
        ensures
            final(self).state == abnormal_exit_next(old(self).state),
    {
        self.state = LockState::Poisoned;
    }
}

/// After a holder fails abnormally, the next acquisition surfaces the defined
/// poisoned-state error and leaves the lock poisoned: it neither deadlocks
/// nor proceeds silently with the protected data.
pub proof fn lemma_poison_never_silent(s: LockState)
    requires
        s is Held,
    ensures
        acquire_report(abnormal_exit_next(s)) == Err::<(), DemoError>(DemoError::LockPoisoned),
        acquire_next(abnormal_exit_next(s)) is Poisoned,
{
}

} // verus!

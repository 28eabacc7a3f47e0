//! Synchronisation primitives: the decision taken on a system mutex's answer.

use vstd::prelude::*;

verus! {

/// Failure to take a lock.
#[derive(Debug, Clone, Copy, PartialEq, Eq, Structural)]
pub enum LockError {
    /// The data is already locked elsewhere
    AlreadyLocked,
}

impl LockError {
    /// The sentence that describes this error.
    pub fn message(&self) -> (r: &'static str)
        ensures
            r@ == "The data is already locked elsewhere"@,
    {
        "The data is already locked elsewhere"
    }
}

/// The outcome of an attempt to take a mutex without waiting, from the system's
/// answer (`1` when the mutex was taken, `0` when it is held elsewhere).
pub fn try_lock_result(taken: i32) -> (r: Result<(), LockError>)
    requires
        taken == 0 || taken == 1,
    ensures
        taken == 1 ==> r is Ok,
        taken == 0 ==> r == Err::<(), LockError>(LockError::AlreadyLocked),
{
    if taken == 1 {
        Ok(())
    } else {
        Err(LockError::AlreadyLocked)
    }
}

} // verus!

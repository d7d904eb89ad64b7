//! Classification of a blocking wait on a named kernel object.
//!
//! The operating system reports the outcome of a wait as a status code;
//! the driver hands that code here, and these functions decide what it
//! means for a mutex acquisition and for an event wait.

use vstd::prelude::*;

use crate::errors::{LockMutexError, OsError, WaitEventError};

verus! {

/// Status code for a wait satisfied by the object being signaled.
pub const WAIT_CODE_OBJECT_0: u32 = 0x0;

/// Status code for a wait satisfied by an abandoned mutex.
pub const WAIT_CODE_ABANDONED: u32 = 0x80;

/// Status code for a wait that timed out.
pub const WAIT_CODE_TIMEOUT: u32 = 0x102;

/// Status code for a wait that failed outright.
pub const WAIT_CODE_FAILED: u32 = 0xffff_ffff;

/// The outcome of one blocking wait on a kernel object.
#[derive(Debug, Clone, Copy, PartialEq, Eq, Structural)]
pub enum WaitStatus {
    /// The object was signaled normally.
    Signaled,
    /// The object is a mutex whose previous holder terminated without
    /// releasing it; ownership is still granted.
    Abandoned,
    /// The wait timed out.
    Timeout,
    /// The wait itself failed, with the reported error code.
    Failed { source: OsError },
}

/// Turns the operating system's wait status code into a [`WaitStatus`].
/// The documented codes are the only ones a wait returns; `last_error` is
/// the thread's error code, consulted only when the wait failed.
pub fn classify_wait(code: u32, last_error: u32) -> (r: WaitStatus)
    requires
        code == WAIT_CODE_OBJECT_0 || code == WAIT_CODE_ABANDONED || code == WAIT_CODE_TIMEOUT
            || code == WAIT_CODE_FAILED,
    ensures
        r == WaitStatus::Signaled <==> code == WAIT_CODE_OBJECT_0,
        r == WaitStatus::Abandoned <==> code == WAIT_CODE_ABANDONED,
        r == WaitStatus::Timeout <==> code == WAIT_CODE_TIMEOUT,
        code == WAIT_CODE_FAILED ==> r == (WaitStatus::Failed {
            source: OsError { code: last_error },
        }),
{
    if code == WAIT_CODE_OBJECT_0 {
        WaitStatus::Signaled
    } else if code == WAIT_CODE_ABANDONED {
        WaitStatus::Abandoned
    } else if code == WAIT_CODE_TIMEOUT {
        WaitStatus::Timeout
    } else {
        WaitStatus::Failed { source: OsError { code: last_error } }
    }
}

/// What a wait outcome means for a mutex acquisition: a normal signal and
/// an abandoned mutex both count as acquired (the resource is still
/// structurally valid); a timeout or a wait failure is a lock error.
pub fn lock_wait_outcome(w: WaitStatus) -> (r: Result<(), LockMutexError>)
    ensures
        r is Ok <==> (w is Signaled || w is Abandoned),
        r == Err::<(), LockMutexError>(LockMutexError::Timeout) <==> w is Timeout,
        w matches WaitStatus::Failed { source } ==> r == Err::<(), LockMutexError>(
            LockMutexError::Os { source },
        ),
{
    match w {
        WaitStatus::Signaled => Ok(()),
        WaitStatus::Abandoned => Ok(()),
        WaitStatus::Timeout => Err(LockMutexError::Timeout),
        WaitStatus::Failed { source } => Err(LockMutexError::Os { source }),
    }
}

/// What a wait outcome means for an event: only a normal signal succeeds.
/// An abandoned outcome is impossible for events, so it is left out by
/// contract rather than classified.
pub fn wait_event_outcome(w: WaitStatus) -> (r: Result<(), WaitEventError>)
    requires
        !(w is Abandoned),
    ensures
        r is Ok <==> w is Signaled,
        r == Err::<(), WaitEventError>(WaitEventError::Timeout) <==> w is Timeout,
        w matches WaitStatus::Failed { source } ==> r == Err::<(), WaitEventError>(
            WaitEventError::Os { source },
        ),
{
    match w {
        WaitStatus::Signaled => Ok(()),
        WaitStatus::Abandoned => Ok(()),
        WaitStatus::Timeout => Err(WaitEventError::Timeout),
        WaitStatus::Failed { source } => Err(WaitEventError::Os { source }),
    }
}

} // verus!

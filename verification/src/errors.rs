//! The error taxonomy, layered as the protocol reports it: a low-level
//! operating-system cause wrapped in a step-specific kind, wrapped in one
//! of two top-level categories — `Init` (failure while establishing the
//! session, retryable) or `Send` (failure during an established send, not
//! retryable).

use vstd::prelude::*;

verus! {

/// A raw operating-system error code, carried for diagnostics.
#[derive(Debug, Clone, Copy, PartialEq, Eq, Structural)]
pub struct OsError {
    pub code: u32,
}

/// An object name could not be represented in the platform's string
/// encoding (it contains an interior nul): fatal and structural.
#[derive(Debug, Clone, Copy, PartialEq, Eq, Structural)]
pub struct InvalidNameError {
    /// Position of the offending nul in the name.
    pub nul_position: usize,
}

/// Failure to open the existing named mutex.
#[derive(Debug, Clone, Copy, PartialEq, Eq, Structural)]
pub enum OpenMutexError {
    InvalidName { source: InvalidNameError },
    Os { source: OsError },
}

/// Failure to acquire the named mutex.  An abandoned mutex is not an
/// error: the wait still grants ownership.
#[derive(Debug, Clone, Copy, PartialEq, Eq, Structural)]
pub enum LockMutexError {
    Timeout,
    Os { source: OsError },
}

/// Failure to create a new named event.
#[derive(Debug, Clone, Copy, PartialEq, Eq, Structural)]
pub enum CreateEventError {
    InvalidName { source: InvalidNameError },
    Os { source: OsError },
}

/// Failure to open an existing named event.
#[derive(Debug, Clone, Copy, PartialEq, Eq, Structural)]
pub enum OpenEventError {
    InvalidName { source: InvalidNameError },
    Os { source: OsError },
}

/// Failure to signal an event.
#[derive(Debug, Clone, Copy, PartialEq, Eq, Structural)]
pub struct SetEventError {
    pub source: OsError,
}

/// Failure to wait on an event.  An abandoned outcome is impossible for
/// events and never reported here.
#[derive(Debug, Clone, Copy, PartialEq, Eq, Structural)]
pub enum WaitEventError {
    Timeout,
    Os { source: OsError },
}

/// Failure to open the named shared-memory mapping: the name, the open and
/// the view mapping are distinct failure kinds.
#[derive(Debug, Clone, Copy, PartialEq, Eq, Structural)]
pub enum OpenFileMappingError {
    InvalidName { source: InvalidNameError },
    Open { source: OsError },
    MapView { source: OsError },
}

/// What failed while establishing the session (the Uninit-to-Ready
/// transition), by step.
#[derive(Debug, Clone, Copy, PartialEq, Eq, Structural)]
pub enum InitError {
    /// Failed to open the mutex.
    OpenMutex { source: OpenMutexError },
    /// Failed to lock the mutex.
    LockMutex { source: LockMutexError },
    /// Failed to create the "want frame" event.
    CreateWantEvent { source: CreateEventError },
    /// Failed to open the "sent frame" event.
    OpenSentEvent { source: OpenEventError },
    /// Failed to open the shared memory mapping.
    OpenSharedMemory { source: OpenFileMappingError },
}

/// What failed while sending a frame from an established session, by step.
#[derive(Debug, Clone, Copy, PartialEq, Eq, Structural)]
pub enum SendFrameError {
    /// Failed to wait for the "want frame" event.
    WaitWant { source: WaitEventError },
    /// Failed to lock the mutex.
    LockMutex { source: LockMutexError },
    /// Failed to signal the "sent frame" event.
    SignalSent { source: SetEventError },
}

/// Top-level classification: everything is either an initialization
/// failure or a send failure.
#[derive(Debug, Clone, Copy, PartialEq, Eq, Structural)]
pub enum Error {
    /// Failed to initialize the sender.
    Init { source: InitError },
    /// Failed to send a frame.
    Send { source: SendFrameError },
}

impl Error {
    /// The retry policy in one boolean: initialization failures are
    /// transient (the consumer may not have started yet) and worth
    /// retrying; failures during an established send are not.
    pub fn should_retry(&self) -> (r: bool)
        ensures
            r == (self is Init),
    {
        match self {
            Error::Init { .. } => true,
            Error::Send { .. } => false,
        }
    }
}

} // verus!

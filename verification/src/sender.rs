//! The sender state machine: lazy establishment of the protocol session
//! and the per-frame send sequence.
//!
//! The machine owns the protocol decisions; it performs no
//! operating-system call itself.  A driver asks it for the next
//! [`Action`], performs that action against the real kernel objects, and
//! hands the result back as a [`Reply`]; [`Sender::step`] then moves the
//! machine and either requests the next action or finishes the session
//! with an [`Outcome`].
//!
//! A sender is `Uninit` until its first successful send: it acquires the
//! named mutex, the "want frame" event, the "sent frame" event and the
//! shared-memory mapping lazily, caching each sub-resource so a failed
//! attempt never re-acquires what it already holds.  Once `Ready`, every
//! send locks the mutex, writes the frame, releases the mutex and signals
//! the "sent frame" event.  The "want frame" event is created and retained
//! but never waited on: its ownership keeps the session alive for the
//! consumer to observe.

use vstd::prelude::*;

use crate::errors::{
    CreateEventError, Error, InitError, OpenEventError, OpenFileMappingError, OpenMutexError,
    SendFrameError, SetEventError,
};
use crate::wait::WaitStatus;

verus! {

/// The fixed protocol name of the mutex guarding the shared region.
pub fn mutex_name() -> (s: &'static str)
    ensures
        s@ == "UnityCapture_Mutx"@,
{
    "UnityCapture_Mutx"
}

/// The fixed protocol name of the "want frame" event, created by the
/// producer and signaled by the consumer.
pub fn want_event_name() -> (s: &'static str)
    ensures
        s@ == "UnityCapture_Want"@,
{
    "UnityCapture_Want"
}

/// The fixed protocol name of the "sent frame" event, opened by the
/// producer and signaled after every written frame.
pub fn sent_event_name() -> (s: &'static str)
    ensures
        s@ == "UnityCapture_Sent"@,
{
    "UnityCapture_Sent"
}

/// The fixed protocol name of the shared-memory mapping.
pub fn shared_memory_name() -> (s: &'static str)
    ensures
        s@ == "UnityCapture_Data"@,
{
    "UnityCapture_Data"
}

/// The driver's identifier for the opened named mutex.
#[derive(Debug, Clone, Copy, PartialEq, Eq, Structural)]
pub struct MutexHandle {
    pub raw: u64,
}

/// The driver's identifier for a created or opened named event.
#[derive(Debug, Clone, Copy, PartialEq, Eq, Structural)]
pub struct EventHandle {
    pub raw: u64,
}

/// The driver's identifier for the opened shared-memory mapping.
#[derive(Debug, Clone, Copy, PartialEq, Eq, Structural)]
pub struct MappingHandle {
    pub raw: u64,
}

/// The not-yet-established session: each named resource independently and
/// idempotently acquired, cached across failed attempts.
#[derive(Debug, Clone, Copy, PartialEq, Eq, Structural)]
pub struct Uninit {
    pub mutex: Option<MutexHandle>,
    pub want_frame: Option<EventHandle>,
    pub sent_frame: Option<EventHandle>,
}

/// The established session: all resources held, reused for every
/// subsequent send and never released on failure.
#[derive(Debug, Clone, Copy, PartialEq, Eq, Structural)]
pub struct Ready {
    pub mutex: MutexHandle,
    pub want_frame: EventHandle,
    pub sent_frame: EventHandle,
    pub mapping: MappingHandle,
}

/// The sender's resource state: the one-way transition goes from `Uninit`
/// to `Ready` on the first fully successful initialization.
#[derive(Debug, Clone, Copy, PartialEq, Eq, Structural)]
pub enum State {
    Uninit(Uninit),
    Ready(Ready),
}

/// What the machine is waiting for the driver to do, inside a session.
#[derive(Debug, Clone, Copy, PartialEq, Eq, Structural)]
pub enum Phase {
    /// No session in progress.
    Idle,
    /// Waiting for the named mutex to be opened.
    AwaitOpenMutex,
    /// Waiting for the mutex to be acquired before initialization.
    AwaitInitLock,
    /// Holding the mutex; waiting for the "want frame" event to be created.
    AwaitCreateWant,
    /// Holding the mutex; waiting for the "sent frame" event to be opened.
    AwaitOpenSent,
    /// Holding the mutex; waiting for the shared-memory mapping to open.
    AwaitOpenMapping,
    /// Initialization complete; waiting for the mutex release before the
    /// session becomes ready.
    AwaitReadyRelease { mapping: MappingHandle },
    /// Initialization failed under the lock; waiting for the mutex release
    /// before the failure is reported.
    AwaitAbortRelease { failure: InitError },
    /// Waiting for the mutex to be acquired before a frame write.
    AwaitSendLock,
    /// Holding the mutex; waiting for the frame to be written.
    AwaitWrite,
    /// Frame written; waiting for the mutex release.
    AwaitSendRelease,
    /// Waiting for the "sent frame" event to be signaled.
    AwaitSignalSent,
}

/// The operations the machine asks the driver to perform.
#[derive(Debug, Clone, Copy, PartialEq, Eq, Structural)]
pub enum Action {
    /// Open the existing named mutex ([`mutex_name`]).
    OpenMutex,
    /// Block until the named mutex is acquired.
    LockMutex,
    /// Create the "want frame" event ([`want_event_name`]).
    CreateWantEvent,
    /// Open the existing "sent frame" event ([`sent_event_name`]).
    OpenSentEvent,
    /// Open the shared-memory mapping ([`shared_memory_name`]) of the
    /// protocol's fixed extent.
    OpenSharedMemory,
    /// Release the held mutex.
    ReleaseMutex,
    /// While holding the mutex: write the header and the payload into the
    /// shared region.
    WriteFrame,
    /// Signal the "sent frame" event.
    SignalSent,
}

/// The driver's report of one performed action.
#[derive(Debug, Clone, Copy)]
pub enum Reply {
    MutexOpened(Result<MutexHandle, OpenMutexError>),
    MutexLocked(WaitStatus),
    WantCreated(Result<EventHandle, CreateEventError>),
    SentOpened(Result<EventHandle, OpenEventError>),
    MappingOpened(Result<MappingHandle, OpenFileMappingError>),
    MutexReleased,
    FrameWritten,
    SentSignaled(Result<(), SetEventError>),
}

/// How a session ended.
#[derive(Debug, Clone, Copy, PartialEq, Eq, Structural)]
pub enum Outcome {
    /// The frame was written and the "sent frame" event signaled.
    Sent,
    /// The session failed, classified by the error taxonomy.
    Failed(Error),
}

/// The machine's answer to a reply: the next action, or the session's end.
#[derive(Debug, Clone, Copy, PartialEq, Eq, Structural)]
pub enum Step {
    Next(Action),
    Finished(Outcome),
}

/// The sender: its resource state and the phase of the session in
/// progress, if any.
#[derive(Debug, Clone, Copy)]
pub struct Sender {
    pub state: State,
    pub phase: Phase,
}

/// After the mutex is held during initialization: which resource is still
/// missing decides the next acquisition, skipping everything already
/// cached.
pub open spec fn spec_after_lock(u: Uninit) -> (Phase, Action) {
    if u.want_frame is None {
        (Phase::AwaitCreateWant, Action::CreateWantEvent)
    } else if u.sent_frame is None {
        (Phase::AwaitOpenSent, Action::OpenSentEvent)
    } else {
        (Phase::AwaitOpenMapping, Action::OpenSharedMemory)
    }
}

impl Sender {
    /// The phase is consistent with the resource state: initialization
    /// phases run on an `Uninit` state whose cached resources match what
    /// the phase assumes, send phases run on a `Ready` state.
    pub open spec fn wf(self) -> bool {
        match self.phase {
            Phase::Idle => true,
            Phase::AwaitOpenMutex => self.state matches State::Uninit(u) && u.mutex is None,
            Phase::AwaitInitLock => self.state matches State::Uninit(u) && u.mutex is Some,
            Phase::AwaitCreateWant => self.state matches State::Uninit(u) && u.mutex is Some
                && u.want_frame is None,
            Phase::AwaitOpenSent => self.state matches State::Uninit(u) && u.mutex is Some
                && u.sent_frame is None,
            Phase::AwaitOpenMapping => self.state matches State::Uninit(u) && u.mutex is Some
                && u.want_frame is Some && u.sent_frame is Some,
            Phase::AwaitReadyRelease { .. } => self.state matches State::Uninit(u) && u.mutex
                is Some && u.want_frame is Some && u.sent_frame is Some,
            Phase::AwaitAbortRelease { .. } => self.state matches State::Uninit(u) && u.mutex
                is Some,
            Phase::AwaitSendLock => self.state is Ready,
            Phase::AwaitWrite => self.state is Ready,
            Phase::AwaitSendRelease => self.state is Ready,
            Phase::AwaitSignalSent => self.state is Ready,
        }
    }

    /// The kind of reply the current phase is waiting for.
    pub open spec fn expects(self, r: Reply) -> bool {
        match self.phase {
            Phase::Idle => false,
            Phase::AwaitOpenMutex => r is MutexOpened,
            Phase::AwaitInitLock => r is MutexLocked,
            Phase::AwaitCreateWant => r is WantCreated,
            Phase::AwaitOpenSent => r is SentOpened,
            Phase::AwaitOpenMapping => r is MappingOpened,
            Phase::AwaitReadyRelease { .. } => r is MutexReleased,
            Phase::AwaitAbortRelease { .. } => r is MutexReleased,
            Phase::AwaitSendLock => r is MutexLocked,
            Phase::AwaitWrite => r is FrameWritten,
            Phase::AwaitSendRelease => r is MutexReleased,
            Phase::AwaitSignalSent => r is SentSignaled,
        }
    }

    /// Whether the machine is inside the mutex-guarded critical section:
    /// between a granted lock and the matching release.
    pub open spec fn holds_lock(self) -> bool {
        match self.phase {
            Phase::AwaitCreateWant => true,
            Phase::AwaitOpenSent => true,
            Phase::AwaitOpenMapping => true,
            Phase::AwaitReadyRelease { .. } => true,
            Phase::AwaitAbortRelease { .. } => true,
            Phase::AwaitWrite => true,
            Phase::AwaitSendRelease => true,
            _ => false,
        }
    }

    /// How a session starts: an `Uninit` sender first opens the mutex
    /// (unless it is already cached, in which case it goes straight to the
    /// lock); a `Ready` sender goes straight to the send lock and never
    /// re-initializes.
    pub open spec fn spec_begin(pre: Sender) -> (Sender, Action) {
        match pre.state {
            State::Uninit(u) => if u.mutex is None {
                (Sender { phase: Phase::AwaitOpenMutex, ..pre }, Action::OpenMutex)
            } else {
                (Sender { phase: Phase::AwaitInitLock, ..pre }, Action::LockMutex)
            },
            State::Ready(_) => (Sender { phase: Phase::AwaitSendLock, ..pre }, Action::LockMutex),
        }
    }

    /// The complete transition relation of the machine: from a sender and
    /// the driver's reply to the successor sender and the next step.
    pub open spec fn spec_step(pre: Sender, r: Reply) -> (Sender, Step)
        recommends
            pre.wf(),
            pre.expects(r),
    {
        let unchanged = (pre, Step::Next(Action::LockMutex));
        match (pre.phase, r) {
            (Phase::AwaitOpenMutex, Reply::MutexOpened(res)) => match (pre.state, res) {
                (State::Uninit(u), Ok(h)) => (
                    Sender {
                        state: State::Uninit(Uninit { mutex: Some(h), ..u }),
                        phase: Phase::AwaitInitLock,
                    },
                    Step::Next(Action::LockMutex),
                ),
                (State::Uninit(u), Err(e)) => (
                    Sender { phase: Phase::Idle, ..pre },
                    Step::Finished(
                        Outcome::Failed(
                            Error::Init { source: InitError::OpenMutex { source: e } },
                        ),
                    ),
                ),
                _ => unchanged,
            },
            (Phase::AwaitInitLock, Reply::MutexLocked(w)) => match (pre.state, w) {
                (State::Uninit(u), WaitStatus::Signaled) | (
                    State::Uninit(u),
                    WaitStatus::Abandoned,
                ) => {
                    let (ph, a) = spec_after_lock(u);
                    (Sender { phase: ph, ..pre }, Step::Next(a))
                },
                (State::Uninit(u), WaitStatus::Timeout) => (
                    Sender { phase: Phase::Idle, ..pre },
                    Step::Finished(
                        Outcome::Failed(
                            Error::Init {
                                source: InitError::LockMutex {
                                    source: crate::errors::LockMutexError::Timeout,
                                },
                            },
                        ),
                    ),
                ),
                (State::Uninit(u), WaitStatus::Failed { source }) => (
                    Sender { phase: Phase::Idle, ..pre },
                    Step::Finished(
                        Outcome::Failed(
                            Error::Init {
                                source: InitError::LockMutex {
                                    source: crate::errors::LockMutexError::Os { source },
                                },
                            },
                        ),
                    ),
                ),
                _ => unchanged,
            },
            (Phase::AwaitCreateWant, Reply::WantCreated(res)) => match (pre.state, res) {
                (State::Uninit(u), Ok(h)) => {
                    let u2 = Uninit { want_frame: Some(h), ..u };
                    let (ph, a) = spec_after_lock(u2);
                    (Sender { state: State::Uninit(u2), phase: ph }, Step::Next(a))
                },
                (State::Uninit(u), Err(e)) => (
                    Sender {
                        phase: Phase::AwaitAbortRelease {
                            failure: InitError::CreateWantEvent { source: e },
                        },
                        ..pre
                    },
                    Step::Next(Action::ReleaseMutex),
                ),
                _ => unchanged,
            },
            (Phase::AwaitOpenSent, Reply::SentOpened(res)) => match (pre.state, res) {
                (State::Uninit(u), Ok(h)) => {
                    let u2 = Uninit { sent_frame: Some(h), ..u };
                    let (ph, a) = spec_after_lock(u2);
                    (Sender { state: State::Uninit(u2), phase: ph }, Step::Next(a))
                },
                (State::Uninit(u), Err(e)) => (
                    Sender {
                        phase: Phase::AwaitAbortRelease {
                            failure: InitError::OpenSentEvent { source: e },
                        },
                        ..pre
                    },
                    Step::Next(Action::ReleaseMutex),
                ),
                _ => unchanged,
            },
            (Phase::AwaitOpenMapping, Reply::MappingOpened(res)) => match res {
                Ok(m) => (
                    Sender { phase: Phase::AwaitReadyRelease { mapping: m }, ..pre },
                    Step::Next(Action::ReleaseMutex),
                ),
                Err(e) => (
                    Sender {
                        phase: Phase::AwaitAbortRelease {
                            failure: InitError::OpenSharedMemory { source: e },
                        },
                        ..pre
                    },
                    Step::Next(Action::ReleaseMutex),
                ),
            },
            (Phase::AwaitReadyRelease { mapping }, Reply::MutexReleased) => match pre.state {
                State::Uninit(u) => (
                    Sender {
                        state: State::Ready(
                            Ready {
                                mutex: u.mutex->Some_0,
                                want_frame: u.want_frame->Some_0,
                                sent_frame: u.sent_frame->Some_0,
                                mapping,
                            },
                        ),
                        phase: Phase::AwaitSendLock,
                    },
                    Step::Next(Action::LockMutex),
                ),
                _ => unchanged,
            },
            (Phase::AwaitAbortRelease { failure }, Reply::MutexReleased) => (
                Sender { phase: Phase::Idle, ..pre },
                Step::Finished(Outcome::Failed(Error::Init { source: failure })),
            ),
            (Phase::AwaitSendLock, Reply::MutexLocked(w)) => match w {
                WaitStatus::Signaled | WaitStatus::Abandoned => (
                    Sender { phase: Phase::AwaitWrite, ..pre },
                    Step::Next(Action::WriteFrame),
                ),
                WaitStatus::Timeout => (
                    Sender { phase: Phase::Idle, ..pre },
                    Step::Finished(
                        Outcome::Failed(
                            Error::Send {
                                source: SendFrameError::LockMutex {
                                    source: crate::errors::LockMutexError::Timeout,
                                },
                            },
                        ),
                    ),
                ),
                WaitStatus::Failed { source } => (
                    Sender { phase: Phase::Idle, ..pre },
                    Step::Finished(
                        Outcome::Failed(
                            Error::Send {
                                source: SendFrameError::LockMutex {
                                    source: crate::errors::LockMutexError::Os { source },
                                },
                            },
                        ),
                    ),
                ),
            },
            (Phase::AwaitWrite, Reply::FrameWritten) => (
                Sender { phase: Phase::AwaitSendRelease, ..pre },
                Step::Next(Action::ReleaseMutex),
            ),
            (Phase::AwaitSendRelease, Reply::MutexReleased) => (
                Sender { phase: Phase::AwaitSignalSent, ..pre },
                Step::Next(Action::SignalSent),
            ),
            (Phase::AwaitSignalSent, Reply::SentSignaled(res)) => match res {
                Ok(_) => (
                    Sender { phase: Phase::Idle, ..pre },
                    Step::Finished(Outcome::Sent),
                ),
                Err(e) => (
                    Sender { phase: Phase::Idle, ..pre },
                    Step::Finished(
                        Outcome::Failed(
                            Error::Send { source: SendFrameError::SignalSent { source: e } },
                        ),
                    ),
                ),
            },
            _ => unchanged,
        }
    }

    /// A fresh sender: nothing acquired, no session in progress.
    pub fn new() -> (s: Sender)
        ensures
            s == (Sender {
                state: State::Uninit(
                    Uninit { mutex: None, want_frame: None, sent_frame: None },
                ),
                phase: Phase::Idle,
            }),
            s.wf(),
    {
        Sender {
            state: State::Uninit(Uninit { mutex: None, want_frame: None, sent_frame: None }),
            phase: Phase::Idle,
        }
    }

    /// Starts a send session and returns the first action the driver must
    /// perform.
    pub fn begin_send(&mut self) -> (a: Action)
        requires
            old(self).wf(),
            old(self).phase is Idle,
        ensures
            (*final(self), a) == Sender::spec_begin(*old(self)),
            final(self).wf(),
    {
        match self.state {
            State::Uninit(u) => {
                if u.mutex.is_none() {
                    self.phase = Phase::AwaitOpenMutex;
                    Action::OpenMutex
                } else {
                    self.phase = Phase::AwaitInitLock;
                    Action::LockMutex
                }
            },
            State::Ready(_) => {
                self.phase = Phase::AwaitSendLock;
                Action::LockMutex
            },
        }
    }

    /// Feeds the result of the last requested action back into the
    /// machine; behaves exactly as [`Sender::spec_step`] says.
    pub fn step(&mut self, r: Reply) -> (res: Step)
        requires
            old(self).wf(),
            old(self).expects(r),
        ensures
            (*final(self), res) == Sender::spec_step(*old(self), r),
            final(self).wf(),
    {
        let pre = *self;
        match (pre.phase, r) {
            (Phase::AwaitOpenMutex, Reply::MutexOpened(res)) => match (pre.state, res) {
                (State::Uninit(u), Ok(h)) => {
                    self.state = State::Uninit(Uninit { mutex: Some(h), ..u });
                    self.phase = Phase::AwaitInitLock;
                    Step::Next(Action::LockMutex)
                },
                (State::Uninit(_), Err(e)) => {
                    self.phase = Phase::Idle;
                    Step::Finished(
                        Outcome::Failed(Error::Init { source: InitError::OpenMutex { source: e } }),
                    )
                },
                _ => Step::Next(Action::LockMutex),
            },
            (Phase::AwaitInitLock, Reply::MutexLocked(w)) => match (pre.state, w) {
                (State::Uninit(u), WaitStatus::Signaled) | (
                    State::Uninit(u),
                    WaitStatus::Abandoned,
                ) => {
                    if u.want_frame.is_none() {
                        self.phase = Phase::AwaitCreateWant;
                        Step::Next(Action::CreateWantEvent)
                    } else if u.sent_frame.is_none() {
                        self.phase = Phase::AwaitOpenSent;
                        Step::Next(Action::OpenSentEvent)
                    } else {
                        self.phase = Phase::AwaitOpenMapping;
                        Step::Next(Action::OpenSharedMemory)
                    }
                },
                (State::Uninit(_), WaitStatus::Timeout) => {
                    self.phase = Phase::Idle;
                    Step::Finished(
                        Outcome::Failed(
                            Error::Init {
                                source: InitError::LockMutex {
                                    source: crate::errors::LockMutexError::Timeout,
                                },
                            },
                        ),
                    )
                },
                (State::Uninit(_), WaitStatus::Failed { source }) => {
                    self.phase = Phase::Idle;
                    Step::Finished(
                        Outcome::Failed(
                            Error::Init {
                                source: InitError::LockMutex {
                                    source: crate::errors::LockMutexError::Os { source },
                                },
                            },
                        ),
                    )
                },
                _ => Step::Next(Action::LockMutex),
            },
            (Phase::AwaitCreateWant, Reply::WantCreated(res)) => match (pre.state, res) {
                (State::Uninit(u), Ok(h)) => {
                    let u2 = Uninit { want_frame: Some(h), ..u };
                    self.state = State::Uninit(u2);
                    if u2.sent_frame.is_none() {
                        self.phase = Phase::AwaitOpenSent;
                        Step::Next(Action::OpenSentEvent)
                    } else {
                        self.phase = Phase::AwaitOpenMapping;
                        Step::Next(Action::OpenSharedMemory)
                    }
                },
                (State::Uninit(_), Err(e)) => {
                    self.phase = Phase::AwaitAbortRelease {
                        failure: InitError::CreateWantEvent { source: e },
                    };
                    Step::Next(Action::ReleaseMutex)
                },
                _ => Step::Next(Action::LockMutex),
            },
            (Phase::AwaitOpenSent, Reply::SentOpened(res)) => match (pre.state, res) {
                (State::Uninit(u), Ok(h)) => {
                    let u2 = Uninit { sent_frame: Some(h), ..u };
                    self.state = State::Uninit(u2);
                    if u2.want_frame.is_none() {
                        self.phase = Phase::AwaitCreateWant;
                        Step::Next(Action::CreateWantEvent)
                    } else {
                        self.phase = Phase::AwaitOpenMapping;
                        Step::Next(Action::OpenSharedMemory)
                    }
                },
                (State::Uninit(_), Err(e)) => {
                    self.phase = Phase::AwaitAbortRelease {
                        failure: InitError::OpenSentEvent { source: e },
                    };
                    Step::Next(Action::ReleaseMutex)
                },
                _ => Step::Next(Action::LockMutex),
            },
            (Phase::AwaitOpenMapping, Reply::MappingOpened(res)) => match res {
                Ok(m) => {
                    self.phase = Phase::AwaitReadyRelease { mapping: m };
                    Step::Next(Action::ReleaseMutex)
                },
                Err(e) => {
                    self.phase = Phase::AwaitAbortRelease {
                        failure: InitError::OpenSharedMemory { source: e },
                    };
                    Step::Next(Action::ReleaseMutex)
                },
            },
            (Phase::AwaitReadyRelease { mapping }, Reply::MutexReleased) => match pre.state {
                State::Uninit(u) => {
                    self.state = State::Ready(
                        Ready {
                            mutex: u.mutex.unwrap(),
                            want_frame: u.want_frame.unwrap(),
                            sent_frame: u.sent_frame.unwrap(),
                            mapping,
                        },
                    );
                    self.phase = Phase::AwaitSendLock;
                    Step::Next(Action::LockMutex)
                },
                _ => Step::Next(Action::LockMutex),
            },
            (Phase::AwaitAbortRelease { failure }, Reply::MutexReleased) => {
                self.phase = Phase::Idle;
                Step::Finished(Outcome::Failed(Error::Init { source: failure }))
            },
            (Phase::AwaitSendLock, Reply::MutexLocked(w)) => match w {
                WaitStatus::Signaled | WaitStatus::Abandoned => {
                    self.phase = Phase::AwaitWrite;
                    Step::Next(Action::WriteFrame)
                },
                WaitStatus::Timeout => {
                    self.phase = Phase::Idle;
                    Step::Finished(
                        Outcome::Failed(
                            Error::Send {
                                source: SendFrameError::LockMutex {
                                    source: crate::errors::LockMutexError::Timeout,
                                },
                            },
                        ),
                    )
                },
                WaitStatus::Failed { source } => {
                    self.phase = Phase::Idle;
                    Step::Finished(
                        Outcome::Failed(
                            Error::Send {
                                source: SendFrameError::LockMutex {
                                    source: crate::errors::LockMutexError::Os { source },
                                },
                            },
                        ),
                    )
                },
            },
            (Phase::AwaitWrite, Reply::FrameWritten) => {
                self.phase = Phase::AwaitSendRelease;
                Step::Next(Action::ReleaseMutex)
            },
            (Phase::AwaitSendRelease, Reply::MutexReleased) => {
                self.phase = Phase::AwaitSignalSent;
                Step::Next(Action::SignalSent)
            },
            (Phase::AwaitSignalSent, Reply::SentSignaled(res)) => match res {
                Ok(_) => {
                    self.phase = Phase::Idle;
                    Step::Finished(Outcome::Sent)
                },
                Err(e) => {
                    self.phase = Phase::Idle;
                    Step::Finished(
                        Outcome::Failed(
                            Error::Send { source: SendFrameError::SignalSent { source: e } },
                        ),
                    )
                },
            },
            _ => Step::Next(Action::LockMutex),
        }
    }
}

/// Lock discipline.  The mutex is handled strictly bracket-wise: a session
/// never finishes while the lock is held (so every exit path, error paths
/// included, releases it first); the lock is only given up by performing
/// the release action; and it is only taken by a granted lock wait (a
/// normal signal or an abandoned mutex).
pub proof fn lemma_lock_discipline(pre: Sender, r: Reply)
    requires
        pre.wf(),
        pre.expects(r),
    ensures
        pre.holds_lock() && !(r is MutexReleased) ==> Sender::spec_step(pre, r).1 is Next,
        Sender::spec_step(pre, r).1 is Finished ==> !Sender::spec_step(pre, r).0.holds_lock(),
        pre.holds_lock() && !Sender::spec_step(pre, r).0.holds_lock() ==> r is MutexReleased,
        !pre.holds_lock() && Sender::spec_step(pre, r).0.holds_lock() ==> (r
            == Reply::MutexLocked(WaitStatus::Signaled) || r == Reply::MutexLocked(
            WaitStatus::Abandoned,
        )),
{
}

/// Idempotent, at-most-once acquisition.  The machine only asks for a
/// resource it does not yet hold, and whatever a step does, a cached
/// sub-resource survives it unchanged — so across any number of failed
/// initialization attempts each sub-resource is acquired at most once.
pub proof fn lemma_init_idempotent(pre: Sender, r: Reply)
    requires
        pre.wf(),
        pre.expects(r),
    ensures
        Sender::spec_step(pre, r).1 == Step::Next(Action::CreateWantEvent) ==> (Sender::spec_step(
            pre,
            r,
        ).0.state matches State::Uninit(u) && u.want_frame is None),
        Sender::spec_step(pre, r).1 == Step::Next(Action::OpenSentEvent) ==> (Sender::spec_step(
            pre,
            r,
        ).0.state matches State::Uninit(u) && u.sent_frame is None),
        match (pre.state, Sender::spec_step(pre, r).0.state) {
            (State::Uninit(u), State::Uninit(u2)) => {
                &&& (u.mutex is Some ==> u2.mutex == u.mutex)
                &&& (u.want_frame is Some ==> u2.want_frame == u.want_frame)
                &&& (u.sent_frame is Some ==> u2.sent_frame == u.sent_frame)
            },
            _ => true,
        },
{
}

/// A session only asks to open the mutex when none is cached, and asks to
/// create or open an event only from phases where that event is absent —
/// beginning a session on a sender that already holds the mutex skips
/// straight to the lock.
pub proof fn lemma_begin_idempotent(pre: Sender)
    requires
        pre.wf(),
        pre.phase is Idle,
    ensures
        Sender::spec_begin(pre).1 == Action::OpenMutex ==> (pre.state matches State::Uninit(u)
            && u.mutex is None),
        Sender::spec_begin(pre).0.state == pre.state,
        pre.state matches State::Uninit(u) && u.mutex is Some ==> Sender::spec_begin(pre).1
            == Action::LockMutex && Sender::spec_begin(pre).0.phase is AwaitInitLock,
{
}

/// A `Ready` sender stays `Ready` with the same resources whatever
/// happens: a send-category failure neither releases anything nor causes
/// initialization to run again (the next session begins at the send lock).
pub proof fn lemma_ready_is_stable(pre: Sender, r: Reply)
    requires
        pre.wf(),
        pre.expects(r),
    ensures
        pre.state is Ready ==> Sender::spec_step(pre, r).0.state == pre.state,
        pre.state is Ready && pre.phase is Idle ==> Sender::spec_begin(pre).0.phase
            is AwaitSendLock,
{
}

/// A finished session always leaves the machine idle, ready for the next
/// call.
pub proof fn lemma_finished_is_idle(pre: Sender, r: Reply)
    requires
        pre.wf(),
        pre.expects(r),
    ensures
        Sender::spec_step(pre, r).1 is Finished ==> Sender::spec_step(pre, r).0.phase is Idle,
{
}

} // verus!

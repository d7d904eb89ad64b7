use unity_capture::errors::{
    CreateEventError, Error, InitError, OpenFileMappingError, OpenMutexError, OsError,
    SetEventError,
};
use unity_capture::sender::{
    Action, EventHandle, MappingHandle, MutexHandle, Outcome, Phase, Reply, Sender, State, Step,
};
use unity_capture::wait::WaitStatus;
use unity_capture::{Camera, SendUsageError};

/// A test double of the named mutex and its consumer-side objects: it
/// tracks whether the lock is held, refuses overlapping critical sections,
/// counts every acquisition of each resource, and can be told to fail any
/// step.
struct Double {
    locked: bool,
    open_mutex_calls: u32,
    create_want_calls: u32,
    open_sent_calls: u32,
    open_mapping_calls: u32,
    signal_calls: u32,
    fail_open_mutex: bool,
    fail_create_want: bool,
    fail_open_mapping: bool,
    fail_signal: bool,
}

impl Double {
    fn new() -> Double {
        Double {
            locked: false,
            open_mutex_calls: 0,
            create_want_calls: 0,
            open_sent_calls: 0,
            open_mapping_calls: 0,
            signal_calls: 0,
            fail_open_mutex: false,
            fail_create_want: false,
            fail_open_mapping: false,
            fail_signal: false,
        }
    }

    /// Performs one requested action against the double and reports the
    /// reply the driver would hand back.
    fn perform(&mut self, action: Action) -> Reply {
        match action {
            Action::OpenMutex => {
                self.open_mutex_calls += 1;
                if self.fail_open_mutex {
                    Reply::MutexOpened(Err(OpenMutexError::Os {
                        source: OsError { code: 2 },
                    }))
                } else {
                    Reply::MutexOpened(Ok(MutexHandle { raw: 1 }))
                }
            }
            Action::LockMutex => {
                assert!(!self.locked, "overlapping critical sections");
                self.locked = true;
                Reply::MutexLocked(WaitStatus::Signaled)
            }
            Action::CreateWantEvent => {
                assert!(self.locked, "event created outside the critical section");
                self.create_want_calls += 1;
                if self.fail_create_want {
                    Reply::WantCreated(Err(CreateEventError::Os {
                        source: OsError { code: 5 },
                    }))
                } else {
                    Reply::WantCreated(Ok(EventHandle { raw: 2 }))
                }
            }
            Action::OpenSentEvent => {
                assert!(self.locked, "event opened outside the critical section");
                self.open_sent_calls += 1;
                Reply::SentOpened(Ok(EventHandle { raw: 3 }))
            }
            Action::OpenSharedMemory => {
                assert!(self.locked, "mapping opened outside the critical section");
                self.open_mapping_calls += 1;
                if self.fail_open_mapping {
                    Reply::MappingOpened(Err(OpenFileMappingError::Open {
                        source: OsError { code: 2 },
                    }))
                } else {
                    Reply::MappingOpened(Ok(MappingHandle { raw: 4 }))
                }
            }
            Action::ReleaseMutex => {
                assert!(self.locked, "release without holding the lock");
                self.locked = false;
                Reply::MutexReleased
            }
            Action::WriteFrame => {
                assert!(self.locked, "frame write outside the critical section");
                Reply::FrameWritten
            }
            Action::SignalSent => {
                assert!(!self.locked, "signal while still holding the lock");
                self.signal_calls += 1;
                if self.fail_signal {
                    Reply::SentSignaled(Err(SetEventError {
                        source: OsError { code: 6 },
                    }))
                } else {
                    Reply::SentSignaled(Ok(()))
                }
            }
        }
    }
}

/// Drives one full session against the double and returns its outcome.
fn drive(sender: &mut Sender, double: &mut Double) -> Outcome {
    let mut action = sender.begin_send();
    let mut steps = 0;
    loop {
        steps += 1;
        assert!(steps < 32, "session did not finish");
        let reply = double.perform(action);
        match sender.step(reply) {
            Step::Next(a) => action = a,
            Step::Finished(outcome) => {
                assert!(!double.locked, "session finished with the lock held");
                assert!(matches!(sender.phase, Phase::Idle));
                return outcome;
            }
        }
    }
}

#[test]
fn fresh_sender_with_no_consumer_fails_init_and_stays_uninit() {
    let mut sender = Sender::new();
    let mut double = Double::new();
    double.fail_open_mutex = true;

    let outcome = drive(&mut sender, &mut double);
    assert!(matches!(
        outcome,
        Outcome::Failed(Error::Init {
            source: InitError::OpenMutex { .. }
        })
    ));
    assert!(Camera::finish_send(outcome).is_ok());
    match sender.state {
        State::Uninit(u) => {
            assert!(u.mutex.is_none());
            assert!(u.want_frame.is_none());
            assert!(u.sent_frame.is_none());
        }
        State::Ready(_) => panic!("sender must stay uninitialized"),
    }
}

#[test]
fn failed_init_reuses_cached_resources_and_acquires_each_at_most_once() {
    let mut sender = Sender::new();
    let mut double = Double::new();
    double.fail_create_want = true;

    // First attempt: the mutex opens, the "want" event fails under the
    // lock, the lock is released, the failure is reported retryable.
    let outcome = drive(&mut sender, &mut double);
    assert!(matches!(outcome, Outcome::Failed(Error::Init { .. })));
    assert!(Camera::finish_send(outcome).is_ok());
    match sender.state {
        State::Uninit(u) => {
            assert!(u.mutex.is_some());
            assert!(u.want_frame.is_none());
        }
        State::Ready(_) => panic!("sender must stay uninitialized"),
    }
    assert_eq!(double.open_mutex_calls, 1);
    assert_eq!(double.create_want_calls, 1);

    // Second attempt succeeds: the cached mutex is not reopened, the
    // remaining resources are acquired, the frame goes out.
    double.fail_create_want = false;
    let outcome = drive(&mut sender, &mut double);
    assert!(matches!(outcome, Outcome::Sent));
    assert!(matches!(sender.state, State::Ready(_)));
    assert_eq!(double.open_mutex_calls, 1, "mutex reopened despite cache");
    assert_eq!(double.create_want_calls, 2);
    assert_eq!(double.open_sent_calls, 1);
    assert_eq!(double.open_mapping_calls, 1);

    // Third attempt: everything is reused, nothing is acquired again.
    let outcome = drive(&mut sender, &mut double);
    assert!(matches!(outcome, Outcome::Sent));
    assert_eq!(double.open_mutex_calls, 1);
    assert_eq!(double.create_want_calls, 2);
    assert_eq!(double.open_sent_calls, 1);
    assert_eq!(double.open_mapping_calls, 1);
}

#[test]
fn ready_sender_signals_sent_exactly_once_per_frame() {
    let mut sender = Sender::new();
    let mut double = Double::new();

    let outcome = drive(&mut sender, &mut double);
    assert!(matches!(outcome, Outcome::Sent));
    assert_eq!(double.signal_calls, 1);
    assert!(matches!(sender.state, State::Ready(_)));
    assert!(matches!(sender.phase, Phase::Idle));

    let outcome = drive(&mut sender, &mut double);
    assert!(matches!(outcome, Outcome::Sent));
    assert_eq!(double.signal_calls, 2);
    assert!(matches!(sender.state, State::Ready(_)));
}

#[test]
fn send_failure_is_surfaced_and_does_not_retry_initialization() {
    let mut sender = Sender::new();
    let mut double = Double::new();

    // Establish the session.
    assert!(matches!(drive(&mut sender, &mut double), Outcome::Sent));

    // A failure while signaling an established send is not retryable.
    double.fail_signal = true;
    let outcome = drive(&mut sender, &mut double);
    assert!(matches!(outcome, Outcome::Failed(Error::Send { .. })));
    let surfaced = Camera::finish_send(outcome);
    assert!(matches!(surfaced, Err(Error::Send { .. })));

    // The sender stays ready; the next session begins at the send lock,
    // not at initialization.
    assert!(matches!(sender.state, State::Ready(_)));
    let next = sender.begin_send();
    assert!(matches!(next, Action::LockMutex));
    assert!(matches!(sender.phase, Phase::AwaitSendLock));
    assert_eq!(double.open_mutex_calls, 1);
}

#[test]
fn lock_is_released_before_a_failed_session_finishes() {
    let mut sender = Sender::new();
    let mut double = Double::new();
    double.fail_create_want = true;

    let mut action = sender.begin_send();
    let mut saw_release_after_failure = false;
    let mut failed_under_lock = false;
    let mut steps = 0;
    loop {
        steps += 1;
        assert!(steps < 32);
        let reply = double.perform(action);
        if matches!(reply, Reply::WantCreated(Err(_))) {
            failed_under_lock = double.locked;
        }
        match sender.step(reply) {
            Step::Next(a) => {
                if failed_under_lock && matches!(a, Action::ReleaseMutex) {
                    saw_release_after_failure = true;
                }
                action = a;
            }
            Step::Finished(outcome) => {
                assert!(matches!(outcome, Outcome::Failed(Error::Init { .. })));
                break;
            }
        }
    }
    assert!(failed_under_lock);
    assert!(saw_release_after_failure, "failure under the lock must release it");
    assert!(!double.locked, "lock still held after the session finished");
}

#[test]
fn lock_timeout_during_init_is_a_retryable_lock_error() {
    let mut sender = Sender::new();
    let a = sender.begin_send();
    assert!(matches!(a, Action::OpenMutex));
    let st = sender.step(Reply::MutexOpened(Ok(MutexHandle { raw: 1 })));
    assert!(matches!(st, Step::Next(Action::LockMutex)));
    let st = sender.step(Reply::MutexLocked(WaitStatus::Timeout));
    match st {
        Step::Finished(outcome) => {
            assert!(matches!(
                outcome,
                Outcome::Failed(Error::Init {
                    source: InitError::LockMutex { .. }
                })
            ));
            assert!(Camera::finish_send(outcome).is_ok());
        }
        Step::Next(_) => panic!("a lock timeout must finish the session"),
    }
    // The opened mutex stays cached for the next attempt.
    match sender.state {
        State::Uninit(u) => assert!(u.mutex.is_some()),
        State::Ready(_) => panic!("sender must stay uninitialized"),
    }
}

#[test]
fn abandoned_mutex_still_grants_the_lock() {
    let mut sender = Sender::new();
    let a = sender.begin_send();
    assert!(matches!(a, Action::OpenMutex));
    let st = sender.step(Reply::MutexOpened(Ok(MutexHandle { raw: 1 })));
    assert!(matches!(st, Step::Next(Action::LockMutex)));
    let st = sender.step(Reply::MutexLocked(WaitStatus::Abandoned));
    assert!(matches!(st, Step::Next(Action::CreateWantEvent)));
    assert!(matches!(sender.phase, Phase::AwaitCreateWant));
}

#[test]
fn camera_send_rejects_usage_errors_before_any_session() {
    let mut cam = Camera::new(640, 480);
    assert!(matches!(
        cam.begin_send(640 * 480),
        Err(SendUsageError::NotRunning)
    ));

    cam.start();
    assert!(matches!(
        cam.begin_send(640 * 480 - 1),
        Err(SendUsageError::WrongBufferSize)
    ));
    assert!(matches!(
        cam.begin_send(640 * 480 + 1),
        Err(SendUsageError::WrongBufferSize)
    ));
    assert!(matches!(cam.begin_send(640 * 480), Ok(Action::OpenMutex)));
}

#[test]
fn camera_resize_and_stop_manage_configuration_and_resources() {
    let mut cam = Camera::new(640, 480);
    cam.start();
    cam.resize(1920, 1080);
    assert_eq!(cam.config.width, 1920);
    assert_eq!(cam.config.height, 1080);
    assert!(cam.sender.is_some(), "resize must not touch open resources");
    assert!(matches!(
        cam.begin_send(640 * 480),
        Err(SendUsageError::WrongBufferSize)
    ));
    assert!(cam.begin_send(1920 * 1080).is_ok());
    cam.stop();
    assert!(cam.sender.is_none());
}

#[test]
fn mapping_failure_keeps_both_events_cached() {
    let mut sender = Sender::new();
    let mut double = Double::new();
    double.fail_open_mapping = true;

    let outcome = drive(&mut sender, &mut double);
    assert!(matches!(
        outcome,
        Outcome::Failed(Error::Init {
            source: InitError::OpenSharedMemory { .. }
        })
    ));
    match sender.state {
        State::Uninit(u) => {
            assert!(u.mutex.is_some());
            assert!(u.want_frame.is_some());
            assert!(u.sent_frame.is_some());
        }
        State::Ready(_) => panic!("sender must stay uninitialized"),
    }

    // The retry re-opens only the mapping: both events and the mutex are
    // reused from the cache.
    double.fail_open_mapping = false;
    let outcome = drive(&mut sender, &mut double);
    assert!(matches!(outcome, Outcome::Sent));
    assert_eq!(double.open_mutex_calls, 1);
    assert_eq!(double.create_want_calls, 1);
    assert_eq!(double.open_sent_calls, 1);
    assert_eq!(double.open_mapping_calls, 2);
}

#[test]
fn two_interleaved_senders_never_hold_the_lock_together() {
    // Two producers share one mutex double; the driver grants the lock
    // only when it is free, so the sessions interleave without their
    // critical sections ever overlapping.
    let mut a = Sender::new();
    let mut b = Sender::new();
    let mut lock_holder: Option<u8> = None;

    let mut act_a = Some(a.begin_send());
    let mut act_b = Some(b.begin_send());
    let mut done_a = false;
    let mut done_b = false;
    let mut rounds = 0;
    while !(done_a && done_b) {
        rounds += 1;
        assert!(rounds < 64, "interleaving did not finish");
        for who in [0u8, 1u8] {
            let (sender, act, done) = if who == 0 {
                (&mut a, &mut act_a, &mut done_a)
            } else {
                (&mut b, &mut act_b, &mut done_b)
            };
            if *done {
                continue;
            }
            let Some(action) = *act else { continue };
            let reply = match action {
                Action::OpenMutex => Reply::MutexOpened(Ok(MutexHandle { raw: 1 })),
                Action::LockMutex => {
                    if lock_holder.is_some() {
                        // The mutex is held by the other producer: this
                        // one stays blocked in its wait.
                        continue;
                    }
                    lock_holder = Some(who);
                    Reply::MutexLocked(WaitStatus::Signaled)
                }
                Action::CreateWantEvent => {
                    assert_eq!(lock_holder, Some(who), "critical sections overlap");
                    Reply::WantCreated(Ok(EventHandle { raw: 2 }))
                }
                Action::OpenSentEvent => {
                    assert_eq!(lock_holder, Some(who), "critical sections overlap");
                    Reply::SentOpened(Ok(EventHandle { raw: 3 }))
                }
                Action::OpenSharedMemory => {
                    assert_eq!(lock_holder, Some(who), "critical sections overlap");
                    Reply::MappingOpened(Ok(MappingHandle { raw: 4 }))
                }
                Action::WriteFrame => {
                    assert_eq!(lock_holder, Some(who), "critical sections overlap");
                    Reply::FrameWritten
                }
                Action::ReleaseMutex => {
                    assert_eq!(lock_holder, Some(who), "release by a non-holder");
                    lock_holder = None;
                    Reply::MutexReleased
                }
                Action::SignalSent => {
                    assert_ne!(lock_holder, Some(who), "signal while holding the lock");
                    Reply::SentSignaled(Ok(()))
                }
            };
            match sender.step(reply) {
                Step::Next(next) => *act = Some(next),
                Step::Finished(outcome) => {
                    assert!(matches!(outcome, Outcome::Sent));
                    assert_ne!(lock_holder, Some(who), "finished while holding the lock");
                    *done = true;
                }
            }
        }
    }
    assert!(lock_holder.is_none());
    assert!(matches!(a.state, State::Ready(_)));
    assert!(matches!(b.state, State::Ready(_)));
}

#[test]
fn retry_classification_follows_the_error_category() {
    let init = Error::Init {
        source: InitError::OpenMutex {
            source: OpenMutexError::Os {
                source: OsError { code: 2 },
            },
        },
    };
    assert!(init.should_retry());

    let send = Error::Send {
        source: unity_capture::errors::SendFrameError::SignalSent {
            source: SetEventError {
                source: OsError { code: 6 },
            },
        },
    };
    assert!(!send.should_retry());

    assert!(Camera::finish_send(Outcome::Sent).is_ok());
    assert!(Camera::finish_send(Outcome::Failed(init)).is_ok());
    assert!(matches!(
        Camera::finish_send(Outcome::Failed(send)),
        Err(Error::Send { .. })
    ));
}

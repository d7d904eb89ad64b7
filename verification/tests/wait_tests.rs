use unity_capture::errors::{LockMutexError, WaitEventError};
use unity_capture::wait::{
    classify_wait, lock_wait_outcome, wait_event_outcome, WaitStatus, WAIT_CODE_ABANDONED,
    WAIT_CODE_FAILED, WAIT_CODE_OBJECT_0, WAIT_CODE_TIMEOUT,
};

#[test]
fn wait_codes_classify_as_documented() {
    assert!(matches!(
        classify_wait(WAIT_CODE_OBJECT_0, 0),
        WaitStatus::Signaled
    ));
    assert!(matches!(
        classify_wait(WAIT_CODE_ABANDONED, 0),
        WaitStatus::Abandoned
    ));
    assert!(matches!(
        classify_wait(WAIT_CODE_TIMEOUT, 0),
        WaitStatus::Timeout
    ));
    match classify_wait(WAIT_CODE_FAILED, 87) {
        WaitStatus::Failed { source } => assert_eq!(source.code, 87),
        _ => panic!("a failed wait must classify as failed"),
    }
}

#[test]
fn mutex_acquisition_accepts_signal_and_abandonment() {
    assert!(lock_wait_outcome(WaitStatus::Signaled).is_ok());
    assert!(lock_wait_outcome(WaitStatus::Abandoned).is_ok());
    assert!(matches!(
        lock_wait_outcome(WaitStatus::Timeout),
        Err(LockMutexError::Timeout)
    ));
    match lock_wait_outcome(classify_wait(WAIT_CODE_FAILED, 5)) {
        Err(LockMutexError::Os { source }) => assert_eq!(source.code, 5),
        _ => panic!("a failed wait must be a lock error"),
    }
}

#[test]
fn event_wait_succeeds_only_on_a_normal_signal() {
    assert!(wait_event_outcome(WaitStatus::Signaled).is_ok());
    assert!(matches!(
        wait_event_outcome(WaitStatus::Timeout),
        Err(WaitEventError::Timeout)
    ));
    match wait_event_outcome(classify_wait(WAIT_CODE_FAILED, 6)) {
        Err(WaitEventError::Os { source }) => assert_eq!(source.code, 6),
        _ => panic!("a failed wait must be a wait error"),
    }
}

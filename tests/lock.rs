use wasm_streams::lock::{LockError, LockState, StreamLock};

#[test]
fn new_lock_is_unlocked() {
    let lock = StreamLock::new();
    assert!(!lock.is_locked());
    assert_eq!(lock.state(), LockState::Unlocked);
    assert!(!lock.has_pending());
}

#[test]
fn second_reader_is_refused() {
    let mut lock = StreamLock::new();
    assert_eq!(lock.acquire_reader(), Ok(()));
    assert_eq!(lock.state(), LockState::LockedReader);
    assert_eq!(lock.acquire_reader(), Err(LockError::AlreadyLocked));
    assert_eq!(lock.acquire_writer(), Err(LockError::AlreadyLocked));
    assert_eq!(lock.state(), LockState::LockedReader);
}

#[test]
fn second_writer_is_refused() {
    let mut lock = StreamLock::new();
    assert_eq!(lock.acquire_writer(), Ok(()));
    assert_eq!(lock.state(), LockState::LockedWriter);
    assert_eq!(lock.acquire_writer(), Err(LockError::AlreadyLocked));
    assert_eq!(lock.acquire_reader(), Err(LockError::AlreadyLocked));
}

#[test]
fn acquire_after_release_succeeds() {
    let mut lock = StreamLock::new();
    lock.acquire_reader().unwrap();
    assert_eq!(lock.release(), Ok(()));
    assert!(!lock.is_locked());
    assert_eq!(lock.acquire_writer(), Ok(()));
    assert_eq!(lock.state(), LockState::LockedWriter);
}

#[test]
fn multiple_release_lock() {
    let mut lock = StreamLock::new();
    lock.acquire_reader().unwrap();
    assert_eq!(lock.release(), Ok(()));
    assert_eq!(lock.release(), Ok(()));
    assert_eq!(lock.release(), Ok(()));
    assert!(!lock.is_locked());
}

#[test]
fn release_while_pending_is_refused() {
    let mut lock = StreamLock::new();
    lock.acquire_reader().unwrap();
    assert_eq!(lock.begin_operation(), Ok(()));
    assert_eq!(lock.release(), Err(LockError::OperationPending));
    assert!(lock.is_locked());
    lock.finish_operation();
    assert_eq!(lock.release(), Ok(()));
    assert!(!lock.is_locked());
}

#[test]
fn second_operation_is_refused_while_pending() {
    let mut lock = StreamLock::new();
    lock.acquire_writer().unwrap();
    assert_eq!(lock.begin_operation(), Ok(()));
    assert_eq!(lock.begin_operation(), Err(LockError::OperationPending));
    assert!(lock.has_pending());
    lock.finish_operation();
    assert!(!lock.has_pending());
    assert_eq!(lock.begin_operation(), Ok(()));
}

#[test]
fn drop_releases_lock_without_pending_operation() {
    let mut lock = StreamLock::new();
    lock.acquire_reader().unwrap();
    lock.begin_operation().unwrap();
    lock.finish_operation();
    assert_eq!(lock.release(), Ok(()));
    assert_eq!(lock.state(), LockState::Unlocked);
}

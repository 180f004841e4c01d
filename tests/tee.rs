use wasm_streams::lock::{LockError, LockState, StreamLock};
use wasm_streams::tee::{Branch, Tee};

#[test]
fn tee_locks_source() {
    let mut src = StreamLock::new();
    let t: Result<Tee<&str>, LockError> = Tee::start(&mut src);
    assert!(t.is_ok());
    assert_eq!(src.state(), LockState::LockedReader);
}

#[test]
fn tee_of_locked_stream_fails() {
    let mut src = StreamLock::new();
    src.acquire_reader().unwrap();
    let t: Result<Tee<&str>, LockError> = Tee::start(&mut src);
    assert_eq!(t.err(), Some(LockError::AlreadyLocked));
}

#[test]
fn both_branches_read_the_same_chunk() {
    let mut src = StreamLock::new();
    let t: Tee<&str> = Tee::start(&mut src).unwrap();
    assert_eq!(t.distribute("x"), (Some("x"), Some("x")));
}

#[test]
fn cancelled_branch_gets_no_chunk() {
    let mut src = StreamLock::new();
    let mut t: Tee<&str> = Tee::start(&mut src).unwrap();
    assert_eq!(t.cancel(Branch::Second, "bye"), None);
    assert_eq!(t.distribute("x"), (Some("x"), None));
}

#[test]
fn source_cancelled_only_when_both_branches_cancel() {
    let mut src = StreamLock::new();
    let mut t: Tee<&str> = Tee::start(&mut src).unwrap();
    assert_eq!(t.cancel(Branch::First, "left"), None);
    assert!(t.is_canceled(Branch::First));
    assert!(!t.is_canceled(Branch::Second));
    assert_eq!(t.cancel(Branch::First, "left again"), None);
    assert_eq!(t.cancel(Branch::Second, "right"), Some(("left", "right")));
    assert_eq!(t.cancel(Branch::Second, "right again"), None);
    assert_eq!(t.cancel(Branch::First, "left once more"), None);
}

#[test]
fn composite_reason_is_in_branch_order() {
    let mut src = StreamLock::new();
    let mut t: Tee<u8> = Tee::start(&mut src).unwrap();
    assert_eq!(t.cancel(Branch::Second, 2), None);
    assert_eq!(t.cancel(Branch::First, 1), Some((1, 2)));
}

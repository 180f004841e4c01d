//! The lock manager: a stream handle is free, locked to a reader, or locked
//! to a writer, and the holder of the lock has at most one operation in
//! flight.
use vstd::prelude::*;

verus! {

/// Who holds the lock on a stream handle.
#[derive(Clone, Copy, Debug, PartialEq, Eq, Structural)]
pub enum LockState {
    Unlocked,
    LockedReader,
    LockedWriter,
}

/// Why a lock could not be acquired or released.
#[derive(Clone, Copy, Debug, PartialEq, Eq, Structural)]
pub enum LockError {
    /// The handle is already locked to a reader or a writer.
    AlreadyLocked,
    /// The holder of the lock still has a read or write in flight.
    OperationPending,
}

/// The abstract state of a [`StreamLock`].
#[derive(Clone, Copy, Debug, PartialEq, Eq, Structural)]
pub struct LockView {
    pub state: LockState,
    pub pending: bool,
}

impl LockView {
    pub open spec fn locked(self) -> bool {
        self.state != LockState::Unlocked
    }

    /// An operation can only be in flight under a lock.
    pub open spec fn wf(self) -> bool {
        self.pending ==> self.locked()
    }
}

/// Acquiring the lock for `kind` (a reader or a writer).
pub open spec fn acquire_spec(s: LockView, kind: LockState) -> (LockView, Result<(), LockError>) {
    if s.locked() {
        (s, Err(LockError::AlreadyLocked))
    } else {
        (LockView { state: kind, pending: false }, Ok(()))
    }
}

/// Releasing the lock: a no-op when free, refused while an operation is in
/// flight.
pub open spec fn release_spec(s: LockView) -> (LockView, Result<(), LockError>) {
    if !s.locked() {
        (s, Ok(()))
    } else if s.pending {
        (s, Err(LockError::OperationPending))
    } else {
        (LockView { state: LockState::Unlocked, pending: false }, Ok(()))
    }
}

/// Issuing a read or write under the lock.
pub open spec fn begin_spec(s: LockView) -> (LockView, Result<(), LockError>) {
    if s.pending {
        (s, Err(LockError::OperationPending))
    } else {
        (LockView { pending: true, ..s }, Ok(()))
    }
}

/// The in-flight operation resolved (or was cancelled by the host).
pub open spec fn finish_spec(s: LockView) -> LockView {
    LockView { pending: false, ..s }
}

/// The lock of one stream handle, with the pending-operation flag of its
/// holder.
#[derive(Debug)]
pub struct StreamLock {
    state: LockState,
    pending: bool,
}

impl View for StreamLock {
    type V = LockView;

    closed spec fn view(&self) -> LockView {
        LockView { state: self.state, pending: self.pending }
    }
}

impl StreamLock {
    /// A free handle.
    pub fn new() -> (r: StreamLock)
        ensures
            r@ == (LockView { state: LockState::Unlocked, pending: false }),
    {
        StreamLock { state: LockState::Unlocked, pending: false }
    }

    pub fn state(&self) -> (r: LockState)
        ensures
            r == self@.state,
    {
        self.state
    }

    pub fn is_locked(&self) -> (r: bool)
        ensures
            r == self@.locked(),
    {
        match self.state {
            LockState::Unlocked => false,
            _ => true,
        }
    }

    pub fn has_pending(&self) -> (r: bool)
        ensures
            r == self@.pending,
    {
        self.pending
    }

    fn acquire(&mut self, kind: LockState) -> (r: Result<(), LockError>)
        requires
            kind != LockState::Unlocked,
            old(self)@.wf(),
        ensures
            (final(self)@, r) == acquire_spec(old(self)@, kind),
            final(self)@.wf(),
    {
        if self.is_locked() {
            Err(LockError::AlreadyLocked)
        } else {
            self.state = kind;
            self.pending = false;
            Ok(())
        }
    }

    /// Locks the handle to a reader; fails if it is locked already.
    pub fn acquire_reader(&mut self) -> (r: Result<(), LockError>)
        requires
            old(self)@.wf(),
        ensures
            (final(self)@, r) == acquire_spec(old(self)@, LockState::LockedReader),
            final(self)@.wf(),
    {
        self.acquire(LockState::LockedReader)
    }

    /// Locks the handle to a writer; fails if it is locked already.
    pub fn acquire_writer(&mut self) -> (r: Result<(), LockError>)
        requires
            old(self)@.wf(),
        ensures
            (final(self)@, r) == acquire_spec(old(self)@, LockState::LockedWriter),
            final(self)@.wf(),
    {
        self.acquire(LockState::LockedWriter)
    }

    /// Releases the lock. Releasing a free handle does nothing; releasing
    /// while an operation is in flight is refused and leaves the lock held.
    pub fn release(&mut self) -> (r: Result<(), LockError>)
        requires
            old(self)@.wf(),
        ensures
            (final(self)@, r) == release_spec(old(self)@),
            final(self)@.wf(),
    {
        if !self.is_locked() {
            Ok(())
        } else if self.pending {
            Err(LockError::OperationPending)
        } else {
            self.state = LockState::Unlocked;
            Ok(())
        }
    }

    /// Records that the holder issues a read or write; refused while another
    /// one is in flight.
    pub fn begin_operation(&mut self) -> (r: Result<(), LockError>)
        requires
            old(self)@.wf(),
            old(self)@.locked(),
        ensures
            (final(self)@, r) == begin_spec(old(self)@),
            final(self)@.wf(),
    {
        if self.pending {
            Err(LockError::OperationPending)
        } else {
            self.pending = true;
            Ok(())
        }
    }

    /// Records that the in-flight operation has resolved.
    pub fn finish_operation(&mut self)
        requires
            old(self)@.wf(),
        ensures
            final(self)@ == finish_spec(old(self)@),
            final(self)@.wf(),
    {
        self.pending = false;
    }
}

/// A locked handle refuses a second reader or writer and stays as it was;
/// once the lock is released (with nothing in flight) either kind of lock
/// can be acquired again.
pub proof fn lemma_lock_exclusive(s: LockView, kind: LockState)
    requires
        s.wf(),
        kind != LockState::Unlocked,
    ensures
        s.locked() ==> acquire_spec(s, kind) == (s, Err::<(), LockError>(LockError::AlreadyLocked)),
        !s.pending ==> release_spec(s).1 is Ok && acquire_spec(release_spec(s).0, kind).1 is Ok,
        !s.pending ==> acquire_spec(release_spec(s).0, kind).0.state == kind,
{
}

/// Dropping a reader or writer with nothing in flight leaves its handle
/// unlocked.
pub proof fn lemma_release_unlocks(s: LockView)
    requires
        s.wf(),
        !s.pending,
    ensures
        !release_spec(s).0.locked(),
        release_spec(s).1 is Ok,
{
}

/// Releasing is idempotent: a second release changes nothing and succeeds.
pub proof fn lemma_release_idempotent(s: LockView)
    requires
        s.wf(),
        !s.pending,
    ensures
        release_spec(release_spec(s).0) == (release_spec(s).0, Ok::<(), LockError>(())),
{
}

/// A second read or write is never issued while one is in flight: it is
/// refused and the lock is left as it was. Once the first one resolves, a
/// new one may be issued.
pub proof fn lemma_one_operation_at_a_time(s: LockView)
    requires
        s.wf(),
        s.locked(),
    ensures
        begin_spec(s).1 is Ok ==> !s.pending && begin_spec(s).0.pending,
        begin_spec(begin_spec(s).0) == (begin_spec(s).0, Err::<(), LockError>(LockError::OperationPending)),
        begin_spec(finish_spec(begin_spec(s).0)).1 is Ok,
{
}

/// The in-flight operation keeps the lock held: releasing is refused until
/// it resolves.
pub proof fn lemma_no_release_while_pending(s: LockView)
    requires
        s.wf(),
        s.pending,
    ensures
        release_spec(s) == (s, Err::<(), LockError>(LockError::OperationPending)),
        !release_spec(finish_spec(s)).0.locked(),
{
}

} // verus!

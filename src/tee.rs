//! Teeing a readable stream into two branches that share its producer.
use vstd::prelude::*;
use crate::lock::{acquire_spec, LockError, LockState, StreamLock};

verus! {

/// One of the two branches of a tee.
#[derive(Clone, Copy, Debug, PartialEq, Eq, Structural)]
pub enum Branch {
    First,
    Second,
}

/// The abstract state of a [`Tee`]: which branches are cancelled, and
/// whether the source has been cancelled.
#[derive(Clone, Copy, Debug, PartialEq, Eq, Structural)]
pub struct TeeView {
    pub first_canceled: bool,
    pub second_canceled: bool,
    pub source_canceled: bool,
}

impl TeeView {
    pub open spec fn canceled(self, b: Branch) -> bool {
        match b {
            Branch::First => self.first_canceled,
            Branch::Second => self.second_canceled,
        }
    }

    /// The source is cancelled exactly when both branches are.
    pub open spec fn wf(self) -> bool {
        self.source_canceled == (self.first_canceled && self.second_canceled)
    }
}

/// Cancelling branch `b`: the source is cancelled when the second of the two
/// branches is; cancelling a branch twice changes nothing.
pub open spec fn cancel_spec(s: TeeView, b: Branch) -> TeeView {
    match b {
        Branch::First => TeeView {
            first_canceled: true,
            source_canceled: s.second_canceled,
            ..s
        },
        Branch::Second => TeeView {
            second_canceled: true,
            source_canceled: s.first_canceled,
            ..s
        },
    }
}

/// The coordinator of a teed stream: it shares each chunk of the source
/// between the branches still open, and collects the branches' cancellation
/// reasons `R` into one composite reason for the source.
#[derive(Debug)]
pub struct Tee<R> {
    first: Option<R>,
    second: Option<R>,
    first_canceled: bool,
    second_canceled: bool,
}

impl<R> View for Tee<R> {
    type V = TeeView;

    closed spec fn view(&self) -> TeeView {
        TeeView {
            first_canceled: self.first_canceled,
            second_canceled: self.second_canceled,
            source_canceled: self.first_canceled && self.second_canceled,
        }
    }
}

impl<R> Tee<R> {
    /// The reason the branch was cancelled with, held until the other one is
    /// cancelled too.
    pub closed spec fn reason_spec(&self, b: Branch) -> Option<R> {
        match b {
            Branch::First => self.first,
            Branch::Second => self.second,
        }
    }

    pub closed spec fn wf(&self) -> bool {
        &&& self.first is Some <==> self.first_canceled && !self.second_canceled
        &&& self.second is Some <==> self.second_canceled && !self.first_canceled
    }

    /// Tees the stream whose lock is `source`: locks it to the tee. Fails,
    /// changing nothing, if it is locked already.
    pub fn start(source: &mut StreamLock) -> (r: Result<Tee<R>, LockError>)
        requires
            old(source)@.wf(),
        ensures
            final(source)@.wf(),
            final(source)@ == acquire_spec(old(source)@, LockState::LockedReader).0,
            r is Err <==> old(source)@.locked(),
            r matches Err(e) ==> e == LockError::AlreadyLocked,
            r matches Ok(t) ==> t.wf() && t@ == (TeeView {
                first_canceled: false,
                second_canceled: false,
                source_canceled: false,
            }) && t.reason_spec(Branch::First) is None && t.reason_spec(Branch::Second) is None,
    {
        match source.acquire_reader() {
            Ok(()) => Ok(Tee { first: None, second: None, first_canceled: false, second_canceled: false }),
            Err(e) => Err(e),
        }
    }

    pub fn is_canceled(&self, b: Branch) -> (r: bool)
        ensures
            r == self@.canceled(b),
    {
        match b {
            Branch::First => self.first_canceled,
            Branch::Second => self.second_canceled,
        }
    }

    /// A chunk of the source, handed to each branch that is still open; both
    /// branches see the same value.
    pub fn distribute<V: Copy>(&self, chunk: V) -> (r: (Option<V>, Option<V>))
        ensures
            r.0 == (if self@.first_canceled { None } else { Some(chunk) }),
            r.1 == (if self@.second_canceled { None } else { Some(chunk) }),
    {
        let a = if self.first_canceled { None } else { Some(chunk) };
        let b = if self.second_canceled { None } else { Some(chunk) };
        (a, b)
    }

    /// Cancels branch `b` with `reason`. When this cancels the second of the
    /// two branches, returns the composite reason (first branch's, second
    /// branch's) to cancel the source with; otherwise returns `None`. A
    /// branch cancelled already ignores the call.
    pub fn cancel(&mut self, b: Branch, reason: R) -> (r: Option<(R, R)>)
        requires
            old(self).wf(),
        ensures
            final(self).wf(),
            final(self)@ == cancel_spec(old(self)@, b),
            r is Some <==> !old(self)@.canceled(b) && final(self)@.source_canceled,
            r matches Some(c) ==> match b {
                Branch::First => c == (reason, old(self).reason_spec(Branch::Second)->0),
                Branch::Second => c == (old(self).reason_spec(Branch::First)->0, reason),
            },
            r is None && !old(self)@.canceled(b) ==> final(self).reason_spec(b) == Some(reason),
            r is None ==> final(self).reason_spec(other(b)) == old(self).reason_spec(other(b)),
            old(self)@.canceled(b) ==> final(self).reason_spec(b) == old(self).reason_spec(b),
    {
        match b {
            Branch::First => {
                if self.first_canceled {
                    return None;
                }
                self.first_canceled = true;
                if self.second_canceled {
                    let other = self.second.take();
                    Some((reason, other.unwrap()))
                } else {
                    self.first = Some(reason);
                    None
                }
            },
            Branch::Second => {
                if self.second_canceled {
                    return None;
                }
                self.second_canceled = true;
                if self.first_canceled {
                    let other = self.first.take();
                    Some((other.unwrap(), reason))
                } else {
                    self.second = Some(reason);
                    None
                }
            },
        }
    }
}

/// The other branch.
pub open spec fn other(b: Branch) -> Branch {
    match b {
        Branch::First => Branch::Second,
        Branch::Second => Branch::First,
    }
}

/// Cancelling one branch leaves the source alone; cancelling the other one
/// then cancels the source, and any further cancellation does nothing more:
/// the source is cancelled exactly once.
pub proof fn lemma_tee_cancel(s: TeeView, b: Branch)
    requires
        s.wf(),
        !s.first_canceled,
        !s.second_canceled,
    ensures
        !cancel_spec(s, b).source_canceled,
        cancel_spec(cancel_spec(s, b), other(b)).source_canceled,
        cancel_spec(cancel_spec(s, b), b) == cancel_spec(s, b),
        ({
            let both = cancel_spec(cancel_spec(s, b), other(b));
            &&& cancel_spec(both, Branch::First) == both
            &&& cancel_spec(both, Branch::Second) == both
        }),
{
}

} // verus!

//! Piping a readable stream into a writable stream: how closure, errors and
//! cancellation travel between the two.
use vstd::prelude::*;
use crate::lock::{acquire_spec, LockError, LockState, LockView, StreamLock};

verus! {

/// The options of a pipe. Each one switches off one propagation rule.
#[derive(Clone, Copy, Debug, PartialEq, Eq, Structural)]
pub struct PipeOptions {
    /// Do not close the destination when the source closes.
    pub prevent_close: bool,
    /// Do not cancel the source when the destination errors or is closed.
    pub prevent_cancel: bool,
    /// Do not abort the destination when the source errors.
    pub prevent_abort: bool,
}

impl PipeOptions {
    /// Every rule in force.
    pub fn new() -> (r: PipeOptions)
        ensures
            !r.prevent_close && !r.prevent_cancel && !r.prevent_abort,
    {
        PipeOptions { prevent_close: false, prevent_cancel: false, prevent_abort: false }
    }
}

/// Something that happened to one end of a running pipe.
#[derive(Debug)]
pub enum PipeEvent<E> {
    /// The source errored.
    SourceErrored(E),
    /// The destination errored (for instance, it rejected a write).
    DestErrored(E),
    /// The source closed normally.
    SourceClosed,
    /// The destination was found closed or closing; `E` is the error the pipe
    /// reports for it.
    DestClosed(E),
}

/// What the pipe does to the other end in answer to an event.
#[derive(Clone, Copy, Debug, PartialEq, Eq, Structural)]
pub enum PipeAction {
    /// Abort the destination with the source's error.
    AbortDest,
    /// Cancel the source with the destination's error.
    CancelSource,
    /// Close the destination.
    CloseDest,
    /// Leave the other end as it is.
    Nothing,
}

/// The progress of a pipe.
#[derive(Debug)]
pub enum PipeState<E> {
    Running,
    /// The action of the first event is in flight; the pipe will finish with
    /// the result held here unless the action itself fails.
    ShuttingDown(Result<(), E>),
    /// The pipe is over, with this result.
    Done(Result<(), E>),
}

/// The first event decides the pipe's result and the action on the other
/// end; later events change nothing.
pub open spec fn pipe_event_spec<E>(o: PipeOptions, s: PipeState<E>, ev: PipeEvent<E>) -> (PipeState<E>, PipeAction) {
    if !(s is Running) {
        (s, PipeAction::Nothing)
    } else {
        let (res, action) = match ev {
            PipeEvent::SourceErrored(e) => (Err(e), if o.prevent_abort { PipeAction::Nothing } else { PipeAction::AbortDest }),
            PipeEvent::DestErrored(e) => (Err(e), if o.prevent_cancel { PipeAction::Nothing } else { PipeAction::CancelSource }),
            PipeEvent::SourceClosed => (Ok(()), if o.prevent_close { PipeAction::Nothing } else { PipeAction::CloseDest }),
            PipeEvent::DestClosed(e) => (Err(e), if o.prevent_cancel { PipeAction::Nothing } else { PipeAction::CancelSource }),
        };
        if action == PipeAction::Nothing {
            (PipeState::Done(res), action)
        } else {
            (PipeState::ShuttingDown(res), action)
        }
    }
}

/// The action in flight resolved with `res`: a failure of the action
/// replaces the pipe's result.
pub open spec fn action_done_spec<E>(s: PipeState<E>, res: Result<(), E>) -> PipeState<E> {
    match s {
        PipeState::ShuttingDown(first) => PipeState::Done(
            match res {
                Ok(()) => first,
                Err(e) => Err(e),
            },
        ),
        _ => s,
    }
}

/// A running pipe between a locked source and a locked destination.
#[derive(Debug)]
pub struct Pipe<E> {
    options: PipeOptions,
    state: PipeState<E>,
}

impl<E> Pipe<E> {
    pub closed spec fn options_spec(&self) -> PipeOptions {
        self.options
    }

    pub closed spec fn state_spec(&self) -> PipeState<E> {
        self.state
    }

    /// Starts a pipe: locks the source to a reader and the destination to a
    /// writer for its duration. Fails, locking nothing, if either is locked.
    pub fn start(source: &mut StreamLock, dest: &mut StreamLock, options: PipeOptions) -> (r: Result<Pipe<E>, LockError>)
        requires
            old(source)@.wf(),
            old(dest)@.wf(),
        ensures
            final(source)@.wf(),
            final(dest)@.wf(),
            r is Err <==> old(source)@.locked() || old(dest)@.locked(),
            r matches Err(e) ==> e == LockError::AlreadyLocked && final(source)@ == old(source)@ && final(dest)@ == old(dest)@,
            r matches Ok(p) ==> {
                &&& p.options_spec() == options
                &&& p.state_spec() is Running
                &&& final(source)@ == acquire_spec(old(source)@, LockState::LockedReader).0
                &&& final(dest)@ == acquire_spec(old(dest)@, LockState::LockedWriter).0
            },
    {
        if source.is_locked() || dest.is_locked() {
            return Err(LockError::AlreadyLocked);
        }
        let _ = source.acquire_reader();
        let _ = dest.acquire_writer();
        Ok(Pipe { options, state: PipeState::Running })
    }

    pub fn is_running(&self) -> (r: bool)
        ensures
            r == (self.state_spec() is Running),
    {
        match self.state {
            PipeState::Running => true,
            _ => false,
        }
    }

    /// Reports an event at one end; returns what to do to the other end.
    pub fn on_event(&mut self, ev: PipeEvent<E>) -> (r: PipeAction)
        ensures
            (final(self).state_spec(), r) == pipe_event_spec(old(self).options_spec(), old(self).state_spec(), ev),
            final(self).options_spec() == old(self).options_spec(),
    {
        if !self.is_running() {
            return PipeAction::Nothing;
        }
        let o = self.options;
        let (res, action) = match ev {
            PipeEvent::SourceErrored(e) => (Err(e), if o.prevent_abort { PipeAction::Nothing } else { PipeAction::AbortDest }),
            PipeEvent::DestErrored(e) => (Err(e), if o.prevent_cancel { PipeAction::Nothing } else { PipeAction::CancelSource }),
            PipeEvent::SourceClosed => (Ok(()), if o.prevent_close { PipeAction::Nothing } else { PipeAction::CloseDest }),
            PipeEvent::DestClosed(e) => (Err(e), if o.prevent_cancel { PipeAction::Nothing } else { PipeAction::CancelSource }),
        };
        match action {
            PipeAction::Nothing => {
                self.state = PipeState::Done(res);
            },
            _ => {
                self.state = PipeState::ShuttingDown(res);
            },
        }
        action
    }

    /// The action returned by [`Pipe::on_event`] resolved with `res`.
    pub fn action_done(&mut self, res: Result<(), E>)
        ensures
            final(self).state_spec() == action_done_spec(old(self).state_spec(), res),
            final(self).options_spec() == old(self).options_spec(),
    {
        let mut s = PipeState::Running;
        core::mem::swap(&mut s, &mut self.state);
        self.state = match s {
            PipeState::ShuttingDown(first) => PipeState::Done(
                match res {
                    Ok(()) => first,
                    Err(e) => Err(e),
                },
            ),
            other => other,
        };
    }

    /// The pipe's result, once it is over: success, or the first error met.
    pub fn into_result(self) -> (r: Option<Result<(), E>>)
        ensures
            r == (match self.state_spec() {
                PipeState::Done(res) => Some(res),
                _ => None,
            }),
    {
        match self.state {
            PipeState::Done(res) => Some(res),
            _ => None,
        }
    }
}

/// The propagation rules of a pipe, each unless its option switches it off:
/// a source error aborts the destination; a destination error, or a
/// destination closed at the start, cancels the source; a source that closes
/// closes the destination. A source error or a destination error is the
/// pipe's result when the action that answers it succeeds (or when there is
/// none), and no later event changes a decided pipe.
pub proof fn lemma_pipe_propagation<E>(o: PipeOptions, e: E, later: PipeEvent<E>)
    ensures
        pipe_event_spec(o, PipeState::Running, PipeEvent::SourceErrored(e)).1 == (if o.prevent_abort { PipeAction::Nothing } else { PipeAction::AbortDest }),
        pipe_event_spec(o, PipeState::Running, PipeEvent::DestErrored(e)).1 == (if o.prevent_cancel { PipeAction::Nothing } else { PipeAction::CancelSource }),
        pipe_event_spec(o, PipeState::Running, PipeEvent::DestClosed(e)).1 == (if o.prevent_cancel { PipeAction::Nothing } else { PipeAction::CancelSource }),
        pipe_event_spec(o, PipeState::Running, PipeEvent::<E>::SourceClosed).1 == (if o.prevent_close { PipeAction::Nothing } else { PipeAction::CloseDest }),
        ({
            let s = pipe_event_spec(o, PipeState::Running, PipeEvent::SourceErrored(e)).0;
            let fin = if s is Done { s } else { action_done_spec(s, Ok(())) };
            &&& fin == PipeState::Done(Err::<(), E>(e))
            &&& pipe_event_spec(o, fin, later) == (fin, PipeAction::Nothing)
        }),
        ({
            let s = pipe_event_spec(o, PipeState::Running, PipeEvent::DestErrored(e)).0;
            let fin = if s is Done { s } else { action_done_spec(s, Ok(())) };
            &&& fin == PipeState::Done(Err::<(), E>(e))
            &&& pipe_event_spec(o, fin, later) == (fin, PipeAction::Nothing)
        }),
{
}

} // verus!

//! Host → native writing: a locked writer driven as a push consumer that
//! serialises its writes through a cache of the one outstanding host
//! operation.
use vstd::prelude::*;

verus! {

/// Where an [`IntoSink`] stands.
#[derive(Clone, Copy, Debug, PartialEq, Eq, Structural)]
pub enum SinkPhase {
    /// The writer is held and nothing is outstanding: a write may be issued.
    Ready,
    /// One host write is outstanding.
    Writing,
    /// The host close is outstanding.
    Closing,
    /// The writer has been dropped after a close or an error.
    Finished,
}

/// What the driver of an [`IntoSink`] must do before it may go on.
#[derive(Clone, Copy, Debug, PartialEq, Eq, Structural)]
pub enum SinkStep {
    /// Nothing is outstanding.
    Proceed,
    /// Poll the cached awaitable again; issue nothing.
    Await,
    /// Issue the host close and hand its awaitable to
    /// [`IntoSink::begin_close`].
    IssueClose,
    /// The writer is gone: the sink is closed.
    Closed,
}

/// Readiness for the next write (and flushing): the outstanding operation
/// has to resolve first.
pub open spec fn ready_step_spec(p: SinkPhase) -> SinkStep {
    match p {
        SinkPhase::Ready => SinkStep::Proceed,
        SinkPhase::Writing | SinkPhase::Closing => SinkStep::Await,
        SinkPhase::Finished => SinkStep::Closed,
    }
}

/// Closing: an outstanding write resolves first, then one close is issued.
pub open spec fn close_step_spec(p: SinkPhase) -> SinkStep {
    match p {
        SinkPhase::Ready => SinkStep::IssueClose,
        SinkPhase::Writing | SinkPhase::Closing => SinkStep::Await,
        SinkPhase::Finished => SinkStep::Closed,
    }
}

/// The outstanding operation of phase `p` resolved with `res`.
pub open spec fn sink_resolve_spec<E>(p: SinkPhase, res: Result<(), E>) -> SinkPhase {
    match res {
        Ok(()) => if p == SinkPhase::Closing {
            SinkPhase::Finished
        } else {
            SinkPhase::Ready
        },
        Err(_) => SinkPhase::Finished,
    }
}

/// A push consumer over a locked writer `W`, caching the awaitable `F` of
/// the one host write or close that may be outstanding. After a close or an
/// error the writer is dropped, which releases its lock.
#[derive(Debug)]
pub struct IntoSink<W, F> {
    writer: Option<W>,
    fut: Option<F>,
    closing: bool,
}

impl<W, F> View for IntoSink<W, F> {
    type V = SinkPhase;

    closed spec fn view(&self) -> SinkPhase {
        if self.writer is None {
            SinkPhase::Finished
        } else if self.fut is None {
            SinkPhase::Ready
        } else if self.closing {
            SinkPhase::Closing
        } else {
            SinkPhase::Writing
        }
    }
}

impl<W, F> IntoSink<W, F> {
    pub closed spec fn writer_spec(&self) -> Option<W> {
        self.writer
    }

    pub closed spec fn pending_spec(&self) -> Option<F> {
        self.fut
    }

    /// An awaitable is only ever cached while the writer is held.
    pub closed spec fn wf(&self) -> bool {
        self.fut is Some ==> self.writer is Some
    }

    /// Starts a consumer over `writer`, with nothing outstanding.
    pub fn new(writer: W) -> (r: IntoSink<W, F>)
        ensures
            r.wf(),
            r@ == SinkPhase::Ready,
            r.writer_spec() == Some(writer),
    {
        IntoSink { writer: Some(writer), fut: None, closing: false }
    }

    pub fn phase(&self) -> (r: SinkPhase)
        requires
            self.wf(),
        ensures
            r == self@,
    {
        if self.writer.is_none() {
            SinkPhase::Finished
        } else if self.fut.is_none() {
            SinkPhase::Ready
        } else if self.closing {
            SinkPhase::Closing
        } else {
            SinkPhase::Writing
        }
    }

    /// What accepting the next item (or flushing) takes.
    pub fn ready_step(&self) -> (r: SinkStep)
        requires
            self.wf(),
        ensures
            r == ready_step_spec(self@),
    {
        match self.phase() {
            SinkPhase::Ready => SinkStep::Proceed,
            SinkPhase::Finished => SinkStep::Closed,
            _ => SinkStep::Await,
        }
    }

    /// What closing the consumer takes.
    pub fn close_step(&self) -> (r: SinkStep)
        requires
            self.wf(),
        ensures
            r == close_step_spec(self@),
    {
        match self.phase() {
            SinkPhase::Ready => SinkStep::IssueClose,
            SinkPhase::Finished => SinkStep::Closed,
            _ => SinkStep::Await,
        }
    }

    /// The writer, while the consumer holds it.
    pub fn writer(&self) -> (r: Option<&W>)
        requires
            self.wf(),
        ensures
            r is Some == (self@ != SinkPhase::Finished),
            r matches Some(x) ==> self.writer_spec() == Some(*x),
    {
        self.writer.as_ref()
    }

    /// Caches the awaitable of the host write just issued.
    pub fn begin_write(&mut self, fut: F)
        requires
            old(self).wf(),
            old(self)@ == SinkPhase::Ready,
        ensures
            final(self).wf(),
            final(self)@ == SinkPhase::Writing,
            final(self).pending_spec() == Some(fut),
            final(self).writer_spec() == old(self).writer_spec(),
    {
        self.fut = Some(fut);
        self.closing = false;
    }

    /// Caches the awaitable of the host close just issued.
    pub fn begin_close(&mut self, fut: F)
        requires
            old(self).wf(),
            old(self)@ == SinkPhase::Ready,
        ensures
            final(self).wf(),
            final(self)@ == SinkPhase::Closing,
            final(self).pending_spec() == Some(fut),
            final(self).writer_spec() == old(self).writer_spec(),
    {
        self.fut = Some(fut);
        self.closing = true;
    }

    /// The cached awaitable, to be polled again.
    pub fn pending_mut(&mut self) -> (r: &mut F)
        requires
            old(self).wf(),
            old(self)@ == SinkPhase::Writing || old(self)@ == SinkPhase::Closing,
        ensures
            old(self).pending_spec() == Some(*r),
            final(self).pending_spec() == Some(*final(r)),
            final(self).writer_spec() == old(self).writer_spec(),
            final(self).wf(),
            final(self)@ == old(self)@,
    {
        self.fut.as_mut().unwrap()
    }

    /// The outstanding write or close resolved with `res`, which is handed
    /// back. Clears the cache; drops the writer after a close or an error.
    pub fn resolve<E>(&mut self, res: Result<(), E>) -> (r: Result<(), E>)
        requires
            old(self).wf(),
            old(self)@ == SinkPhase::Writing || old(self)@ == SinkPhase::Closing,
        ensures
            final(self).wf(),
            final(self)@ == sink_resolve_spec(old(self)@, res),
            r == res,
            final(self).pending_spec() is None,
            final(self)@ == SinkPhase::Ready ==> final(self).writer_spec() == old(self).writer_spec(),
    {
        self.fut = None;
        let closing = self.closing;
        self.closing = false;
        if res.is_err() || closing {
            self.writer = None;
        }
        res
    }
}

/// A write is only issued when nothing is outstanding: while a write or the
/// close is in flight the consumer only awaits it, and a finished consumer
/// issues nothing at all.
pub proof fn lemma_one_write_outstanding(p: SinkPhase)
    ensures
        ready_step_spec(p) == SinkStep::Proceed ==> p == SinkPhase::Ready,
        close_step_spec(p) == SinkStep::IssueClose ==> p == SinkPhase::Ready,
        p == SinkPhase::Writing ==> ready_step_spec(p) == SinkStep::Await && close_step_spec(p) == SinkStep::Await,
        ready_step_spec(SinkPhase::Finished) == SinkStep::Closed,
        close_step_spec(SinkPhase::Finished) == SinkStep::Closed,
{
}

} // verus!

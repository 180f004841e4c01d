//! Host → native reading: a locked reader driven as a lazy sequence through a
//! cache that holds at most one outstanding host read.
use vstd::prelude::*;

verus! {

/// Decodes a host read result (`done` flag and payload): a finished read
/// carries no chunk.
pub fn decode_read_result<V>(done: bool, value: V) -> (r: Option<V>)
    ensures
        r == (if done { None } else { Some(value) }),
{
    if done {
        None
    } else {
        Some(value)
    }
}

/// Where a [`IntoStream`] stands.
#[derive(Clone, Copy, Debug, PartialEq, Eq, Structural)]
pub enum ReadPhase {
    /// The reader is held and no read is outstanding.
    Idle,
    /// The reader is held and one host read is outstanding.
    Awaiting,
    /// The reader has been dropped after the end of the stream or an error.
    Finished,
}

/// What the driver of an [`IntoStream`] must do to produce the next item.
#[derive(Clone, Copy, Debug, PartialEq, Eq, Structural)]
pub enum NextStep {
    /// Issue one host read and hand its awaitable to
    /// [`IntoStream::begin_read`].
    Issue,
    /// Poll the cached awaitable again; issue nothing.
    Await,
    /// The sequence is over: yield end-of-sequence without any host call.
    End,
}

pub open spec fn next_step_spec(p: ReadPhase) -> NextStep {
    match p {
        ReadPhase::Idle => NextStep::Issue,
        ReadPhase::Awaiting => NextStep::Await,
        ReadPhase::Finished => NextStep::End,
    }
}

/// The host resolved the outstanding read with `res`: a chunk, the end of the
/// stream (`Ok(None)`) or an error. Returns the new phase and what the
/// sequence yields (`None` is end-of-sequence).
pub open spec fn resolve_spec<V, E>(res: Result<Option<V>, E>) -> (ReadPhase, Option<Result<V, E>>) {
    match res {
        Ok(Some(v)) => (ReadPhase::Idle, Some(Ok(v))),
        Ok(None) => (ReadPhase::Finished, None),
        Err(e) => (ReadPhase::Finished, Some(Err(e))),
    }
}

/// The items a sequence in phase `p` yields when each host read it issues is
/// resolved by the next entry of `host`, up to and including its
/// end-of-sequence (or until `host` runs out).
pub open spec fn collect<V, E>(p: ReadPhase, host: Seq<Result<Option<V>, E>>) -> Seq<Option<Result<V, E>>>
    decreases host.len(),
{
    if p == ReadPhase::Finished {
        seq![None]
    } else if host.len() == 0 {
        seq![]
    } else {
        let (q, y) = resolve_spec(host[0]);
        if y is None {
            seq![None]
        } else {
            seq![y].add(collect(q, host.drop_first()))
        }
    }
}

/// A lazy, finite, non-restartable sequence over a locked reader `Rd`,
/// caching the awaitable `F` of the one host read that may be outstanding.
///
/// At the end of the stream, or on an error, the reader is dropped (which
/// releases its lock) and no further host call is made.
#[derive(Debug)]
pub struct IntoStream<Rd, F> {
    reader: Option<Rd>,
    fut: Option<F>,
}

impl<Rd, F> View for IntoStream<Rd, F> {
    type V = ReadPhase;

    closed spec fn view(&self) -> ReadPhase {
        if self.reader is None {
            ReadPhase::Finished
        } else if self.fut is None {
            ReadPhase::Idle
        } else {
            ReadPhase::Awaiting
        }
    }
}

impl<Rd, F> IntoStream<Rd, F> {
    /// The reader the sequence holds, if it still holds one.
    pub closed spec fn reader_spec(&self) -> Option<Rd> {
        self.reader
    }

    /// The cached awaitable of the outstanding read.
    pub closed spec fn pending_spec(&self) -> Option<F> {
        self.fut
    }

    /// An awaitable is only ever cached while the reader is held.
    pub closed spec fn wf(&self) -> bool {
        self.fut is Some ==> self.reader is Some
    }

    /// Starts a sequence over `reader`, with no read outstanding.
    pub fn new(reader: Rd) -> (r: IntoStream<Rd, F>)
        ensures
            r.wf(),
            r@ == ReadPhase::Idle,
            r.reader_spec() == Some(reader),
    {
        IntoStream { reader: Some(reader), fut: None }
    }

    /// `true` once neither a reader nor an outstanding read is left.
    pub fn is_terminated(&self) -> (r: bool)
        requires
            self.wf(),
        ensures
            r == (self@ == ReadPhase::Finished),
    {
        self.reader.is_none() && self.fut.is_none()
    }

    /// What producing the next item takes.
    pub fn next_step(&self) -> (r: NextStep)
        requires
            self.wf(),
        ensures
            r == next_step_spec(self@),
    {
        if self.fut.is_some() {
            NextStep::Await
        } else if self.reader.is_some() {
            NextStep::Issue
        } else {
            NextStep::End
        }
    }

    /// The reader, while the sequence holds it.
    pub fn reader(&self) -> (r: Option<&Rd>)
        requires
            self.wf(),
        ensures
            r is Some == (self@ != ReadPhase::Finished),
            r matches Some(x) ==> self.reader_spec() == Some(*x),
    {
        self.reader.as_ref()
    }

    /// Caches the awaitable of the host read just issued.
    pub fn begin_read(&mut self, fut: F)
        requires
            old(self).wf(),
            old(self)@ == ReadPhase::Idle,
        ensures
            final(self).wf(),
            final(self)@ == ReadPhase::Awaiting,
            final(self).pending_spec() == Some(fut),
            final(self).reader_spec() == old(self).reader_spec(),
    {
        self.fut = Some(fut);
    }

    /// The cached awaitable, to be polled again.
    pub fn pending_mut(&mut self) -> (r: &mut F)
        requires
            old(self).wf(),
            old(self)@ == ReadPhase::Awaiting,
        ensures
            old(self).pending_spec() == Some(*r),
            final(self).pending_spec() == Some(*final(r)),
            final(self).reader_spec() == old(self).reader_spec(),
            final(self).wf(),
            final(self)@ == ReadPhase::Awaiting,
    {
        self.fut.as_mut().unwrap()
    }

    /// The outstanding read resolved with `res`. Clears the cache; drops the
    /// reader at the end of the stream or on an error. Returns the item to
    /// yield, `None` being end-of-sequence.
    pub fn resolve<V, E>(&mut self, res: Result<Option<V>, E>) -> (r: Option<Result<V, E>>)
        requires
            old(self).wf(),
            old(self)@ == ReadPhase::Awaiting,
        ensures
            final(self).wf(),
            (final(self)@, r) == resolve_spec(res),
            final(self).pending_spec() is None,
            final(self)@ == ReadPhase::Idle ==> final(self).reader_spec() == old(self).reader_spec(),
    {
        self.fut = None;
        match res {
            Ok(Some(v)) => Some(Ok(v)),
            Ok(None) => {
                self.reader = None;
                None
            },
            Err(e) => {
                self.reader = None;
                Some(Err(e))
            },
        }
    }
}

/// Once the stream has signalled its end, every further request for an item
/// yields end-of-sequence again, without issuing a host read: the finished
/// phase has no step that issues or resolves one, and whatever the host
/// would answer is never consulted.
pub proof fn lemma_read_after_close<V, E>(host: Seq<Result<Option<V>, E>>)
    ensures
        resolve_spec::<V, E>(Ok(None)).0 == ReadPhase::Finished,
        resolve_spec::<V, E>(Ok(None)).1 is None,
        next_step_spec(ReadPhase::Finished) == NextStep::End,
        collect(ReadPhase::Finished, host) == seq![None::<Result<V, E>>],
        host.len() > 0 && host[0] == Ok::<Option<V>, E>(None) ==> collect(ReadPhase::Idle, host) == seq![None::<Result<V, E>>],
{
}

/// A host read is only issued when none is outstanding, and once it is
/// issued the sequence only awaits that same read until it resolves.
pub proof fn lemma_one_read_outstanding(p: ReadPhase)
    ensures
        next_step_spec(p) == NextStep::Issue ==> p == ReadPhase::Idle,
        next_step_spec(ReadPhase::Awaiting) == NextStep::Await,
{
}

} // verus!

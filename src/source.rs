//! Native → host production: a native producer behind the host's
//! start/pull/cancel callbacks.
use vstd::prelude::*;
use crate::read::{collect, ReadPhase};

verus! {

/// What the adapter does with the host controller after a pull drove the
/// native producer to its next item.
#[derive(Debug, PartialEq, Eq, Structural)]
pub enum PullAction<V, E> {
    /// Enqueue the chunk.
    Enqueue(V),
    /// The producer is exhausted: close the stream.
    Close,
    /// The producer failed: reject the pull with the error, which errors the
    /// stream.
    Reject(E),
}

pub open spec fn pull_spec<V, E>(item: Option<Result<V, E>>) -> PullAction<V, E> {
    match item {
        Some(Ok(v)) => PullAction::Enqueue(v),
        None => PullAction::Close,
        Some(Err(e)) => PullAction::Reject(e),
    }
}

/// The backing of a host readable stream: the native producer `St`, shared by
/// the start, pull and cancel callbacks and dropped once it is exhausted,
/// has failed or was cancelled.
#[derive(Debug)]
pub struct SourceAdapter<St> {
    stream: Option<St>,
}

impl<St> SourceAdapter<St> {
    /// The producer, while the source still has one.
    pub closed spec fn stream_spec(&self) -> Option<St> {
        self.stream
    }

    pub fn new(stream: St) -> (r: SourceAdapter<St>)
        ensures
            r.stream_spec() == Some(stream),
    {
        SourceAdapter { stream: Some(stream) }
    }

    /// `true` while a pull can still produce something.
    pub fn is_open(&self) -> (r: bool)
        ensures
            r == (self.stream_spec() is Some),
    {
        self.stream.is_some()
    }

    /// The producer, to be driven to its next item on a pull.
    pub fn stream_mut(&mut self) -> (r: &mut St)
        requires
            old(self).stream_spec() is Some,
        ensures
            old(self).stream_spec() == Some(*r),
            final(self).stream_spec() == Some(*final(r)),
    {
        self.stream.as_mut().unwrap()
    }

    /// The producer yielded `item` on a pull (`None`: it is exhausted).
    /// Returns what to do with the controller; drops the producer when it
    /// is exhausted or failed.
    pub fn pulled<V, E>(&mut self, item: Option<Result<V, E>>) -> (r: PullAction<V, E>)
        requires
            old(self).stream_spec() is Some,
        ensures
            r == pull_spec(item),
            r is Enqueue ==> final(self).stream_spec() == old(self).stream_spec(),
            !(r is Enqueue) ==> final(self).stream_spec() is None,
    {
        match item {
            Some(Ok(v)) => PullAction::Enqueue(v),
            None => {
                self.stream = None;
                PullAction::Close
            },
            Some(Err(e)) => {
                self.stream = None;
                PullAction::Reject(e)
            },
        }
    }

    /// The host cancelled the stream: the producer is dropped.
    pub fn cancel(&mut self)
        ensures
            final(self).stream_spec() is None,
    {
        self.stream = None;
    }
}

/// How the host answers a pending read on a stream with a zero high-water
/// mark: the read triggers a pull, and what the pull does to the controller
/// resolves the read.
pub open spec fn delivered<V, E>(a: PullAction<V, E>) -> Result<Option<V>, E> {
    match a {
        PullAction::Enqueue(v) => Ok(Some(v)),
        PullAction::Close => Ok(None),
        PullAction::Reject(e) => Err(e),
    }
}

/// The host read results that a source produces when its producer yields
/// `native`, one pull per read, until the producer ends or fails.
pub open spec fn through_host<V, E>(native: Seq<Option<Result<V, E>>>) -> Seq<Result<Option<V>, E>>
    decreases native.len(),
{
    if native.len() == 0 {
        seq![]
    } else {
        let a = pull_spec(native[0]);
        if a is Enqueue {
            seq![delivered(a)].add(through_host(native.drop_first()))
        } else {
            seq![delivered(a)]
        }
    }
}

/// What a native producer of `items` yields: each item, then its end.
pub open spec fn produced<V, E>(items: Seq<V>) -> Seq<Option<Result<V, E>>>
    decreases items.len(),
{
    if items.len() == 0 {
        seq![None]
    } else {
        seq![Some(Ok(items[0]))].add(produced(items.drop_first()))
    }
}

/// A native producer of `items`, exposed to the host as a source and read
/// back as a native sequence, yields exactly `items` in order and then
/// end-of-sequence.
pub proof fn lemma_round_trip<V, E>(items: Seq<V>)
    ensures
        collect(ReadPhase::Idle, through_host(produced::<V, E>(items))) == produced::<V, E>(items),
    decreases items.len(),
{
    let native = produced::<V, E>(items);
    if items.len() == 0 {
        assert(native =~= seq![None]);
        assert(through_host(native) =~= seq![Ok::<Option<V>, E>(None)]);
    } else {
        let rest = produced::<V, E>(items.drop_first());
        assert(native[0] == Some(Ok::<V, E>(items[0])));
        assert(native.drop_first() =~= rest);
        lemma_round_trip::<V, E>(items.drop_first());
        let host = through_host(native);
        assert(host[0] == Ok::<Option<V>, E>(Some(items[0])));
        assert(host.drop_first() =~= through_host(rest));
    }
}

} // verus!

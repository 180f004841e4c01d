//! Native → host consumption: a native consumer behind the host's
//! start/write/close/abort callbacks.
use vstd::prelude::*;

verus! {

/// The backing of a host writable stream: the native consumer `Si`, shared
/// by the write, close and abort callbacks and dropped once it has closed,
/// failed or been aborted.
#[derive(Debug)]
pub struct SinkAdapter<Si> {
    sink: Option<Si>,
}

impl<Si> SinkAdapter<Si> {
    /// The consumer, while the sink still has one.
    pub closed spec fn sink_spec(&self) -> Option<Si> {
        self.sink
    }

    pub fn new(sink: Si) -> (r: SinkAdapter<Si>)
        ensures
            r.sink_spec() == Some(sink),
    {
        SinkAdapter { sink: Some(sink) }
    }

    /// `true` while the consumer can still take chunks.
    pub fn is_open(&self) -> (r: bool)
        ensures
            r == (self.sink_spec() is Some),
    {
        self.sink.is_some()
    }

    /// The consumer, to be handed the next chunk, or closed.
    pub fn sink_mut(&mut self) -> (r: &mut Si)
        requires
            old(self).sink_spec() is Some,
        ensures
            old(self).sink_spec() == Some(*r),
            final(self).sink_spec() == Some(*final(r)),
    {
        self.sink.as_mut().unwrap()
    }

    /// The consumer took a chunk with outcome `res`, which is the outcome of
    /// the host's write callback. A consumer that failed is dropped.
    pub fn written<E>(&mut self, res: Result<(), E>) -> (r: Result<(), E>)
        ensures
            r == res,
            res is Ok ==> final(self).sink_spec() == old(self).sink_spec(),
            res is Err ==> final(self).sink_spec() is None,
    {
        if res.is_err() {
            self.sink = None;
        }
        res
    }

    /// The consumer finished closing with outcome `res`, which is the
    /// outcome of the host's close callback. The consumer is dropped either
    /// way.
    pub fn closed<E>(&mut self, res: Result<(), E>) -> (r: Result<(), E>)
        ensures
            r == res,
            final(self).sink_spec() is None,
    {
        self.sink = None;
        res
    }

    /// The host aborted the stream: the consumer is dropped.
    pub fn abort(&mut self)
        ensures
            final(self).sink_spec() is None,
    {
        self.sink = None;
    }
}

} // verus!

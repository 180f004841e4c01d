//! Transform streams: a readable half and a writable half of one host
//! transform object, and the default behaviour of a transformer.
use vstd::prelude::*;
use std::marker::PhantomData;

verus! {

/// A host transform stream `T` whose writable half takes items `I` and whose
/// readable half yields items `O`. The two halves share the host's queue; the
/// adapter itself buffers nothing.
#[derive(Debug)]
pub struct TransformStream<T, I, O> {
    raw: T,
    _writable_type: PhantomData<I>,
    _readable_type: PhantomData<O>,
}

impl<T, I, O> TransformStream<T, I, O> {
    pub closed spec fn raw_spec(&self) -> T {
        self.raw
    }

    /// Wraps a host transform stream.
    pub fn from_raw(raw: T) -> (r: TransformStream<T, I, O>)
        ensures
            r.raw_spec() == raw,
    {
        TransformStream { raw, _writable_type: PhantomData, _readable_type: PhantomData }
    }

    /// The host transform stream.
    pub fn as_raw(&self) -> (r: &T)
        ensures
            *r == self.raw_spec(),
    {
        &self.raw
    }

    /// Gives back the host transform stream.
    pub fn into_raw(self) -> (r: T)
        ensures
            r == self.raw_spec(),
    {
        self.raw
    }
}

/// A call a source or transformer makes on its host controller.
#[derive(Debug, PartialEq, Eq, Structural)]
pub enum ControllerCall<V, E> {
    /// Queue a chunk on the readable side.
    Enqueue(V),
    /// Error both sides.
    Error(E),
    /// Close the readable side and error the writable side.
    Terminate,
}

/// What a transformer without its own `transform` does with a chunk: it
/// passes it on unchanged.
pub fn default_transform<V, E>(chunk: V) -> (r: ControllerCall<V, E>)
    ensures
        r == ControllerCall::<V, E>::Enqueue(chunk),
{
    ControllerCall::Enqueue(chunk)
}

} // verus!

//! Shares of buffers.

use std::rc::Rc;
use std::sync::Arc;

use vstd::prelude::*;

verus! {

/// One share of the buffer `P`. A `String` has one share only; an `Arc` or an `Rc` counts its
/// shares.
///
/// A share that was handed over is of generation zero, and one taken from another share is of
/// the next generation. So a share is told from the one it was taken from, though both are of
/// the same buffer.
///
/// Shares are made and taken by the string alone: code that keeps one can read it and move it, but
/// has no way to take another.
pub(crate) struct Share<P> {
    buffer: P,
    generation: Ghost<nat>,
}

impl<P> Share<P> {
    /// The buffer.
    pub(crate) closed spec fn buffer(self) -> P {
        self.buffer
    }

    /// How often a share was taken from a share to come to this one.
    pub(crate) closed spec fn generation(self) -> nat {
        self.generation@
    }

    /// The share that `buffer` is.
    pub(super) fn new(buffer: P) -> (share: Self)
        ensures
            share.buffer() == buffer,
            share.generation() == 0,
    {
        Share { buffer, generation: Ghost(0) }
    }
}

/// The buffer of a share is the one that it has, not a stand-in for it.
proof fn law_buffer_held<P>(share: Share<P>)
    ensures
        share.buffer() == share.buffer,
        share.generation() == share.generation@,
{
}

impl Share<String> {
    /// The text in the buffer.
    pub(crate) fn as_str(&self) -> (s: &str)
        ensures
            s@ == self.buffer()@,
    {
        self.buffer.as_str()
    }
}

impl Share<Arc<str>> {
    /// Takes one more share of the same buffer.
    pub(super) fn another(&self) -> (share: Self)
        ensures
            share.buffer() == self.buffer(),
            share.generation() == self.generation() + 1,
    {
        Share { buffer: Arc::clone(&self.buffer), generation: Ghost(self.generation@ + 1) }
    }

    /// The text in the buffer.
    pub(crate) fn as_str(&self) -> (s: &str)
        ensures
            s == &*self.buffer(),
    {
        &*self.buffer
    }
}

impl Share<Rc<str>> {
    /// Takes one more share of the same buffer.
    pub(super) fn another(&self) -> (share: Self)
        ensures
            share.buffer() == self.buffer(),
            share.generation() == self.generation() + 1,
    {
        Share { buffer: Rc::clone(&self.buffer), generation: Ghost(self.generation@ + 1) }
    }

    /// The text in the buffer.
    pub(crate) fn as_str(&self) -> (s: &str)
        ensures
            s == &*self.buffer(),
    {
        &*self.buffer
    }
}

} // verus!

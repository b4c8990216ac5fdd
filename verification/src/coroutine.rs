//! Coroutine contract shared by every Gmail exchange.
//!
//! Defines the `GmailCoroutine` trait and its `GmailYield` and
//! `GmailCoroutineState` companions.

use vstd::prelude::*;

verus! {

/// Progress of a coroutine after a resume: either an I/O request the
/// caller must fulfill, or the terminal value.
#[derive(Debug)]
pub enum GmailCoroutineState<Y, R> {
    /// The coroutine needs the caller to perform the carried request.
    Yielded(Y),
    /// The coroutine is done and carries its terminal value.
    Complete(R),
}

/// A resumable, I/O-free Gmail operation.
pub trait GmailCoroutine {
    /// What the coroutine yields between steps.
    type Yield;
    /// What the coroutine returns when it completes.
    type Return;

    /// Whether the coroutine has completed; it must not be resumed then.
    spec fn completed(&self) -> bool;

    /// Advances the coroutine with the bytes read since the last yield
    /// (`None` when there is nothing to feed). A completed coroutine is
    /// not resumed again.
    fn resume(&mut self, arg: Option<&[u8]>) -> GmailCoroutineState<Self::Yield, Self::Return>
        requires
            !old(self).completed(),
    ;
}

/// The I/O request a coroutine yields: read bytes from the stream, or
/// write the given bytes to it.
#[derive(Debug)]
pub enum GmailYield {
    /// Read from the stream and resume with the bytes read.
    WantsRead,
    /// Write these bytes to the stream and resume with `None`.
    WantsWrite(Vec<u8>),
}

} // verus!

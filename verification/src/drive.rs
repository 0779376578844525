//! What passes between the codec and whoever drives it: the bytes that the
//! source has at hand, and what the codec did with them.

use crate::error::GzError;
use vstd::prelude::*;

verus! {

/// What the underlying source gave when it was asked for bytes.
#[derive(Clone, Copy, Debug)]
pub enum Fetched<'a> {
    /// The bytes that the source has at hand; none means that it has ended.
    Bytes(&'a [u8]),
    /// The source has nothing right now and asks to be tried again.
    WouldBlock,
    /// The source failed.
    Failed,
}

/// The content of a [`Fetched`].
pub enum Feed {
    Bytes(Seq<u8>),
    WouldBlock,
    Failed,
}

impl<'a> View for Fetched<'a> {
    type V = Feed;

    open spec fn view(&self) -> Feed {
        match *self {
            Fetched::Bytes(b) => Feed::Bytes(b@),
            Fetched::WouldBlock => Feed::WouldBlock,
            Fetched::Failed => Feed::Failed,
        }
    }
}

/// What the driver does after a call.
#[derive(Clone, Copy, Debug, PartialEq, Eq, Structural)]
pub enum Action {
    /// Nothing to hand over yet: ask the source again and call again.
    Again,
    /// The call is over and this many bytes stand at the front of the buffer;
    /// none means that the stream has ended.
    Ready(usize),
    /// The call is over with this error.
    Fail(GzError),
}

/// The outcome of a call: how many of the offered bytes were taken from the
/// source, and what the driver does next.
#[derive(Clone, Copy, Debug, PartialEq, Eq, Structural)]
pub struct ReadStep {
    /// Bytes taken from the front of what the source offered.
    pub consumed: usize,
    /// What the driver does next.
    pub action: Action,
}

/// A call takes bytes only from the front of what the source gave.
pub open spec fn takes_from(feed: Feed, r: ReadStep) -> bool {
    match feed {
        Feed::Bytes(input) => r.consumed <= input.len(),
        _ => r.consumed == 0,
    }
}

/// The bytes that a call hands to the caller: the front of the buffer, as far
/// as the call says; none from a call that asks to be made again or fails.
pub open spec fn handed(r: ReadStep, after: Seq<u8>) -> Seq<u8> {
    match r.action {
        Action::Ready(n) => after.subrange(0, n as int),
        _ => Seq::empty(),
    }
}

} // verus!

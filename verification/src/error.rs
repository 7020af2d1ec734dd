use vstd::prelude::*;

verus! {

/// The recoverable failures of a bounded string. Each comes from data that may
/// have been supplied by an untrusted peer.
#[derive(Clone, Copy, Debug, PartialEq, Eq, Structural)]
pub enum FastStringError {
    /// The supplied or encoded content is longer than the capacity.
    CapacityExceeded,
    /// The stored bytes were read as text but are not valid UTF-8.
    MalformedText,
    /// The input ended before the announced number of bytes could be read.
    UnexpectedEof,
}

} // verus!

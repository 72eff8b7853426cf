//! Error values carried through the decode pipeline.

use vstd::prelude::*;

verus! {

/// A placeholder for the `Other` payload of an [`Error`] that carries no
/// foreign error. The library itself never constructs an `Error::Other`
/// value of this type.
pub struct Void;

/// The pipeline's error taxonomy: an upstream I/O failure passed through, a
/// failure raised by the native codec (fatal to the worker's lifetime), the
/// counterpart of a channel having gone away, or a foreign error wrapped by
/// a downstream user of the pipeline.
///
/// The I/O and codec variants carry a human-readable description of the
/// underlying failure.
pub enum Error<E> {
    IoError(String),
    OpenH264Error(String),
    ChannelClosed,
    Other(E),
}

impl Error<Void> {
    /// Re-tags an error that carries no `Other` payload, so it can flow into
    /// a pipeline whose error type wraps some foreign error `E`.
    pub fn extend<E>(self) -> (r: Error<E>)
        requires
            !(self matches Error::Other(_)),
        ensures
            self matches Error::IoError(s) ==> r matches Error::IoError(t) && t == s,
            self matches Error::OpenH264Error(s) ==> r matches Error::OpenH264Error(t) && t == s,
            self matches Error::ChannelClosed ==> r matches Error::ChannelClosed,
    {
        match self {
            Error::IoError(s) => Error::IoError(s),
            Error::OpenH264Error(s) => Error::OpenH264Error(s),
            Error::ChannelClosed => Error::ChannelClosed,
            Error::Other(_) => vstd::pervasive::unreached(),
        }
    }
}

} // verus!

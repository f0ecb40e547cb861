//! The one way in which an operation of this crate fails.

use vstd::prelude::*;

verus! {

/// The bytes at hand are too few for the requested type, or the size of the
/// requested type does not fit in a `usize`.
///
/// The error carries the source that was turned down, so that the caller can
/// try it again as something else.
#[derive(Debug)]
pub struct SizeError<Src> {
    src: Src,
}

impl<Src> SizeError<Src> {
    /// The source that was turned down.
    pub closed spec fn src(self) -> Src {
        self.src
    }

    /// An error about `src`.
    pub fn new(src: Src) -> (e: Self)
        ensures
            e.src() == src,
    {
        SizeError { src }
    }

    /// Gives the source back.
    pub fn into_src(self) -> (src: Src)
        ensures
            src == self.src(),
    {
        self.src
    }
}

} // verus!

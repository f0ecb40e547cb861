//! Writing the bytes of a value to a growable destination.

use crate::stream::Sink;
use vstd::prelude::*;

verus! {

/// A destination to which the bytes of a value can be appended.
pub trait ZeroCopyBufMut: Sink {
    /// Appends the bytes of a value, as they are.
    fn write(&mut self, t: &[u8])
        requires
            old(self).contents().len() + t@.len() <= Self::limit(),
        ensures
            final(self).contents() == old(self).contents() + t@,
    ;
}

impl<B: Sink> ZeroCopyBufMut for B {
    fn write(&mut self, t: &[u8]) {
        self.put_slice(t);
    }
}

} // verus!

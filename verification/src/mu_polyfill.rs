//! Filling memory whose contents do not matter yet.

use vstd::prelude::*;

verus! {

/// Overwrites `this` with `src`, element by element, and hands it back
/// filled. The two must be of one length.
pub fn copy_from_slice<'a, T: Copy>(this: &'a mut [T], src: &[T]) -> (filled: &'a mut [T])
    requires
        old(this)@.len() == src@.len(),
    ensures
        filled@ == src@,
        final(this)@ == final(filled)@,
{
    let len: usize = src.len();
    let mut i: usize = 0;
    while i < len
        invariant
            i <= len,
            len == src@.len(),
            this@.len() == len,
            this@.take(i as int) == src@.take(i as int),
        decreases len - i,
    {
        this[i] = src[i];
        i += 1;
        assert(this@.take(i as int) =~= src@.take(i as int));
    }
    assert(this@ =~= this@.take(len as int));
    assert(src@ =~= src@.take(len as int));
    this
}

} // verus!

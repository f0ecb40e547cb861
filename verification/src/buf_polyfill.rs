//! Copying out of a stream whose bytes may lie in several chunks.

use crate::mu_polyfill::copy_from_slice;
use crate::stream::Stream;
use vstd::prelude::*;
use vstd::slice::slice_subrange;

verus! {

/// Fills `dst` with the next bytes of `this` and consumes them, however
/// many chunks they lie in. What `dst` held before does not matter: it is
/// handed back only once every byte of it has been written.
///
/// A stream that holds fewer bytes than `dst` is long is left as it was, and
/// so is `dst`.
pub fn copy_to_uninit_slice<'a, S: Stream>(this: &mut S, dst: &'a mut [u8]) -> (res: Option<
    &'a mut [u8],
>)
    ensures
        res.is_some() <==> old(dst)@.len() <= old(this).bytes().len(),
        res matches Some(filled) ==> {
            &&& filled@ == old(this).bytes().take(old(dst)@.len() as int)
            &&& final(this).bytes() == old(this).bytes().skip(old(dst)@.len() as int)
            &&& final(dst)@ == final(filled)@
        },
        res.is_none() ==> {
            &&& final(this).bytes() == old(this).bytes()
            &&& final(dst)@ == old(dst)@
        },
{
    if this.remaining() < dst.len() {
        return None;
    }
    let ghost start = this.bytes();
    let ghost len = dst@.len();
    let ghost mut done = Seq::<u8>::empty();

    let mut c = &mut *dst;
    while !c.is_empty()
        invariant
            done.len() + c@.len() == len <= start.len(),
            done == start.take(done.len() as int),
            this.bytes() == start.skip(done.len() as int),
            after_borrow(dst)@ == done + final(c)@,
        decreases c@.len(),
    {
        let src = this.chunk();

        let cnt: usize = if src.len() < c.len() { src.len() } else { c.len() };
        let (head, tail) = c.split_at_mut(cnt);
        copy_from_slice(head, slice_subrange(src, 0, cnt));
        proof {
            done = done + src@.subrange(0, cnt as int);
        }

        c = tail;
        this.advance(cnt);
    }

    Some(dst)
}

} // verus!

//! Byte streams: a cursor over bytes that are handed out chunk by chunk.

use crate::bytes_spec::{
    bytes_advance, bytes_chunk, bytes_mut_advance, bytes_mut_chunk, bytes_mut_put_slice,
    bytes_mut_remaining, bytes_mut_remaining_mut, bytes_mut_view, bytes_remaining, bytes_view,
    chain_advance, chain_chunk, chain_first, chain_last, chain_remaining,
};
use bytes::buf::Chain;
use bytes::{Bytes, BytesMut};
use vstd::prelude::*;
use vstd::slice::slice_subrange;

verus! {

/// A cursor over bytes. The bytes may lie in several chunks; only the first
/// chunk can be looked at, and consuming it brings up the next.
pub trait Stream {
    /// The bytes between the cursor and the end of the stream.
    spec fn bytes(&self) -> Seq<u8>;

    /// The number of bytes left, saturating at `usize::MAX`.
    fn remaining(&self) -> (n: usize)
        ensures
            n as int == saturated_len(self.bytes()),
    ;

    /// The chunk at the cursor: a prefix of the bytes left, empty only when
    /// nothing is left.
    fn chunk(&self) -> (c: &[u8])
        ensures
            c@.len() <= self.bytes().len(),
            c@ == self.bytes().take(c@.len() as int),
            self.bytes().len() > 0 ==> c@.len() > 0,
    ;

    /// Moves the cursor past the next `cnt` bytes.
    fn advance(&mut self, cnt: usize)
        requires
            cnt <= old(self).bytes().len(),
        ensures
            final(self).bytes() == old(self).bytes().skip(cnt as int),
    ;
}

/// The length of `bytes`, held down to what fits in a `usize`.
pub open spec fn saturated_len(bytes: Seq<u8>) -> int {
    if bytes.len() <= usize::MAX {
        bytes.len() as int
    } else {
        usize::MAX as int
    }
}

impl Stream for Bytes {
    open spec fn bytes(&self) -> Seq<u8> {
        bytes_view(*self)
    }

    fn remaining(&self) -> (n: usize)
        ensures
            n == self.bytes().len(),
    {
        bytes_remaining(self)
    }

    fn chunk(&self) -> (c: &[u8])
        ensures
            c@ == self.bytes(),
    {
        bytes_chunk(self)
    }

    fn advance(&mut self, cnt: usize) {
        bytes_advance(self, cnt)
    }
}

impl Stream for BytesMut {
    open spec fn bytes(&self) -> Seq<u8> {
        bytes_mut_view(*self)
    }

    fn remaining(&self) -> (n: usize)
        ensures
            n == self.bytes().len(),
    {
        bytes_mut_remaining(self)
    }

    fn chunk(&self) -> (c: &[u8])
        ensures
            c@ == self.bytes(),
    {
        bytes_mut_chunk(self)
    }

    fn advance(&mut self, cnt: usize) {
        bytes_mut_advance(self, cnt)
    }
}

impl<'a> Stream for &'a [u8] {
    open spec fn bytes(&self) -> Seq<u8> {
        (*self)@
    }

    fn remaining(&self) -> (n: usize)
        ensures
            n == self.bytes().len(),
    {
        self.len()
    }

    fn chunk(&self) -> (c: &[u8])
        ensures
            c@ == self.bytes(),
    {
        *self
    }

    fn advance(&mut self, cnt: usize) {
        let whole: &'a [u8] = *self;
        *self = slice_subrange(whole, cnt, whole.len());
    }
}

impl Stream for Chain<Bytes, Bytes> {
    open spec fn bytes(&self) -> Seq<u8> {
        chain_first(*self) + chain_last(*self)
    }

    fn remaining(&self) -> (n: usize) {
        chain_remaining(self)
    }

    fn chunk(&self) -> (c: &[u8])
        ensures
            c@ == if chain_first(*self).len() > 0 {
                chain_first(*self)
            } else {
                chain_last(*self)
            },
    {
        chain_chunk(self)
    }

    fn advance(&mut self, cnt: usize)
        ensures
            cnt <= chain_first(*old(self)).len() ==> {
                &&& chain_first(*final(self)) == chain_first(*old(self)).skip(cnt as int)
                &&& chain_last(*final(self)) == chain_last(*old(self))
            },
            cnt > chain_first(*old(self)).len() ==> {
                &&& chain_first(*final(self)) == Seq::<u8>::empty()
                &&& chain_last(*final(self)) == chain_last(*old(self)).skip(
                    cnt - chain_first(*old(self)).len(),
                )
            },
    {
        chain_advance(self, cnt);
    }
}

/// A destination that grows as bytes are appended to it.
pub trait Sink {
    /// The bytes that the destination holds.
    spec fn contents(&self) -> Seq<u8>;

    /// The most bytes that the destination can ever hold.
    spec fn limit() -> nat;

    /// The number of bytes that can still be appended.
    fn remaining_mut(&self) -> (n: usize)
        ensures
            n as int == room(self.contents(), Self::limit()),
    ;

    /// Appends `src`.
    fn put_slice(&mut self, src: &[u8])
        requires
            old(self).contents().len() + src@.len() <= Self::limit(),
        ensures
            final(self).contents() == old(self).contents() + src@,
    ;
}

/// The room that is left below `limit` once `contents` is held.
pub open spec fn room(contents: Seq<u8>, limit: nat) -> int {
    if contents.len() <= limit {
        limit - contents.len()
    } else {
        0
    }
}

impl Sink for BytesMut {
    open spec fn contents(&self) -> Seq<u8> {
        bytes_mut_view(*self)
    }

    open spec fn limit() -> nat {
        isize::MAX as nat
    }

    fn remaining_mut(&self) -> (n: usize) {
        bytes_mut_remaining_mut(self)
    }

    fn put_slice(&mut self, src: &[u8]) {
        bytes_mut_put_slice(self, src)
    }
}

impl Sink for Vec<u8> {
    open spec fn contents(&self) -> Seq<u8> {
        self@
    }

    open spec fn limit() -> nat {
        isize::MAX as nat
    }

    fn remaining_mut(&self) -> (n: usize) {
        let limit: usize = isize::MAX as usize;
        if self.len() <= limit {
            limit - self.len()
        } else {
            0
        }
    }

    fn put_slice(&mut self, src: &[u8]) {
        self.extend_from_slice(src);
    }
}

} // verus!

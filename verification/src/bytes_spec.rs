//! What this crate assumes of the buffer types of the `bytes` crate.
//!
//! Nothing in this file is proved. Each item states, over the bytes a buffer
//! holds, what the method of `bytes` that it stands for is documented to do.

use bytes::buf::Chain;
use bytes::{Buf, BufMut, Bytes, BytesMut};
use vstd::prelude::*;

verus! {

/// `bytes::Bytes`, a cheaply cloneable view into shared memory.
#[verifier::external_type_specification]
#[verifier::external_body]
pub struct ExBytes(bytes::Bytes);

/// `bytes::BytesMut`, a growable buffer that owns its bytes.
#[verifier::external_type_specification]
#[verifier::external_body]
pub struct ExBytesMut(bytes::BytesMut);

/// `bytes::buf::Chain`, two buffers read one after the other.
#[verifier::external_type_specification]
#[verifier::external_body]
#[verifier::reject_recursive_types(T)]
#[verifier::reject_recursive_types(U)]
pub struct ExChain<T, U>(bytes::buf::Chain<T, U>);

/// The bytes that a `Bytes` holds, first to last.
pub uninterp spec fn bytes_view(b: Bytes) -> Seq<u8>;

/// The bytes that a `BytesMut` holds, first to last.
pub uninterp spec fn bytes_mut_view(b: BytesMut) -> Seq<u8>;

/// The bytes that are left in the first buffer of a chain.
pub uninterp spec fn chain_first(c: Chain<Bytes, Bytes>) -> Seq<u8>;

/// The bytes that are left in the second buffer of a chain.
pub uninterp spec fn chain_last(c: Chain<Bytes, Bytes>) -> Seq<u8>;

/// `Bytes::new`: an empty buffer.
#[verifier::external_body]
pub(crate) fn bytes_new() -> (b: Bytes)
    ensures
        bytes_view(b) == Seq::<u8>::empty(),
{
    Bytes::new()
}

/// `Buf::remaining` of `Bytes`: the number of bytes held.
#[verifier::external_body]
pub(crate) fn bytes_remaining(b: &Bytes) -> (n: usize)
    ensures
        n == bytes_view(*b).len(),
{
    b.remaining()
}

/// `Buf::chunk` of `Bytes`: all the bytes held, as one slice.
#[verifier::external_body]
pub(crate) fn bytes_chunk(b: &Bytes) -> (c: &[u8])
    ensures
        c@ == bytes_view(*b),
{
    b.chunk()
}

/// `Buf::advance` of `Bytes`: drops the first `cnt` bytes. It panics when
/// `cnt` is more than what is held.
#[verifier::external_body]
pub(crate) fn bytes_advance(b: &mut Bytes, cnt: usize)
    requires
        cnt <= bytes_view(*old(b)).len(),
    ensures
        bytes_view(*final(b)) == bytes_view(*old(b)).skip(cnt as int),
{
    b.advance(cnt)
}

/// `Bytes::split_to`: hands out the first `at` bytes and keeps the rest. It
/// panics when `at` is more than what is held.
#[verifier::external_body]
pub(crate) fn bytes_split_to(b: &mut Bytes, at: usize) -> (head: Bytes)
    requires
        at <= bytes_view(*old(b)).len(),
    ensures
        bytes_view(head) == bytes_view(*old(b)).take(at as int),
        bytes_view(*final(b)) == bytes_view(*old(b)).skip(at as int),
{
    b.split_to(at)
}

/// `Clone::clone` of `Bytes`: another handle on the same bytes.
#[verifier::external_body]
pub(crate) fn bytes_clone(b: &Bytes) -> (copy: Bytes)
    ensures
        bytes_view(copy) == bytes_view(*b),
{
    b.clone()
}

/// `BytesMut::new`: an empty buffer.
#[verifier::external_body]
pub(crate) fn bytes_mut_new() -> (b: BytesMut)
    ensures
        bytes_mut_view(b) == Seq::<u8>::empty(),
{
    BytesMut::new()
}

/// `Clone::clone` of `BytesMut`: a buffer of its own that holds the same
/// bytes.
#[verifier::external_body]
pub(crate) fn bytes_mut_clone(b: &BytesMut) -> (copy: BytesMut)
    ensures
        bytes_mut_view(copy) == bytes_mut_view(*b),
{
    b.clone()
}

/// `Buf::remaining` of `BytesMut`: the number of bytes held.
#[verifier::external_body]
pub(crate) fn bytes_mut_remaining(b: &BytesMut) -> (n: usize)
    ensures
        n == bytes_mut_view(*b).len(),
{
    b.remaining()
}

/// `Buf::chunk` of `BytesMut`: all the bytes held, as one slice.
#[verifier::external_body]
pub(crate) fn bytes_mut_chunk(b: &BytesMut) -> (c: &[u8])
    ensures
        c@ == bytes_mut_view(*b),
{
    b.chunk()
}

/// `Buf::advance` of `BytesMut`: drops the first `cnt` bytes. It panics when
/// `cnt` is more than what is held.
#[verifier::external_body]
pub(crate) fn bytes_mut_advance(b: &mut BytesMut, cnt: usize)
    requires
        cnt <= bytes_mut_view(*old(b)).len(),
    ensures
        bytes_mut_view(*final(b)) == bytes_mut_view(*old(b)).skip(cnt as int),
{
    b.advance(cnt)
}

/// `BytesMut::split_to`: hands out the first `at` bytes and keeps the rest.
/// It panics when `at` is more than what is held.
#[verifier::external_body]
pub(crate) fn bytes_mut_split_to(b: &mut BytesMut, at: usize) -> (head: BytesMut)
    requires
        at <= bytes_mut_view(*old(b)).len(),
    ensures
        bytes_mut_view(head) == bytes_mut_view(*old(b)).take(at as int),
        bytes_mut_view(*final(b)) == bytes_mut_view(*old(b)).skip(at as int),
{
    b.split_to(at)
}

/// `DerefMut::deref_mut` of `BytesMut`: the bytes held, open to writing in
/// place. Their number cannot change through the slice.
#[verifier::external_body]
pub(crate) fn bytes_mut_deref_mut(b: &mut BytesMut) -> (s: &mut [u8])
    ensures
        s@ == bytes_mut_view(*old(b)),
        bytes_mut_view(*final(b)) == final(s)@,
{
    &mut *b
}

/// `BufMut::remaining_mut` of `BytesMut`: what is missing from the bytes
/// held to `isize::MAX`, the most that one allocation can hold.
#[verifier::external_body]
pub(crate) fn bytes_mut_remaining_mut(b: &BytesMut) -> (n: usize)
    ensures
        n == isize::MAX - bytes_mut_view(*b).len(),
{
    b.remaining_mut()
}

/// `BufMut::put_slice` of `BytesMut`: appends `src`, growing the buffer as
/// needed. The call is documented to panic when `src` is longer than what
/// `remaining_mut` reports, and that case is left out.
#[verifier::external_body]
pub(crate) fn bytes_mut_put_slice(b: &mut BytesMut, src: &[u8])
    requires
        bytes_mut_view(*old(b)).len() + src@.len() <= isize::MAX,
    ensures
        bytes_mut_view(*final(b)) == bytes_mut_view(*old(b)) + src@,
{
    b.put_slice(src)
}

/// `Buf::remaining` of a chain: the sum of what its two buffers hold,
/// saturating at `usize::MAX`.
#[verifier::external_body]
pub(crate) fn chain_remaining(c: &Chain<Bytes, Bytes>) -> (n: usize)
    ensures
        chain_first(*c).len() + chain_last(*c).len() <= usize::MAX ==> n == chain_first(*c).len()
            + chain_last(*c).len(),
        chain_first(*c).len() + chain_last(*c).len() > usize::MAX ==> n == usize::MAX,
{
    c.remaining()
}

/// `Buf::chunk` of a chain: the whole of the first buffer while it holds
/// anything, then the whole of the second.
#[verifier::external_body]
pub(crate) fn chain_chunk(c: &Chain<Bytes, Bytes>) -> (s: &[u8])
    ensures
        s@ == if chain_first(*c).len() > 0 {
            chain_first(*c)
        } else {
            chain_last(*c)
        },
{
    c.chunk()
}

/// `Buf::advance` of a chain: takes `cnt` bytes off the first buffer, and
/// what the first cannot give off the second. It panics when `cnt` is more
/// than what the two hold.
#[verifier::external_body]
pub(crate) fn chain_advance(c: &mut Chain<Bytes, Bytes>, cnt: usize)
    requires
        cnt <= chain_first(*old(c)).len() + chain_last(*old(c)).len(),
    ensures
        cnt <= chain_first(*old(c)).len() ==> {
            &&& chain_first(*final(c)) == chain_first(*old(c)).skip(cnt as int)
            &&& chain_last(*final(c)) == chain_last(*old(c))
        },
        cnt > chain_first(*old(c)).len() ==> {
            &&& chain_first(*final(c)) == Seq::<u8>::empty()
            &&& chain_last(*final(c)) == chain_last(*old(c)).skip(
                cnt - chain_first(*old(c)).len(),
            )
        },
{
    c.advance(cnt)
}

} // verus!

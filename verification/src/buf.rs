//! Borrowing the bytes of a value from a contiguous stream.

use crate::byte_slice::{fits, from_prefix, ByteSlice, SplitByteSlice};
use crate::bytes_spec::{bytes_chunk, bytes_mut_chunk, bytes_mut_new, bytes_new};
use crate::error::SizeError;
use crate::layout::{checked_len, SliceLayout};
use crate::stream::Stream;
use bytes::{Bytes, BytesMut};
use vstd::prelude::*;

verus! {

/// A stream whose bytes lie in one piece, so that the bytes of a value can
/// be handed out as a region of the stream's own storage.
pub trait ZeroCopyBuf: Stream {
    /// The region that a value is handed out in.
    type Buf: SplitByteSlice;

    /// Detaches a value of `size` bytes from the front of the stream.
    ///
    /// A stream that holds at least `size` bytes hands out its first `size`
    /// bytes and keeps the rest. A shorter one fails and keeps every byte it
    /// has.
    fn try_get(&mut self, size: usize) -> (res: Result<Self::Buf, SizeError<Self::Buf>>)
        ensures
            get_outcome(old(self).bytes(), Some(size), res, final(self).bytes()),
    ;

    /// Detaches a value with `count` trailing elements from the front of
    /// the stream.
    ///
    /// It fails, and the stream keeps every byte it has, where the stream is
    /// shorter than the value and where the size of the value does not fit
    /// in a `usize`.
    fn try_get_elems(&mut self, layout: &SliceLayout, count: usize) -> (res: Result<
        Self::Buf,
        SizeError<Self::Buf>,
    >)
        ensures
            get_outcome(
                old(self).bytes(),
                checked_len(layout.spec_size_for_elems(count as nat)),
                res,
                final(self).bytes(),
            ),
    ;

    /// Looks at a value of `size` bytes at the front of the stream. The
    /// stream keeps every byte it has, whatever the outcome.
    fn try_peek(&mut self, size: usize) -> (res: Result<&[u8], SizeError<&[u8]>>)
        ensures
            final(self).bytes() == old(self).bytes(),
            peek_outcome(old(self).bytes(), Some(size), res),
    ;

    /// Looks at a value with `count` trailing elements at the front of the
    /// stream. The stream keeps every byte it has, whatever the outcome.
    fn try_peek_elems(&mut self, layout: &SliceLayout, count: usize) -> (res: Result<
        &[u8],
        SizeError<&[u8]>,
    >)
        ensures
            final(self).bytes() == old(self).bytes(),
            peek_outcome(
                old(self).bytes(),
                checked_len(layout.spec_size_for_elems(count as nat)),
                res,
            ),
    ;
}

/// What detaching a value of `required` bytes makes of a stream that held
/// `before`: the result `res`, and the bytes `after` that the stream holds
/// then. A `required` of `None` stands for a size beyond `usize::MAX`.
pub open spec fn get_outcome<B: SplitByteSlice>(
    before: Seq<u8>,
    required: Option<usize>,
    res: Result<B, SizeError<B>>,
    after: Seq<u8>,
) -> bool {
    match res {
        Ok(region) => {
            &&& fits(required, before)
            &&& region@ == before.take(required.unwrap() as int)
            &&& after == before.skip(required.unwrap() as int)
        },
        Err(_) => !fits(required, before) && after == before,
    }
}

/// What a look at a value of `required` bytes finds in a stream that holds
/// `bytes`. A `required` of `None` stands for a size beyond `usize::MAX`.
pub open spec fn peek_outcome(
    bytes: Seq<u8>,
    required: Option<usize>,
    res: Result<&[u8], SizeError<&[u8]>>,
) -> bool {
    match res {
        Ok(region) => fits(required, bytes) && region@ == bytes.take(required.unwrap() as int),
        Err(e) => !fits(required, bytes) && e.src()@ == bytes,
    }
}

/// Puts `src` in the place of `*dest` and hands out what was there.
fn replace<T>(dest: &mut T, src: T) -> (was: T)
    ensures
        was == *old(dest),
        *final(dest) == src,
{
    let mut other = src;
    core::mem::swap(dest, &mut other);
    other
}

impl ZeroCopyBuf for Bytes {
    type Buf = ByteSlice<Bytes>;

    fn try_get(&mut self, size: usize) -> (res: Result<Self::Buf, SizeError<Self::Buf>>)
        ensures
            res matches Err(e) ==> e.src()@ == Seq::<u8>::empty(),
    {
        let source = ByteSlice::<Bytes>::new(replace(self, bytes_new()));
        match from_prefix(source, Some(size)) {
            Ok((a, b)) => {
                *self = b.into_inner();
                Ok(a)
            },
            Err(e) => {
                let hole = replace(self, e.into_src().into_inner());
                Err(SizeError::new(ByteSlice::<Bytes>::new(hole)))
            },
        }
    }

    fn try_get_elems(&mut self, layout: &SliceLayout, count: usize) -> (res: Result<
        Self::Buf,
        SizeError<Self::Buf>,
    >)
        ensures
            res matches Err(e) ==> e.src()@ == Seq::<u8>::empty(),
    {
        let source = ByteSlice::<Bytes>::new(replace(self, bytes_new()));
        match from_prefix(source, layout.size_for_elems(count)) {
            Ok((a, b)) => {
                *self = b.into_inner();
                Ok(a)
            },
            Err(e) => {
                let hole = replace(self, e.into_src().into_inner());
                Err(SizeError::new(ByteSlice::<Bytes>::new(hole)))
            },
        }
    }

    fn try_peek(&mut self, size: usize) -> (res: Result<&[u8], SizeError<&[u8]>>) {
        match from_prefix(bytes_chunk(self), Some(size)) {
            Ok((a, _)) => Ok(a),
            Err(e) => Err(e),
        }
    }

    fn try_peek_elems(&mut self, layout: &SliceLayout, count: usize) -> (res: Result<
        &[u8],
        SizeError<&[u8]>,
    >) {
        match from_prefix(bytes_chunk(self), layout.size_for_elems(count)) {
            Ok((a, _)) => Ok(a),
            Err(e) => Err(e),
        }
    }
}

impl ZeroCopyBuf for BytesMut {
    type Buf = ByteSlice<BytesMut>;

    fn try_get(&mut self, size: usize) -> (res: Result<Self::Buf, SizeError<Self::Buf>>)
        ensures
            res matches Err(e) ==> e.src()@ == Seq::<u8>::empty(),
    {
        let source = ByteSlice::<BytesMut>::new(replace(self, bytes_mut_new()));
        match from_prefix(source, Some(size)) {
            Ok((a, b)) => {
                *self = b.into_inner();
                Ok(a)
            },
            Err(e) => {
                let hole = replace(self, e.into_src().into_inner());
                Err(SizeError::new(ByteSlice::<BytesMut>::new(hole)))
            },
        }
    }

    fn try_get_elems(&mut self, layout: &SliceLayout, count: usize) -> (res: Result<
        Self::Buf,
        SizeError<Self::Buf>,
    >)
        ensures
            res matches Err(e) ==> e.src()@ == Seq::<u8>::empty(),
    {
        let source = ByteSlice::<BytesMut>::new(replace(self, bytes_mut_new()));
        match from_prefix(source, layout.size_for_elems(count)) {
            Ok((a, b)) => {
                *self = b.into_inner();
                Ok(a)
            },
            Err(e) => {
                let hole = replace(self, e.into_src().into_inner());
                Err(SizeError::new(ByteSlice::<BytesMut>::new(hole)))
            },
        }
    }

    fn try_peek(&mut self, size: usize) -> (res: Result<&[u8], SizeError<&[u8]>>) {
        match from_prefix(bytes_mut_chunk(self), Some(size)) {
            Ok((a, _)) => Ok(a),
            Err(e) => Err(e),
        }
    }

    fn try_peek_elems(&mut self, layout: &SliceLayout, count: usize) -> (res: Result<
        &[u8],
        SizeError<&[u8]>,
    >) {
        match from_prefix(bytes_mut_chunk(self), layout.size_for_elems(count)) {
            Ok((a, _)) => Ok(a),
            Err(e) => Err(e),
        }
    }
}

impl<'a> ZeroCopyBuf for &'a [u8] {
    type Buf = &'a [u8];

    fn try_get(&mut self, size: usize) -> (res: Result<Self::Buf, SizeError<Self::Buf>>)
        ensures
            res matches Err(e) ==> e.src()@ == old(self).bytes(),
    {
        match from_prefix(*self, Some(size)) {
            Ok((a, b)) => {
                *self = b;
                Ok(a)
            },
            Err(e) => Err(e),
        }
    }

    fn try_get_elems(&mut self, layout: &SliceLayout, count: usize) -> (res: Result<
        Self::Buf,
        SizeError<Self::Buf>,
    >)
        ensures
            res matches Err(e) ==> e.src()@ == old(self).bytes(),
    {
        match from_prefix(*self, layout.size_for_elems(count)) {
            Ok((a, b)) => {
                *self = b;
                Ok(a)
            },
            Err(e) => Err(e),
        }
    }

    fn try_peek(&mut self, size: usize) -> (res: Result<&[u8], SizeError<&[u8]>>) {
        match from_prefix(*self, Some(size)) {
            Ok((a, _)) => Ok(a),
            Err(e) => Err(e),
        }
    }

    fn try_peek_elems(&mut self, layout: &SliceLayout, count: usize) -> (res: Result<
        &[u8],
        SizeError<&[u8]>,
    >) {
        match from_prefix(*self, layout.size_for_elems(count)) {
            Ok((a, _)) => Ok(a),
            Err(e) => Err(e),
        }
    }
}

} // verus!

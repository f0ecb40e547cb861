//! Byte regions that can be split in two without copying.

use crate::bytes_spec::{
    bytes_chunk, bytes_clone, bytes_mut_chunk, bytes_mut_clone, bytes_mut_deref_mut,
    bytes_mut_split_to, bytes_mut_view, bytes_split_to, bytes_view,
};
use crate::error::SizeError;
use bytes::{Bytes, BytesMut};
use vstd::prelude::*;
use vstd::slice::slice_subrange;

verus! {

/// A region of bytes that reads the same every time it is looked at, and
/// that can be cut at any point into two regions that own their halves.
pub trait SplitByteSlice: View<V = Seq<u8>> + Sized {
    /// The bytes of the region.
    fn as_bytes(&self) -> (s: &[u8])
        ensures
            s@ == self@,
    ;

    /// Cuts the region at `mid`. The caller vouches that `mid` lies inside
    /// the region.
    fn split_at_unchecked(self, mid: usize) -> (halves: (Self, Self))
        requires
            mid <= self@.len(),
        ensures
            halves.0@ == self@.take(mid as int),
            halves.1@ == self@.skip(mid as int),
    ;

    /// Cuts the region at `mid`, or hands it back whole when `mid` lies
    /// beyond its end.
    fn split_at(self, mid: usize) -> (res: Result<(Self, Self), Self>)
        ensures
            match res {
                Ok(halves) => {
                    &&& mid <= self@.len()
                    &&& halves.0@ == self@.take(mid as int)
                    &&& halves.1@ == self@.skip(mid as int)
                },
                Err(whole) => mid > self@.len() && whole == self,
            },
    {
        if mid <= self.as_bytes().len() {
            Ok(self.split_at_unchecked(mid))
        } else {
            Err(self)
        }
    }
}

/// Cuts the `required` bytes of a value off the front of `source`. Where the
/// size of the value is not known (`None`: it does not fit in a `usize`) or
/// `source` is shorter than it, `source` comes back whole in the error.
pub fn from_prefix<B: SplitByteSlice>(source: B, required: Option<usize>) -> (res: Result<
    (B, B),
    SizeError<B>,
>)
    ensures
        match res {
            Ok(halves) => {
                &&& fits(required, source@)
                &&& halves.0@ == source@.take(required.unwrap() as int)
                &&& halves.1@ == source@.skip(required.unwrap() as int)
            },
            Err(e) => !fits(required, source@) && e.src() == source,
        },
{
    match required {
        Some(len) => match source.split_at(len) {
            Ok(halves) => Ok(halves),
            Err(whole) => Err(SizeError::new(whole)),
        },
        None => Err(SizeError::new(source)),
    }
}

/// Whether `bytes` holds the `required` bytes of a value.
pub open spec fn fits(required: Option<usize>, bytes: Seq<u8>) -> bool {
    required matches Some(len) && len <= bytes.len()
}

impl<'a> SplitByteSlice for &'a [u8] {
    fn as_bytes(&self) -> (s: &[u8]) {
        *self
    }

    fn split_at_unchecked(self, mid: usize) -> (halves: (Self, Self)) {
        (slice_subrange(self, 0, mid), slice_subrange(self, mid, self.len()))
    }
}

/// An owned buffer as a region of bytes.
#[derive(Debug)]
pub struct ByteSlice<B>(B);

impl View for ByteSlice<Bytes> {
    type V = Seq<u8>;

    closed spec fn view(&self) -> Seq<u8> {
        bytes_view(self.0)
    }
}

impl View for ByteSlice<BytesMut> {
    type V = Seq<u8>;

    closed spec fn view(&self) -> Seq<u8> {
        bytes_mut_view(self.0)
    }
}

impl ByteSlice<Bytes> {
    /// Wraps a buffer.
    pub fn new(inner: Bytes) -> (region: Self)
        ensures
            region@ == bytes_view(inner),
    {
        ByteSlice(inner)
    }

    /// Unwraps the buffer.
    pub fn into_inner(self) -> (inner: Bytes)
        ensures
            bytes_view(inner) == self@,
    {
        self.0
    }
}

impl ByteSlice<BytesMut> {
    /// Wraps a buffer.
    pub fn new(inner: BytesMut) -> (region: Self)
        ensures
            region@ == bytes_mut_view(inner),
    {
        ByteSlice(inner)
    }

    /// Unwraps the buffer.
    pub fn into_inner(self) -> (inner: BytesMut)
        ensures
            bytes_mut_view(inner) == self@,
    {
        self.0
    }
}

impl core::ops::Deref for ByteSlice<Bytes> {
    type Target = [u8];

    fn deref(&self) -> (s: &[u8])
        ensures
            s@ == self@,
    {
        bytes_chunk(&self.0)
    }
}

impl core::ops::Deref for ByteSlice<BytesMut> {
    type Target = [u8];

    fn deref(&self) -> (s: &[u8])
        ensures
            s@ == self@,
    {
        bytes_mut_chunk(&self.0)
    }
}

impl core::ops::DerefMut for ByteSlice<BytesMut> {
    fn deref_mut(&mut self) -> (s: &mut [u8])
        ensures
            s@ == old(self)@,
            final(self)@ == final(s)@,
    {
        bytes_mut_deref_mut(&mut self.0)
    }
}

impl Clone for ByteSlice<Bytes> {
    fn clone(&self) -> (copy: Self)
        ensures
            copy@ == self@,
    {
        ByteSlice(bytes_clone(&self.0))
    }
}

impl Clone for ByteSlice<BytesMut> {
    fn clone(&self) -> (copy: Self)
        ensures
            copy@ == self@,
    {
        ByteSlice(bytes_mut_clone(&self.0))
    }
}

impl SplitByteSlice for ByteSlice<Bytes> {
    fn as_bytes(&self) -> (s: &[u8]) {
        bytes_chunk(&self.0)
    }

    fn split_at_unchecked(self, mid: usize) -> (halves: (Self, Self)) {
        let mut rhs = self;
        let lhs = bytes_split_to(&mut rhs.0, mid);
        (ByteSlice(lhs), rhs)
    }
}

impl SplitByteSlice for ByteSlice<BytesMut> {
    fn as_bytes(&self) -> (s: &[u8]) {
        bytes_mut_chunk(&self.0)
    }

    fn split_at_unchecked(self, mid: usize) -> (halves: (Self, Self)) {
        let mut rhs = self;
        let lhs = bytes_mut_split_to(&mut rhs.0, mid);
        (ByteSlice(lhs), rhs)
    }
}

} // verus!

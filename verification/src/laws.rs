//! What holds of the operations of this crate taken together.
//!
//! Each law speaks of outcomes: of any result that the contract of an
//! operation allows on the bytes at hand.

use crate::buf::{get_outcome, peek_outcome};
use crate::byte_slice::SplitByteSlice;
use crate::error::SizeError;
use crate::layout::{checked_len, SliceLayout};
use crate::read_buf::read_outcome;
use vstd::prelude::*;

verus! {

/// A value that is written to a destination and read back from where it
/// was put is the value that was written: the read succeeds, yields the
/// same bytes, and consumes nothing else.
///
/// `written` is what the destination holds after the write; the read starts
/// behind the bytes that it held `before`.
pub proof fn round_trip(
    before: Seq<u8>,
    value: Seq<u8>,
    written: Seq<u8>,
    size: usize,
    res: Result<Vec<u8>, SizeError<()>>,
    after: Seq<u8>,
)
    requires
        written == before + value,
        size == value.len(),
        read_outcome(written.skip(before.len() as int), size, res, after),
    ensures
        res matches Ok(read) && read@ == value,
        after == Seq::<u8>::empty(),
{
    assert(written.skip(before.len() as int) =~= value);
    assert(value.take(size as int) =~= value);
    assert(value.skip(size as int) =~= Seq::<u8>::empty());
}

/// A read from a stream that is too short fails and leaves every byte in
/// place.
pub proof fn short_read_keeps_stream(
    before: Seq<u8>,
    size: usize,
    res: Result<Vec<u8>, SizeError<()>>,
    after: Seq<u8>,
)
    requires
        before.len() < size,
        read_outcome(before, size, res, after),
    ensures
        res is Err,
        after == before,
{
}

/// Detaching a value from a stream that is too short fails and leaves
/// every byte in place.
pub proof fn short_get_keeps_stream<B: SplitByteSlice>(
    before: Seq<u8>,
    size: usize,
    res: Result<B, SizeError<B>>,
    after: Seq<u8>,
)
    requires
        before.len() < size,
        get_outcome(before, Some(size), res, after),
    ensures
        res is Err,
        after == before,
{
}

/// Two looks at the same bytes find the same thing: both succeed with equal
/// regions, or both fail with the same source.
pub proof fn peek_is_idempotent(
    bytes: Seq<u8>,
    required: Option<usize>,
    first: Result<&[u8], SizeError<&[u8]>>,
    second: Result<&[u8], SizeError<&[u8]>>,
)
    requires
        peek_outcome(bytes, required, first),
        peek_outcome(bytes, required, second),
    ensures
        first is Ok <==> second is Ok,
        first is Ok ==> first.unwrap()@ == second.unwrap()@,
        first is Err ==> first.unwrap_err().src()@ == second.unwrap_err().src()@,
{
}

/// Where the chunks of a stream begin and end does not show in what is read
/// from it: two streams that hold the same bytes give the same result and
/// are left with the same bytes.
pub proof fn chunks_do_not_show(
    bytes: Seq<u8>,
    size: usize,
    one: Result<Vec<u8>, SizeError<()>>,
    after_one: Seq<u8>,
    other: Result<Vec<u8>, SizeError<()>>,
    after_other: Seq<u8>,
)
    requires
        read_outcome(bytes, size, one, after_one),
        read_outcome(bytes, size, other, after_other),
    ensures
        one is Ok <==> other is Ok,
        one is Ok ==> one.unwrap()@ == other.unwrap()@,
        after_one == after_other,
{
}

/// An element count whose byte length does not fit in a `usize` is a
/// failure like any other: nothing is detached and the stream keeps every
/// byte.
pub proof fn overflow_is_size_error<B: SplitByteSlice>(
    before: Seq<u8>,
    layout: SliceLayout,
    count: usize,
    res: Result<B, SizeError<B>>,
    after: Seq<u8>,
)
    requires
        layout.elem_size * count > usize::MAX,
        get_outcome(before, checked_len(layout.spec_size_for_elems(count as nat)), res, after),
    ensures
        res is Err,
        after == before,
{
}

} // verus!

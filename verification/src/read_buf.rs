//! Reading a value out of a stream by copying its bytes.

use crate::buf_polyfill::copy_to_uninit_slice;
use crate::error::SizeError;
use crate::stream::Stream;
use vstd::prelude::*;

verus! {

/// A stream from which the bytes of a value can be read into a buffer of
/// their own, wherever the boundaries of its chunks fall.
pub trait ZeroCopyReadBuf: Stream + Sized {
    /// Reads a value of `size` bytes.
    ///
    /// A stream that holds at least `size` bytes gives up its first `size`
    /// bytes. A shorter one fails and keeps every byte it has.
    fn try_read(&mut self, size: usize) -> (res: Result<Vec<u8>, SizeError<()>>)
        ensures
            read_outcome(old(self).bytes(), size, res, final(self).bytes()),
    ;
}

/// What a read of `size` bytes makes of a stream that held `before`: the
/// result `res`, and the bytes `after` that the stream holds then.
pub open spec fn read_outcome(
    before: Seq<u8>,
    size: usize,
    res: Result<Vec<u8>, SizeError<()>>,
    after: Seq<u8>,
) -> bool {
    match res {
        Ok(value) => {
            &&& size <= before.len()
            &&& value@ == before.take(size as int)
            &&& after == before.skip(size as int)
        },
        Err(_) => size > before.len() && after == before,
    }
}

impl<B: Stream> ZeroCopyReadBuf for B {
    fn try_read(&mut self, size: usize) -> (res: Result<Vec<u8>, SizeError<()>>) {
        let mut t: Vec<u8> = vec![0u8; size];
        match copy_to_uninit_slice(self, t.as_mut_slice()) {
            Some(_) => Ok(t),
            None => Err(SizeError::new(())),
        }
    }
}

} // verus!

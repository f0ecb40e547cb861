//! Typed, zero-copy access to byte buffers.
//!
//! A target type is known to this crate by its byte layout alone: a fixed
//! size, or a fixed prefix followed by a trailing array whose element count
//! the caller supplies. Every operation is stated over the bytes that a
//! stream still holds, so that a caller can reason about what was consumed
//! and what was left in place.

pub mod buf;
pub mod buf_mut;
pub mod buf_polyfill;
pub mod byte_slice;
pub mod bytes_spec;
pub mod error;
pub mod laws;
pub mod layout;
pub mod mu_polyfill;
pub mod read_buf;
pub mod stream;

pub use crate::buf::ZeroCopyBuf;
pub use crate::buf_mut::ZeroCopyBufMut;
pub use crate::byte_slice::{ByteSlice, SplitByteSlice};
pub use crate::error::SizeError;
pub use crate::layout::SliceLayout;
pub use crate::read_buf::ZeroCopyReadBuf;
pub use crate::stream::{Sink, Stream};

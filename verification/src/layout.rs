//! What this crate needs to know of a target type: how many bytes a value
//! of it occupies.

use vstd::prelude::*;

verus! {

/// The layout of a type that ends in an array: a fixed part of `offset`
/// bytes, then elements of `elem_size` bytes each, with no padding.
///
/// A plain slice has an `offset` of zero.
#[derive(Clone, Copy, Debug, PartialEq, Eq)]
pub struct SliceLayout {
    /// Where the trailing array begins.
    pub offset: usize,
    /// The size of one element of the trailing array.
    pub elem_size: usize,
}

impl SliceLayout {
    /// The number of bytes that a value with `count` trailing elements
    /// occupies, as a mathematical integer.
    pub open spec fn spec_size_for_elems(self, count: nat) -> nat {
        self.offset as nat + self.elem_size as nat * count
    }

    /// The number of bytes that a value with `count` trailing elements
    /// occupies, or `None` when that number does not fit in a `usize`.
    pub fn size_for_elems(&self, count: usize) -> (res: Option<usize>)
        ensures
            res == checked_len(self.spec_size_for_elems(count as nat)),
    {
        match self.elem_size.checked_mul(count) {
            Some(trailing) => self.offset.checked_add(trailing),
            None => None,
        }
    }
}

/// A length as the machine can hold it: `None` beyond `usize::MAX`.
pub open spec fn checked_len(len: nat) -> Option<usize> {
    if len <= usize::MAX {
        Some(len as usize)
    } else {
        None
    }
}

} // verus!

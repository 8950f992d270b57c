use vstd::prelude::*;

verus! {

/// Why a batch did not complete.
#[derive(Debug, Clone, PartialEq, Eq)]
pub enum BatchError {
    /// The chunk size is not a positive multiple of the part size.
    Configuration { chunk_size: usize, part_size: usize },
    /// The store failed the ranged read of `key` over `[range_start, range_end]`.
    Transport { key: String, range_start: usize, range_end: usize, message: String },
    /// The stream for `key` over `[range_start, range_end]` ended after
    /// `received` of `expected` bytes.
    ShortRead {
        key: String,
        range_start: usize,
        range_end: usize,
        received: usize,
        expected: usize,
    },
}

} // verus!

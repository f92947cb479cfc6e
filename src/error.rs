//! The two error taxonomies, one per direction.

use ps_buffer::BufferError;
use vstd::prelude::*;

verus! {

/// Why a compression failed.
#[derive(Debug, Clone, PartialEq, Eq)]
pub enum CompressionError {
    /// The output buffer could not be allocated.
    BufferError(BufferError),
    /// The output buffer is too small for the compressed frame.
    InsufficientSpace,
    /// The codec failed for another reason.
    CodecError,
}

/// Why a decompression failed.
#[derive(Debug, Clone, PartialEq, Eq)]
pub enum DecompressionError {
    /// The output buffer could not be allocated.
    BufferError(BufferError),
    /// The input is not a frame that declares its size, or the codec rejected it.
    BadData,
    /// The declared decompressed size exceeds the caller's limit.
    TooLarge { size: usize, max: usize },
    /// The output buffer is smaller than the decompressed content.
    InsufficientSpace,
}

impl From<BufferError> for CompressionError {
    fn from(e: BufferError) -> (r: CompressionError)
        ensures
            r == CompressionError::BufferError(e),
    {
        CompressionError::BufferError(e)
    }
}

impl vstd::std_specs::convert::FromSpecImpl<BufferError> for CompressionError {
    open spec fn obeys_from_spec() -> bool {
        true
    }

    open spec fn from_spec(e: BufferError) -> CompressionError {
        CompressionError::BufferError(e)
    }
}

impl From<BufferError> for DecompressionError {
    fn from(e: BufferError) -> (r: DecompressionError)
        ensures
            r == DecompressionError::BufferError(e),
    {
        DecompressionError::BufferError(e)
    }
}

impl vstd::std_specs::convert::FromSpecImpl<BufferError> for DecompressionError {
    open spec fn obeys_from_spec() -> bool {
        true
    }

    open spec fn from_spec(e: BufferError) -> DecompressionError {
        DecompressionError::BufferError(e)
    }
}

} // verus!

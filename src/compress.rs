//! Compression at one fixed level, into a caller's buffer or into one sized by the codec bound.

use crate::error::CompressionError;
use crate::zstd;
use crate::zstd::{
    bound_known, buffer_bytes, compress_bound_spec, means_dst_too_small, zstd_content,
    zstd_declared_size, zstd_decodes, zstd_frame,
};
use ps_buffer::Buffer;
use vstd::prelude::*;

verus! {

/// The level of every compression, so that output depends on the input bytes alone.
pub const ZSTD_LEVEL: i32 = 2;

/// `frame` encodes `data`: it declares the length of `data` as its content size, and
/// decoding accepts it and gives back `data`.
pub open spec fn encodes(data: Seq<u8>, frame: Seq<u8>) -> bool {
    &&& zstd_declared_size(frame) == Some(data.len() as u64)
    &&& zstd_decodes(frame)
    &&& zstd_content(frame) == data
}

/// `frame` is the compressed form of `data`: the frame of the fixed level, which encodes it.
pub open spec fn compresses_to(data: Seq<u8>, frame: Seq<u8>) -> bool {
    &&& frame == zstd_frame(data, ZSTD_LEVEL)
    &&& encodes(data, frame)
}

/// Whether a buffer of `out_len` bytes has room for the worst case of compressing `data`.
pub open spec fn has_bound_room(data: Seq<u8>, out_len: nat) -> bool {
    bound_known(data.len() as usize) && out_len >= compress_bound_spec(data.len() as usize)
}

/// The library's error for a failure code of the encoder.
pub open spec fn compress_failure(code: usize) -> CompressionError {
    if means_dst_too_small(code) {
        CompressionError::InsufficientSpace
    } else {
        CompressionError::CodecError
    }
}

/// Turns the encoder's result into the library's: a count stays, a failure code becomes
/// `InsufficientSpace` when it means the destination was too small and `CodecError` otherwise.
pub fn compression_outcome(raw: Result<usize, usize>) -> (r: Result<usize, CompressionError>)
    ensures
        r == match raw {
            Ok(n) => Ok(n),
            Err(code) => Err(compress_failure(code)),
        },
{
    match raw {
        Ok(n) => Ok(n),
        Err(code) => {
            if zstd::is_dst_too_small(code) {
                Err(CompressionError::InsufficientSpace)
            } else {
                Err(CompressionError::CodecError)
            }
        },
    }
}

/// Compresses `data` into `out_data` and returns the number of bytes written; the bytes
/// after them are unspecified. A buffer of at least the compression bound always receives
/// the fixed frame; a shorter one may receive another frame that encodes `data`, or fail.
pub fn compress_into(data: &[u8], out_data: &mut [u8]) -> (r: Result<usize, CompressionError>)
    ensures
        final(out_data)@.len() == old(out_data)@.len(),
        r matches Ok(n) ==> n <= old(out_data)@.len() && encodes(
            data@,
            final(out_data)@.subrange(0, n as int),
        ),
        has_bound_room(data@, old(out_data)@.len()) ==> (r matches Ok(n) && compresses_to(
            data@,
            final(out_data)@.subrange(0, n as int),
        )),
        r matches Err(e) ==> e is InsufficientSpace || e is CodecError,
{
    let raw = zstd::compress(data, out_data, ZSTD_LEVEL);
    compression_outcome(raw)
}

/// Compresses `data` into a buffer allocated to the compression bound and cut to the frame.
/// Below zstd's maximum input size only the allocation can fail.
pub fn compress(data: &[u8]) -> (r: Result<Buffer, CompressionError>)
    ensures
        r matches Ok(b) ==> encodes(data@, buffer_bytes(b)),
        bound_known(data@.len() as usize) ==> (r matches Ok(b) ==> compresses_to(
            data@,
            buffer_bytes(b),
        ) && buffer_bytes(b).len() <= compress_bound_spec(data@.len() as usize)),
        bound_known(data@.len() as usize) ==> (r matches Err(e) ==> e is BufferError),
{
    let out_size = zstd::compress_bound(data.len());
    let mut out_data = match zstd::alloc_buffer(out_size) {
        Ok(b) => b,
        Err(e) => return Err(CompressionError::from(e)),
    };
    let size = {
        let out_slice = zstd::buffer_slice_mut(&mut out_data);
        match compress_into(data, out_slice) {
            Ok(n) => n,
            Err(e) => return Err(e),
        }
    };
    let ghost written = buffer_bytes(out_data).subrange(0, size as int);
    if size < out_size {
        zstd::truncate_buffer(&mut out_data, size);
    }
    proof {
        assert(buffer_bytes(out_data) =~= written);
    }
    Ok(out_data)
}

} // verus!

//! Decompression into a caller's buffer or into one sized from the frame header.

use crate::error::DecompressionError;
use crate::zstd;
use crate::zstd::{buffer_bytes, means_dst_too_small, required_size, zstd_content, zstd_decodes};
use ps_buffer::Buffer;
use vstd::prelude::*;

verus! {

/// `out` is what decoding `frame` yields.
pub open spec fn decompresses_to(frame: Seq<u8>, out: Seq<u8>) -> bool {
    out == zstd_content(frame)
}

/// `frame` is accepted by decoding and declares exactly the length of its content.
pub open spec fn decodable(frame: Seq<u8>) -> bool {
    &&& zstd_decodes(frame)
    &&& required_size(frame) matches Some(n) && n == zstd_content(frame).len()
}

/// The size to allocate for `data`, or the error that stops before any work.
pub open spec fn size_check(data: Seq<u8>) -> Result<usize, DecompressionError> {
    match required_size(data) {
        Some(n) => Ok(n),
        None => Err(DecompressionError::BadData),
    }
}

/// As `size_check`, with a limit that the declared size may not exceed.
pub open spec fn bounded_size_check(data: Seq<u8>, max: usize) -> Result<usize, DecompressionError> {
    match required_size(data) {
        Some(n) => if n > max {
            Err(DecompressionError::TooLarge { size: n, max })
        } else {
            Ok(n)
        },
        None => Err(DecompressionError::BadData),
    }
}

/// The check that decoding into a buffer of `out_len` bytes passes first.
pub open spec fn into_size_check(data: Seq<u8>, out_len: nat) -> Result<usize, DecompressionError> {
    match required_size(data) {
        Some(n) => if n > out_len {
            Err(DecompressionError::InsufficientSpace)
        } else {
            Ok(n)
        },
        None => Err(DecompressionError::BadData),
    }
}

/// The library's error for a failure code of the decoder.
pub open spec fn decompress_failure(code: usize) -> DecompressionError {
    if means_dst_too_small(code) {
        DecompressionError::InsufficientSpace
    } else {
        DecompressionError::BadData
    }
}

/// Reads the decompressed size that `data` declares; without one the input is bad data.
pub fn required_out_size(data: &[u8]) -> (r: Result<usize, DecompressionError>)
    ensures
        r == size_check(data@),
{
    match zstd::frame_content_size(data) {
        Some(n) => Ok(n),
        None => Err(DecompressionError::BadData),
    }
}

/// Reads the decompressed size that `data` declares and holds it to `max_output_bytes`.
pub fn required_out_size_bounded(data: &[u8], max_output_bytes: usize) -> (r: Result<
    usize,
    DecompressionError,
>)
    ensures
        r == bounded_size_check(data@, max_output_bytes),
{
    let out_size = match required_out_size(data) {
        Ok(n) => n,
        Err(e) => return Err(e),
    };
    if out_size > max_output_bytes {
        return Err(DecompressionError::TooLarge { size: out_size, max: max_output_bytes });
    }
    Ok(out_size)
}

/// Turns the decoder's result into the library's: a count stays, a failure code becomes
/// `InsufficientSpace` when it means the destination was too small and `BadData` otherwise.
pub fn decompression_outcome(raw: Result<usize, usize>) -> (r: Result<usize, DecompressionError>)
    ensures
        r == match raw {
            Ok(n) => Ok(n),
            Err(code) => Err(decompress_failure(code)),
        },
{
    match raw {
        Ok(n) => Ok(n),
        Err(code) => {
            if zstd::is_dst_too_small(code) {
                Err(DecompressionError::InsufficientSpace)
            } else {
                Err(DecompressionError::BadData)
            }
        },
    }
}

/// Decompresses `data` into `out_data` and returns the number of bytes written.
///
/// Fails with `BadData` when `data` declares no usable size, and with `InsufficientSpace`
/// when the declared size exceeds `out_data`, in both cases before any decoding. A failure
/// of the decoder itself is `InsufficientSpace` or `BadData` by its code. A decodable frame
/// always decodes into a buffer with room for its content.
pub fn decompress_into(data: &[u8], out_data: &mut [u8]) -> (r: Result<usize, DecompressionError>)
    ensures
        final(out_data)@.len() == old(out_data)@.len(),
        decodable(data@) && old(out_data)@.len() >= zstd_content(data@).len() ==> (r matches Ok(
            n,
        ) && n == zstd_content(data@).len()),
        into_size_check(data@, old(out_data)@.len()) matches Err(e) ==> r == Err::<
            usize,
            DecompressionError,
        >(e) && final(out_data)@ == old(out_data)@,
        r matches Ok(n) ==> into_size_check(data@, old(out_data)@.len()) is Ok && n <= old(
            out_data,
        )@.len() && decompresses_to(data@, final(out_data)@.subrange(0, n as int)),
        r matches Err(e) ==> e is BadData || e is InsufficientSpace,
{
    let expected_size = match required_out_size(data) {
        Ok(n) => n,
        Err(e) => return Err(e),
    };
    if expected_size > out_data.len() {
        return Err(DecompressionError::InsufficientSpace);
    }
    let raw = zstd::decompress(data, out_data);
    decompression_outcome(raw)
}

/// Decompresses `data` into a buffer allocated to the size its frame header declares.
///
/// Fails with `BadData` when no usable size is declared, before allocating; with
/// `BufferError` when allocation fails; otherwise as `decompress_into` does. A decodable
/// frame fails only in allocation.
pub fn decompress(data: &[u8]) -> (r: Result<Buffer, DecompressionError>)
    ensures
        size_check(data@) matches Err(e) ==> r matches Err(f) && f == e,
        r matches Ok(b) ==> size_check(data@) matches Ok(n) && buffer_bytes(b).len() <= n
            && decompresses_to(data@, buffer_bytes(b)),
        decodable(data@) ==> (r matches Err(e) ==> e is BufferError),
        r matches Err(e) ==> !(e is TooLarge),
{
    let out_size = match required_out_size(data) {
        Ok(n) => n,
        Err(e) => return Err(e),
    };
    decompress_sized(data, out_size)
}

/// Decompresses `data` as `decompress` does, refusing a declared size above
/// `max_output_bytes` with `TooLarge` before anything is allocated. A decodable frame whose
/// content fits the limit fails only in allocation.
pub fn decompress_bounded(data: &[u8], max_output_bytes: usize) -> (r: Result<
    Buffer,
    DecompressionError,
>)
    ensures
        bounded_size_check(data@, max_output_bytes) matches Err(e) ==> r matches Err(f) && f
            == e,
        r matches Ok(b) ==> bounded_size_check(data@, max_output_bytes) matches Ok(n)
            && buffer_bytes(b).len() <= n && decompresses_to(data@, buffer_bytes(b)),
        decodable(data@) && zstd_content(data@).len() <= max_output_bytes ==> (r matches Err(e)
            ==> e is BufferError),
        r matches Err(e) ==> !(e is TooLarge) || bounded_size_check(data@, max_output_bytes) is Err,
{
    let out_size = match required_out_size_bounded(data, max_output_bytes) {
        Ok(n) => n,
        Err(e) => return Err(e),
    };
    decompress_sized(data, out_size)
}

/// Allocates `out_size` bytes, decodes into them and keeps the written prefix.
fn decompress_sized(data: &[u8], out_size: usize) -> (r: Result<Buffer, DecompressionError>)
    requires
        required_size(data@) == Some(out_size),
    ensures
        r matches Ok(b) ==> buffer_bytes(b).len() <= out_size && decompresses_to(
            data@,
            buffer_bytes(b),
        ),
        r matches Err(e) ==> !(e is TooLarge),
        decodable(data@) ==> (r matches Err(e) ==> e is BufferError),
{
    let mut out_data = match zstd::alloc_buffer(out_size) {
        Ok(b) => b,
        Err(e) => return Err(DecompressionError::from(e)),
    };
    let size = {
        let out_slice = zstd::buffer_slice_mut(&mut out_data);
        match decompress_into(data, out_slice) {
            Ok(n) => n,
            Err(e) => return Err(e),
        }
    };
    if size < out_size {
        zstd::truncate_buffer(&mut out_data, size);
    }
    proof {
        assert(buffer_bytes(out_data) =~= zstd_content(data@));
    }
    Ok(out_data)
}

} // verus!

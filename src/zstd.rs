//! The boundary with the zstd codec and the byte buffer it writes into.

use ps_buffer::{Buffer, BufferError};
use vstd::prelude::*;

verus! {

/// ps_buffer's byte buffer, opaque here; its bytes are `buffer_bytes`.
#[verifier::external_type_specification]
#[verifier::external_body]
pub struct ExBuffer(Buffer);

/// ps_buffer's allocation error, carried through unread.
#[verifier::external_type_specification]
#[verifier::external_body]
pub struct ExBufferError(ps_buffer::BufferError);

/// Relies on ps_buffer::BufferError's derived Clone, which the error types' Clone calls;
/// nothing is claimed of the copy.
pub assume_specification[ <ps_buffer::BufferError as std::clone::Clone>::clone ](
    e: &ps_buffer::BufferError,
) -> ps_buffer::BufferError;

/// The bytes a buffer holds, up to its length.
pub uninterp spec fn buffer_bytes(b: Buffer) -> Seq<u8>;

/// The frame that single-pass compression of `data` at `level` produces when the
/// destination holds at least the compression bound.
pub uninterp spec fn zstd_frame(data: Seq<u8>, level: i32) -> Seq<u8>;

/// Whether `frame` is input that one-shot decompression accepts, given room for its content.
pub uninterp spec fn zstd_decodes(frame: Seq<u8>) -> bool;

/// Everything that one-shot decompression of `frame` yields.
pub uninterp spec fn zstd_content(frame: Seq<u8>) -> Seq<u8>;

/// The content size declared in the header of the first frame of `data`, if any.
pub uninterp spec fn zstd_declared_size(data: Seq<u8>) -> Option<u64>;

/// The fixed description that zstd gives of the result code `code`.
pub uninterp spec fn zstd_error_name(code: usize) -> Seq<char>;

/// zstd's worst-case compressed size for `n` input bytes, below its maximum input size.
pub open spec fn compress_bound_spec(n: usize) -> int {
    n + n / 256 + if n < 131072 {
        (131072 - n) / 2048
    } else {
        0
    }
}

/// Whether `n` is below zstd's maximum input size, for which the bound is the formula.
pub open spec fn bound_known(n: usize) -> bool {
    ||| n < 0xFF00_FF00
    ||| (usize::MAX == u64::MAX && n < 0xFF00_FF00_FF00_FF00u64)
}

/// The size that `data` declares for its decompressed content, when it fits a `usize`.
pub open spec fn required_size(data: Seq<u8>) -> Option<usize> {
    match zstd_declared_size(data) {
        Some(n) => if n <= usize::MAX {
            Some(n as usize)
        } else {
            None
        },
        None => None,
    }
}

/// Whether `code` is zstd's "destination too small" failure.
pub open spec fn means_dst_too_small(code: usize) -> bool {
    zstd_error_name(code) == dst_too_small_name()
}

/// zstd's description of the "destination too small" failure.
pub open spec fn dst_too_small_name() -> Seq<char> {
    "Destination buffer is too small"@
}

/// Relies on ps_buffer::Buffer::alloc_uninit: on success, a buffer whose length is exactly
/// `length` and whose bytes are unspecified.
#[verifier::external_body]
pub fn alloc_buffer(length: usize) -> (r: Result<Buffer, BufferError>)
    ensures
        r matches Ok(b) ==> buffer_bytes(b).len() == length,
{
    Buffer::alloc_uninit(length)
}

/// Relies on ps_buffer::Buffer::truncate: a length not above the current one becomes the
/// new length and keeps the bytes before it; a larger one changes nothing.
#[verifier::external_body]
pub fn truncate_buffer(b: &mut Buffer, len: usize)
    ensures
        len <= buffer_bytes(*old(b)).len() ==> buffer_bytes(*final(b)) == buffer_bytes(
            *old(b),
        ).subrange(0, len as int),
        len > buffer_bytes(*old(b)).len() ==> buffer_bytes(*final(b)) == buffer_bytes(*old(b)),
{
    b.truncate(len);
}

/// Relies on ps_buffer::Buffer::as_mut_slice: the buffer's bytes as a slice, through which
/// writes land in the buffer.
#[verifier::external_body]
pub fn buffer_slice_mut(b: &mut Buffer) -> (r: &mut [u8])
    ensures
        r@ == buffer_bytes(*old(b)),
        buffer_bytes(*final(b)) == final(r)@,
{
    b.as_mut_slice()
}

/// Relies on zstd_safe::compress_bound (ZSTD_compressBound): the bound zstd documents for
/// single-pass compression of `input_size` bytes, below its maximum input size.
#[verifier::external_body]
pub fn compress_bound(input_size: usize) -> (r: usize)
    ensures
        bound_known(input_size) ==> r == compress_bound_spec(input_size),
{
    zstd_safe::compress_bound(input_size)
}

/// Relies on zstd_safe::compress (ZSTD_compress): on success it wrote one complete frame to
/// the front of `out_data` and returned its length; a single-pass frame declares its content
/// size and decodes back to the input. With a destination of at least the compression bound
/// it succeeds, and the frame is a function of the input and level alone.
#[verifier::external_body]
pub fn compress(data: &[u8], out_data: &mut [u8], level: i32) -> (r: Result<usize, usize>)
    ensures
        final(out_data)@.len() == old(out_data)@.len(),
        r matches Ok(n) ==> n <= old(out_data)@.len(),
        r matches Ok(n) ==> zstd_declared_size(final(out_data)@.subrange(0, n as int)) == Some(
            data@.len() as u64,
        ),
        r matches Ok(n) ==> zstd_content(final(out_data)@.subrange(0, n as int)) == data@,
        r matches Ok(n) ==> zstd_decodes(final(out_data)@.subrange(0, n as int)),
        bound_known(data@.len() as usize) && old(out_data)@.len() >= compress_bound_spec(
            data@.len() as usize,
        ) ==> (r matches Ok(n) && final(out_data)@.subrange(0, n as int) == zstd_frame(
            data@,
            level,
        )),
{
    zstd_safe::compress(out_data, data, level)
}

/// Relies on zstd_safe::decompress (ZSTD_decompress): on success it wrote the whole decoded
/// content to the front of `out_data` and returned its length; accepted input decodes
/// whenever the destination has room for its content.
#[verifier::external_body]
pub fn decompress(data: &[u8], out_data: &mut [u8]) -> (r: Result<usize, usize>)
    ensures
        final(out_data)@.len() == old(out_data)@.len(),
        zstd_decodes(data@) && old(out_data)@.len() >= zstd_content(data@).len() ==> r is Ok,
        r matches Ok(n) ==> n <= old(out_data)@.len() && final(out_data)@.subrange(0, n as int)
            == zstd_content(data@),
{
    zstd_safe::decompress(out_data, data)
}

/// Relies on zstd_safe::get_frame_content_size (ZSTD_getFrameContentSize): the content size
/// that the first frame header declares; an absent field and an unreadable header give none.
#[verifier::external_body]
fn declared_content_size(data: &[u8]) -> (r: Option<u64>)
    ensures
        r == zstd_declared_size(data@),
{
    match zstd_safe::get_frame_content_size(data) {
        Ok(Some(size)) => Some(size),
        Ok(None) => None,
        Err(_) => None,
    }
}

/// Relies on zstd_safe::get_error_name (ZSTD_getErrorName): the description of a result code,
/// which depends on the code alone.
#[verifier::external_body]
fn error_name(code: usize) -> (r: String)
    ensures
        r@ == zstd_error_name(code),
{
    zstd_safe::get_error_name(code).to_string()
}

/// Reads the decompressed size that the frame header of `data` declares, without decoding.
/// Gives `None` when the header is missing, malformed, silent on the size, or declares a
/// size that does not fit a `usize`.
pub fn frame_content_size(data: &[u8]) -> (r: Option<usize>)
    ensures
        r == required_size(data@),
{
    match declared_content_size(data) {
        Some(size) => {
            if size <= usize::MAX as u64 {
                Some(size as usize)
            } else {
                None
            }
        },
        None => None,
    }
}

/// Whether a failure code of the codec means that the destination buffer was too small.
pub fn is_dst_too_small(code: usize) -> (r: bool)
    ensures
        r == means_dst_too_small(code),
{
    let name = error_name(code);
    let expected = "Destination buffer is too small".to_string();
    proof {
        reveal_strlit("Destination buffer is too small");
    }
    name == expected
}

} // verus!

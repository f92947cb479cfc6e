//! Laws that relate compression and decompression.

use crate::compress::{compresses_to, encodes};
use crate::decompress::{
    bounded_size_check, decodable, decompresses_to, into_size_check, size_check,
};
use crate::error::DecompressionError;
use crate::zstd::zstd_content;
use vstd::prelude::*;

verus! {

/// What compression produced is decodable, so every decompression entry decodes it into
/// any buffer at least as long as the original, and gives back the original bytes.
pub proof fn round_trip(data: Seq<u8>, frame: Seq<u8>, out: Seq<u8>, out_len: nat)
    requires
        data.len() <= usize::MAX,
        encodes(data, frame),
        decompresses_to(frame, out),
        out_len >= data.len(),
    ensures
        decodable(frame),
        zstd_content(frame).len() == data.len(),
        out == data,
        size_check(frame) == Ok::<usize, DecompressionError>(data.len() as usize),
        into_size_check(frame, out_len) == Ok::<usize, DecompressionError>(data.len() as usize),
{
}

/// Compressing the same bytes twice gives the same frame.
pub proof fn compression_is_deterministic(data: Seq<u8>, a: Seq<u8>, b: Seq<u8>)
    requires
        compresses_to(data, a),
        compresses_to(data, b),
    ensures
        a == b,
{
}

/// Compressing into a caller's buffer writes exactly the frame that the allocating
/// compression returns, and reports its length.
pub proof fn compress_into_matches_compress(data: Seq<u8>, frame: Seq<u8>, out: Seq<u8>, n: nat)
    requires
        compresses_to(data, frame),
        n <= out.len(),
        compresses_to(data, out.subrange(0, n as int)),
    ensures
        n == frame.len(),
        out.subrange(0, n as int) == frame,
{
}

/// A buffer shorter than the original bytes is refused as too small before any decoding.
pub proof fn short_buffer_is_insufficient(data: Seq<u8>, frame: Seq<u8>, out_len: nat)
    requires
        data.len() <= usize::MAX,
        encodes(data, frame),
        out_len < data.len(),
    ensures
        into_size_check(frame, out_len) == Err::<usize, DecompressionError>(
            DecompressionError::InsufficientSpace,
        ),
{
}

/// Decoding into a buffer longer than needed reports the length of the original bytes,
/// and the prefix of that length is the original.
pub proof fn larger_buffer_gets_exact_count(data: Seq<u8>, frame: Seq<u8>, out: Seq<u8>, n: nat)
    requires
        encodes(data, frame),
        n <= out.len(),
        decompresses_to(frame, out.subrange(0, n as int)),
    ensures
        n == data.len(),
        out.subrange(0, n as int) == data,
{
}

/// The bounded decompression of a compressed frame refuses it with `TooLarge`, carrying the
/// true size and the limit, exactly when the original is longer than the limit; otherwise
/// the frame is decodable within the limit.
pub proof fn declared_size_bounds_limit(data: Seq<u8>, frame: Seq<u8>, max: usize)
    requires
        data.len() <= usize::MAX,
        encodes(data, frame),
    ensures
        data.len() <= max ==> decodable(frame) && zstd_content(frame).len() <= max,
        bounded_size_check(frame, max) == if data.len() > max {
            Err(DecompressionError::TooLarge { size: data.len() as usize, max })
        } else {
            Ok(data.len() as usize)
        },
{
}

/// Any two successful decodings of one frame agree, so bounded and unbounded decompression
/// return the same bytes.
pub proof fn bounded_matches_unbounded(frame: Seq<u8>, a: Seq<u8>, b: Seq<u8>)
    requires
        decompresses_to(frame, a),
        decompresses_to(frame, b),
    ensures
        a == b,
{
}

/// An empty input compresses to a decodable frame that declares size zero, passes the size
/// check of a zero-length buffer, and decodes to nothing.
pub proof fn zero_length_payload(frame: Seq<u8>, out: Seq<u8>)
    requires
        encodes(Seq::empty(), frame),
        decompresses_to(frame, out),
    ensures
        decodable(frame),
        zstd_content(frame).len() == 0,
        out.len() == 0,
        size_check(frame) == Ok::<usize, DecompressionError>(0),
        into_size_check(frame, 0) == Ok::<usize, DecompressionError>(0),
{
}

/// Raising the limit of bounded decompression never turns an accepted size into a refusal.
pub proof fn raising_limit_keeps_acceptance(frame: Seq<u8>, max: usize, larger: usize)
    requires
        max <= larger,
        bounded_size_check(frame, max) is Ok,
    ensures
        bounded_size_check(frame, larger) == bounded_size_check(frame, max),
{
}

} // verus!

//! Deterministic Zstandard compression helpers for small payloads.
//!
//! Every compression uses one fixed level, so identical inputs give identical frames.
//! Decompression sizes its output from the frame header and reports a closed set of errors.

mod compress;
mod decompress;
mod error;
mod laws;
mod zstd;

pub use compress::{
    compress, compress_into, compresses_to, compression_outcome, encodes, has_bound_room,
    ZSTD_LEVEL,
};
pub use decompress::{
    bounded_size_check, decodable, decompress, decompress_bounded, decompress_into, decompresses_to,
    decompression_outcome, into_size_check, required_out_size, required_out_size_bounded,
    size_check,
};
pub use error::{CompressionError, DecompressionError};
pub use laws::{
    bounded_matches_unbounded, compress_into_matches_compress, compression_is_deterministic,
    declared_size_bounds_limit, larger_buffer_gets_exact_count, raising_limit_keeps_acceptance,
    round_trip,
    short_buffer_is_insufficient, zero_length_payload,
};
pub use zstd::{buffer_bytes, frame_content_size, is_dst_too_small, required_size};

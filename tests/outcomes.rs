use ps_zstd::{
    compress, compress_into, compression_outcome, decompress, decompress_bounded,
    decompress_into, decompression_outcome, frame_content_size, is_dst_too_small,
    required_out_size, required_out_size_bounded, CompressionError, DecompressionError,
    ZSTD_LEVEL,
};

// zstd reports its error number e as the result code 0 - e; 70 is "destination too small".
fn error_code(number: usize) -> usize {
    0usize.wrapping_sub(number)
}

fn pattern(len: usize) -> Vec<u8> {
    (0..len).map(|i| (i * 7 % 13) as u8).collect()
}

#[test]
fn fixed_level_is_two() {
    assert_eq!(ZSTD_LEVEL, 2);
}

#[test]
fn dst_too_small_code_is_recognised() {
    assert!(is_dst_too_small(error_code(70)));
    assert!(!is_dst_too_small(error_code(1)));
    assert!(!is_dst_too_small(error_code(20)));
    assert!(!is_dst_too_small(0));
}

#[test]
fn compression_outcome_maps_codes() {
    assert_eq!(compression_outcome(Ok(17)), Ok(17));
    assert_eq!(
        compression_outcome(Err(error_code(70))),
        Err(CompressionError::InsufficientSpace)
    );
    assert_eq!(
        compression_outcome(Err(error_code(1))),
        Err(CompressionError::CodecError)
    );
}

#[test]
fn decompression_outcome_maps_codes() {
    assert_eq!(decompression_outcome(Ok(5)), Ok(5));
    assert_eq!(
        decompression_outcome(Err(error_code(70))),
        Err(DecompressionError::InsufficientSpace)
    );
    assert_eq!(
        decompression_outcome(Err(error_code(20))),
        Err(DecompressionError::BadData)
    );
}

#[test]
fn frame_declares_exact_content_size() {
    let payload = pattern(300);
    let compressed = compress(&payload).expect("compression should succeed");
    assert_eq!(frame_content_size(&compressed), Some(300));
    assert_eq!(required_out_size(&compressed), Ok(300));
    assert_eq!(frame_content_size(&[]), None);
    assert_eq!(required_out_size(&[]), Err(DecompressionError::BadData));
}

#[test]
fn bounded_size_check_reports_limit() {
    let payload = pattern(100);
    let compressed = compress(&payload).expect("compression should succeed");
    assert_eq!(required_out_size_bounded(&compressed, 100), Ok(100));
    assert_eq!(
        required_out_size_bounded(&compressed, 99),
        Err(DecompressionError::TooLarge { size: 100, max: 99 })
    );
    assert_eq!(
        required_out_size_bounded(&[1, 2, 3], 4096),
        Err(DecompressionError::BadData)
    );
}

#[test]
fn compressed_frame_differs_from_input() {
    let payload = vec![0u8; 4096];
    let compressed = compress(&payload).expect("compression should succeed");
    assert!(compressed.len() < payload.len());
    assert_eq!(&compressed[..4], &[0x28, 0xB5, 0x2F, 0xFD]);
}

#[test]
fn compress_into_zero_capacity_is_insufficient() {
    let payload = pattern(64);
    let mut out = [0u8; 0];
    assert_eq!(
        compress_into(&payload, &mut out),
        Err(CompressionError::InsufficientSpace)
    );
}

#[test]
fn decompress_into_zero_capacity_for_non_empty_payload() {
    let payload = pattern(10);
    let compressed = compress(&payload).expect("compression should succeed");
    let mut out = [0u8; 0];
    assert_eq!(
        decompress_into(&compressed, &mut out),
        Err(DecompressionError::InsufficientSpace)
    );
}

#[test]
fn decompress_into_leaves_buffer_untouched_on_size_refusal() {
    let payload = pattern(50);
    let compressed = compress(&payload).expect("compression should succeed");
    let mut out = vec![0x5Au8; 49];
    assert_eq!(
        decompress_into(&compressed, &mut out),
        Err(DecompressionError::InsufficientSpace)
    );
    assert!(out.iter().all(|b| *b == 0x5A));
}

#[test]
fn zero_length_payload_through_every_entry() {
    let compressed = compress(&[]).expect("compression should succeed");
    assert_eq!(frame_content_size(&compressed), Some(0));
    let bounded = decompress_bounded(&compressed, 0).expect("decompression should succeed");
    assert_eq!(bounded.len(), 0);
    let plain = decompress(&compressed).expect("decompression should succeed");
    assert_eq!(plain.len(), 0);
    let mut out = vec![9u8; 4];
    assert_eq!(decompress_into(&compressed, &mut out), Ok(0));
}

#[test]
fn bounded_decompression_matches_unbounded() {
    let payload = pattern(1000);
    let compressed = compress(&payload).expect("compression should succeed");
    let bounded = decompress_bounded(&compressed, 1000).expect("decompression should succeed");
    let plain = decompress(&compressed).expect("decompression should succeed");
    assert_eq!(bounded.as_slice(), plain.as_slice());
    assert_eq!(
        decompress_bounded(&compressed, 999).expect_err("must fail"),
        DecompressionError::TooLarge { size: 1000, max: 999 }
    );
}

#[test]
fn frame_without_size_is_bad_data() {
    // A frame whose header omits the content size: descriptor 0, a window byte, and one
    // empty last raw block.
    let unsized_frame = [0x28u8, 0xB5, 0x2F, 0xFD, 0x00, 0x50, 0x01, 0x00, 0x00];
    assert_eq!(frame_content_size(&unsized_frame), None);
    assert_eq!(
        decompress(&unsized_frame).expect_err("must fail"),
        DecompressionError::BadData
    );
    let mut out = vec![0u8; 64];
    assert_eq!(
        decompress_into(&unsized_frame, &mut out),
        Err(DecompressionError::BadData)
    );
}

#[test]
fn skippable_frame_declares_size_zero() {
    let skippable = [0x50u8, 0x2A, 0x4D, 0x18, 0, 0, 0, 0];
    assert_eq!(frame_content_size(&skippable), Some(0));
}

fn documented_bound(n: usize) -> usize {
    n + n / 256 + if n < 131072 { (131072 - n) / 2048 } else { 0 }
}

#[test]
fn compress_into_bound_sized_buffer_matches_compress() {
    for len in [0usize, 1, 100, 4096, 20000] {
        let payload: Vec<u8> = (0..len).map(|i| (i * 31 % 251) as u8).collect();
        let compressed = compress(&payload).expect("compression should succeed");
        assert!(compressed.len() <= documented_bound(len));
        let mut out = vec![0u8; documented_bound(len)];
        let written = compress_into(&payload, &mut out).expect("compress_into should succeed");
        assert_eq!(&out[..written], compressed.as_slice());
    }
}

#[test]
fn raising_the_limit_keeps_success() {
    let payload = pattern(256);
    let compressed = compress(&payload).expect("compression should succeed");
    for max in [256usize, 257, 4096, usize::MAX] {
        let out = decompress_bounded(&compressed, max).expect("decompression should succeed");
        assert_eq!(out.as_slice(), payload.as_slice());
    }
}

//! Runtime checks of the structural core: pyramid geometry, the blur scan
//! schedule, planar data movement, and the input validation protocol.

use ssimulacra2::BlurImpl;
use ssimulacra2::LibblurBackend;
use ssimulacra2::RADIUS;
use ssimulacra2::ScanPhase;
use ssimulacra2::Ssimulacra2Error;
use ssimulacra2::check_data_len;
use ssimulacra2::check_image_size;
use ssimulacra2::check_matching_dimensions;
use ssimulacra2::column_chunks;
use ssimulacra2::deinterleave3;
use ssimulacra2::downscale_block_axis;
use ssimulacra2::downscaled_dim;
use ssimulacra2::emit_index;
use ssimulacra2::left_tap;
use ssimulacra2::num_scales;
use ssimulacra2::right_tap;
use ssimulacra2::scale_dims;
use ssimulacra2::scan_phase;
use ssimulacra2::scan_steps;
use ssimulacra2::transpose_plane;
use ssimulacra2::validate_pair;
use ssimulacra2::NUM_SCALES;

#[test]
fn test_downscaled_dim_is_ceil_half() {
    assert_eq!(downscaled_dim(0), 0);
    assert_eq!(downscaled_dim(1), 1);
    assert_eq!(downscaled_dim(2), 1);
    assert_eq!(downscaled_dim(8), 4);
    assert_eq!(downscaled_dim(25), 13);
    assert_eq!(downscaled_dim(1920), 960);
}

#[test]
fn test_num_scales_small_images() {
    assert_eq!(num_scales(8, 8), 1);
    assert_eq!(num_scales(9, 9), 2);
    assert_eq!(num_scales(16, 16), 2);
    assert_eq!(num_scales(64, 64), 4);
    assert_eq!(num_scales(100, 50), 4);
    assert_eq!(num_scales(128, 96), 5);
}

#[test]
fn test_num_scales_caps_at_six() {
    assert_eq!(num_scales(256, 256), 6);
    assert_eq!(num_scales(512, 512), 6);
    assert_eq!(num_scales(1920, 1080), 6);
    assert_eq!(NUM_SCALES, 6);
}

#[test]
fn test_num_scales_undersized_image() {
    assert_eq!(num_scales(7, 100), 0);
    assert_eq!(num_scales(100, 7), 0);
    assert_eq!(num_scales(0, 0), 0);
}

#[test]
fn test_scale_dims_sequence() {
    assert_eq!(
        scale_dims(100, 50),
        vec![(100, 50), (50, 25), (25, 13), (13, 7)]
    );
    // A scale at the 8-pixel limit is never downscaled further...
    assert_eq!(scale_dims(8, 8), vec![(8, 8)]);
    // ...but a child that lands below the limit is still emitted.
    assert_eq!(scale_dims(9, 9), vec![(9, 9), (5, 5)]);
    assert_eq!(scale_dims(7, 7), vec![]);
}

#[test]
fn test_scale_dims_descends_while_above_limit() {
    let dims = scale_dims(1920, 1080);
    assert_eq!(dims.len(), 6);
    assert_eq!(dims[0], (1920, 1080));
    assert_eq!(dims[5], (60, 34));

    // Every scale before the last exceeds the limit in both axes; the
    // last may fall below it.
    let dims = scale_dims(128, 96);
    assert_eq!(
        dims,
        vec![(128, 96), (64, 48), (32, 24), (16, 12), (8, 6)]
    );
    for &(w, h) in &dims[..dims.len() - 1] {
        assert!(w > 8 && h > 8);
    }
}

#[test]
fn test_downscale_block_axis() {
    assert_eq!(downscale_block_axis(0, 1), (0, None));
    assert_eq!(downscale_block_axis(0, 2), (0, Some(1)));
    assert_eq!(downscale_block_axis(12, 25), (24, None));
    assert_eq!(downscale_block_axis(12, 26), (24, Some(25)));
}

#[test]
fn test_scan_steps_extends_line() {
    assert_eq!(RADIUS, 5);
    assert_eq!(scan_steps(10), 14);
    assert_eq!(scan_steps(1), 5);
}

#[test]
fn test_scan_phase_transitions() {
    // A 10-sample line: 4 priming steps, 10 emitting steps, then done.
    for t in 0..4 {
        assert_eq!(scan_phase(t, 10), ScanPhase::Priming);
    }
    for t in 4..14 {
        assert_eq!(scan_phase(t, 10), ScanPhase::Emitting);
    }
    assert_eq!(scan_phase(14, 10), ScanPhase::Done);
}

#[test]
fn test_taps_at_line_start() {
    // Leading tap enters the line immediately; trailing tap lags by 2*RADIUS.
    assert_eq!(right_tap(0, 10), Some(0));
    assert_eq!(right_tap(9, 10), Some(9));
    assert_eq!(right_tap(10, 10), None);
    assert_eq!(left_tap(0, 10), None);
    assert_eq!(left_tap(9, 10), None);
    assert_eq!(left_tap(10, 10), Some(0));
    assert_eq!(left_tap(13, 10), Some(3));
}

#[test]
fn test_emit_indices_cover_line_once() {
    let len = 23;
    let mut emitted = vec![0usize; len];
    for t in 0..scan_steps(len) {
        if let Some(i) = emit_index(t, len) {
            emitted[i] += 1;
        }
    }
    assert!(emitted.iter().all(|&c| c == 1));
    assert_eq!(emit_index(RADIUS - 1, len), Some(0));
}

#[test]
fn test_column_chunks_greedy_sizes() {
    assert_eq!(column_chunks(0), vec![]);
    assert_eq!(column_chunks(1), vec![(0, 1)]);
    assert_eq!(column_chunks(3), vec![(0, 1), (1, 1), (2, 1)]);
    assert_eq!(column_chunks(4), vec![(0, 4)]);
    assert_eq!(column_chunks(133), vec![(0, 128), (128, 4), (132, 1)]);
    assert_eq!(column_chunks(260), vec![(0, 128), (128, 128), (256, 4)]);
}

#[test]
fn test_column_chunks_partition() {
    let width = 517;
    let plan = column_chunks(width);
    let mut next = 0usize;
    for (start, size) in plan {
        assert_eq!(start, next);
        assert!(size == 128 || size == 32 || size == 4 || size == 1);
        next = start + size;
    }
    assert_eq!(next, width);
}

#[test]
fn test_transpose_plane_2x3() {
    // 3 columns, 2 rows, row-major.
    let input: Vec<u32> = vec![1, 2, 3, 4, 5, 6];
    let out = transpose_plane(&input, 3, 2);
    assert_eq!(out, vec![1, 4, 2, 5, 3, 6]);
}

#[test]
fn test_transpose_plane_round_trip() {
    let width = 7;
    let height = 5;
    let input: Vec<u32> = (0..(width * height) as u32).collect();
    let once = transpose_plane(&input, width, height);
    let twice = transpose_plane(&once, height, width);
    assert_eq!(twice, input);
}

#[test]
fn test_deinterleave3_preserves_order() {
    let data: Vec<(u8, u8, u8)> = vec![(1, 2, 3), (4, 5, 6), (7, 8, 9)];
    let (p0, p1, p2) = deinterleave3(&data);
    assert_eq!(p0, vec![1, 4, 7]);
    assert_eq!(p1, vec![2, 5, 8]);
    assert_eq!(p2, vec![3, 6, 9]);
}

#[test]
fn test_transpose_plane_single_row() {
    let input: Vec<i64> = vec![10, 20, 30, 40];
    // A 4x1 plane transposes to a 1x4 plane with the same flat layout.
    assert_eq!(transpose_plane(&input, 4, 1), input);
    assert_eq!(transpose_plane(&input, 1, 4), input);
}

#[test]
fn test_deinterleave3_empty() {
    let data: Vec<(u32, u32, u32)> = vec![];
    let (p0, p1, p2) = deinterleave3(&data);
    assert!(p0.is_empty() && p1.is_empty() && p2.is_empty());
}

#[test]
fn test_column_chunks_exact_group_widths() {
    assert_eq!(column_chunks(32), vec![(0, 32)]);
    assert_eq!(column_chunks(128), vec![(0, 128)]);
    assert_eq!(column_chunks(132), vec![(0, 128), (128, 4)]);
}

#[test]
fn test_scale_dims_len_matches_num_scales() {
    for (w, h) in [(8, 8), (64, 64), (100, 50), (7, 7), (1920, 1080)] {
        assert_eq!(scale_dims(w, h).len(), num_scales(w, h));
    }
}

#[test]
fn test_emit_index_priming_steps() {
    for t in 0..RADIUS - 1 {
        assert_eq!(emit_index(t, 5), None);
    }
    assert_eq!(emit_index(RADIUS - 1, 5), Some(0));
}

#[test]
fn test_check_data_len() {
    assert!(check_data_len(6, 2, 3).is_ok());
    assert_eq!(
        check_data_len(5, 2, 3),
        Err(Ssimulacra2Error::LinearRgbConversionFailed)
    );
    // An area beyond usize::MAX cannot be a buffer length.
    assert_eq!(
        check_data_len(usize::MAX, usize::MAX, 2),
        Err(Ssimulacra2Error::LinearRgbConversionFailed)
    );
}

#[test]
fn test_check_image_size() {
    assert!(check_image_size(8, 8).is_ok());
    assert_eq!(check_image_size(7, 8), Err(Ssimulacra2Error::InvalidImageSize));
    assert_eq!(check_image_size(8, 7), Err(Ssimulacra2Error::InvalidImageSize));
}

#[test]
fn test_check_matching_dimensions() {
    assert!(check_matching_dimensions(64, 32, 64, 32).is_ok());
    assert_eq!(
        check_matching_dimensions(64, 32, 32, 64),
        Err(Ssimulacra2Error::NonMatchingImageDimensions)
    );
}

#[test]
fn test_validate_pair_error_precedence() {
    assert!(validate_pair(8, 8, 8, 8).is_ok());
    // A mismatch is reported even when both images are also undersized.
    assert_eq!(
        validate_pair(4, 4, 5, 5),
        Err(Ssimulacra2Error::NonMatchingImageDimensions)
    );
    assert_eq!(
        validate_pair(4, 4, 4, 4),
        Err(Ssimulacra2Error::InvalidImageSize)
    );
}

#[test]
fn test_blur_impl_names() {
    assert_eq!(BlurImpl::Scalar.name(), "scalar");
    assert_eq!(BlurImpl::Simd.name(), "simd (wide crate)");
    assert_eq!(BlurImpl::SimdTranspose.name(), "simd-transpose (cache-optimized)");
    assert_eq!(BlurImpl::default(), BlurImpl::Simd);
}

#[test]
fn test_libblur_backend_shrink() {
    let mut backend = LibblurBackend::new(1920, 1080);
    assert_eq!(backend.width(), 1920);
    assert_eq!(backend.height(), 1080);
    backend.shrink_to(960, 540);
    assert_eq!(backend.width(), 960);
    assert_eq!(backend.height(), 540);
}

#[test]
fn test_error_messages_distinct() {
    let variants = [
        Ssimulacra2Error::LinearRgbConversionFailed,
        Ssimulacra2Error::InvalidImageSize,
        Ssimulacra2Error::NonMatchingImageDimensions,
        Ssimulacra2Error::GaussianBlurError,
    ];
    for (i, a) in variants.iter().enumerate() {
        assert!(!a.message().is_empty());
        for b in variants.iter().skip(i + 1) {
            assert_ne!(a.message(), b.message());
        }
    }
}

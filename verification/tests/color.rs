use video_engine::color::{convert_pixel, frame_is_covered, yuv_to_rgba, Rgba};

fn float_channel(v: f32) -> u8 {
    v as u8
}

fn float_pixel(y: u8, u: u8, v: u8) -> [u8; 3] {
    let y = y as f32;
    let u = u as f32;
    let v = v as f32;
    [
        float_channel(1.164 * (y - 16.0) + 1.596 * (v - 128.0)),
        float_channel(1.164 * (y - 16.0) - 0.813 * (v - 128.0) - 0.391 * (u - 128.0)),
        float_channel(1.164 * (y - 16.0) + 2.018 * (u - 128.0)),
    ]
}

#[test]
fn black_in_studio_range_is_black() {
    assert_eq!(convert_pixel(16, 128, 128), Rgba { r: 0, g: 0, b: 0, a: 255 });
}

#[test]
fn white_in_studio_range_is_white_within_one() {
    let p = convert_pixel(235, 128, 128);
    // 1.164 * 219 = 254.916, rounded toward zero
    assert_eq!(p, Rgba { r: 254, g: 254, b: 254, a: 255 });
    assert!(255 - p.r <= 1 && 255 - p.g <= 1 && 255 - p.b <= 1);
}

#[test]
fn channels_follow_the_formulas() {
    // r = 1.164 * 84 + 1.596 * 72 = 212.688
    // g = 1.164 * 84 - 0.813 * 72 - 0.391 * -78 = 69.738
    // b = 1.164 * 84 + 2.018 * -78 = -59.628
    assert_eq!(convert_pixel(100, 50, 200), Rgba { r: 212, g: 69, b: 0, a: 255 });
    // r = 1.164 * 34 + 1.596 * -28 = -5.112
    // g = 1.164 * 34 - 0.813 * -28 - 0.391 * 72 = 34.188
    // b = 1.164 * 34 + 2.018 * 72 = 184.872
    assert_eq!(convert_pixel(50, 200, 100), Rgba { r: 0, g: 34, b: 184, a: 255 });
}

#[test]
fn channels_clamp_at_both_ends() {
    // r = 1.164 * 239 + 1.596 * 127 = 480.888
    assert_eq!(convert_pixel(255, 128, 255).r, 255);
    // b = 1.164 * 239 + 2.018 * 127 = 534.482
    assert_eq!(convert_pixel(255, 255, 128).b, 255);
    // everything below zero
    assert_eq!(convert_pixel(0, 0, 0), Rgba { r: 0, g: 135, b: 0, a: 255 });
    // g = 1.164 * -16 + 0.813 * 128 + 0.391 * 128 = 135.488
}

#[test]
fn channel_that_is_a_whole_number_is_kept_whole() {
    // g = 1.164 * -16 - 0.813 * -88 - 0.391 * 120 = 6.000
    // b = 1.164 * -16 + 2.018 * 120 = 223.536
    assert_eq!(convert_pixel(0, 248, 40), Rgba { r: 0, g: 6, b: 223, a: 255 });
}

#[test]
fn alpha_is_always_opaque() {
    for y in [0u8, 16, 128, 235, 255] {
        for u in [0u8, 128, 255] {
            for v in [0u8, 128, 255] {
                assert_eq!(convert_pixel(y, u, v).a, 255);
            }
        }
    }
}

#[test]
fn exact_channels_stay_within_one_of_single_precision() {
    for y in 0..=255u8 {
        for u in (0..=255u8).step_by(5) {
            for v in (0..=255u8).step_by(3) {
                let p = convert_pixel(y, u, v);
                let f = float_pixel(y, u, v);
                assert!((p.r as i32 - f[0] as i32).abs() <= 1, "r at {y} {u} {v}");
                assert!((p.g as i32 - f[1] as i32).abs() <= 1, "g at {y} {u} {v}");
                assert!((p.b as i32 - f[2] as i32).abs() <= 1, "b at {y} {u} {v}");
            }
        }
    }
}

// A frame of four by two pixels: eight luma bytes, then one row of two
// chroma pairs.
fn small_frame() -> Vec<u8> {
    vec![
        16, 235, 100, 50, // luma, row 0
        255, 0, 81, 145, // luma, row 1
        128, 128, 50, 200, // (U, V) of columns 0-1, (U, V) of columns 2-3
    ]
}

#[test]
fn full_size_image_reads_luma_per_pixel_and_chroma_per_block() {
    let frame = small_frame();
    let rgba = yuv_to_rgba(&frame, 4, 2, 1);
    assert_eq!(rgba.len(), 4 * 4 * 2);
    let expect = [
        convert_pixel(16, 128, 128),
        convert_pixel(235, 128, 128),
        convert_pixel(100, 50, 200),
        convert_pixel(50, 50, 200),
        convert_pixel(255, 128, 128),
        convert_pixel(0, 128, 128),
        convert_pixel(81, 50, 200),
        convert_pixel(145, 50, 200),
    ];
    for (k, p) in expect.iter().enumerate() {
        assert_eq!(&rgba[4 * k..4 * k + 4], &[p.r, p.g, p.b, p.a], "pixel {k}");
    }
    assert_eq!(&rgba[0..8], &[0, 0, 0, 255, 254, 254, 254, 255]);
    assert_eq!(&rgba[8..12], &[212, 69, 0, 255]);
}

#[test]
fn downscaled_image_keeps_every_second_pixel() {
    let frame = small_frame();
    let rgba = yuv_to_rgba(&frame, 4, 2, 2);
    let a = convert_pixel(16, 128, 128);
    let b = convert_pixel(100, 50, 200);
    assert_eq!(rgba, vec![a.r, a.g, a.b, a.a, b.r, b.g, b.b, b.a]);
}

#[test]
fn chroma_row_follows_the_source_row() {
    // Two by four pixels: each pair of rows has its own chroma row.
    let frame = vec![
        100, 100, // row 0
        100, 100, // row 1
        100, 100, // row 2
        100, 100, // row 3
        128, 128, // chroma of rows 0-1
        50, 200, // chroma of rows 2-3
    ];
    let rgba = yuv_to_rgba(&frame, 2, 4, 1);
    let plain = convert_pixel(100, 128, 128);
    let tinted = convert_pixel(100, 50, 200);
    assert_eq!(rgba.len(), 32);
    for k in 0..4 {
        assert_eq!(&rgba[4 * k..4 * k + 4], &[plain.r, plain.g, plain.b, 255]);
    }
    for k in 4..8 {
        assert_eq!(&rgba[4 * k..4 * k + 4], &[tinted.r, tinted.g, tinted.b, 255]);
    }
}

#[test]
fn image_is_empty_when_downscale_exceeds_a_dimension() {
    let frame = small_frame();
    assert_eq!(yuv_to_rgba(&frame, 4, 2, 3), Vec::<u8>::new());
    assert_eq!(yuv_to_rgba(&[], 0, 0, 1), Vec::<u8>::new());
    assert_eq!(yuv_to_rgba(&[], 7, 9, 10), Vec::<u8>::new());
}

#[test]
fn coverage_is_decided_by_the_last_chroma_pair() {
    // four by two, full size: the last read is byte 8 + 0 + 2 + 1 = 11
    assert!(frame_is_covered(12, 4, 2, 1));
    assert!(!frame_is_covered(11, 4, 2, 1));
    // downscaled by two: the last pixel is (2, 0), its pair ends at byte 11
    assert!(frame_is_covered(12, 4, 2, 2));
    assert!(!frame_is_covered(11, 4, 2, 2));
    // nothing is read where the image is empty
    assert!(frame_is_covered(0, 4, 2, 5));
    assert!(frame_is_covered(0, 0, 0, 1));
    // large dimensions do not overflow
    assert!(!frame_is_covered(usize::MAX, u32::MAX, u32::MAX, 1));
}

#[test]
fn one_pixel_frame_needs_three_bytes() {
    assert!(!frame_is_covered(2, 1, 1, 1));
    assert!(frame_is_covered(3, 1, 1, 1));
    let rgba = yuv_to_rgba(&[235, 128, 128], 1, 1, 1);
    assert_eq!(rgba, vec![254, 254, 254, 255]);
}

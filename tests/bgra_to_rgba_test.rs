use xcap::bgra_to_rgba::{convert_bgra_to_rgba_row, convert_bgra_to_rgba_simd};

/// Per-pixel reference: swap the first and third byte of every pixel.
fn convert_bgra_to_rgba_scalar_test(src: &[u8]) -> Vec<u8> {
    let pixel_count = src.len() / 4;
    let mut dst = Vec::with_capacity(pixel_count * 4);
    for i in 0..pixel_count {
        let o = i * 4;
        dst.push(src[o + 2]);
        dst.push(src[o + 1]);
        dst.push(src[o]);
        dst.push(src[o + 3]);
    }
    dst
}

fn test_simd_vs_scalar(bgra_data: &[u8]) {
    let mut simd_result = Vec::new();
    convert_bgra_to_rgba_simd(bgra_data, &mut simd_result);
    let scalar_result = convert_bgra_to_rgba_scalar_test(bgra_data);
    assert_eq!(simd_result.len(), scalar_result.len());
    for (i, (simd, scalar)) in simd_result.iter().zip(scalar_result.iter()).enumerate() {
        assert_eq!(simd, scalar, "byte {} differs", i);
    }
}

fn pattern(pixels: usize) -> Vec<u8> {
    let mut bgra = Vec::new();
    for i in 0..pixels {
        bgra.push((i * 4) as u8);
        bgra.push((i * 4 + 1) as u8);
        bgra.push((i * 4 + 2) as u8);
        bgra.push((i * 4 + 3) as u8);
    }
    bgra
}

#[test]
fn test_single_pixel() {
    let bgra = vec![0x11, 0x22, 0x33, 0xFF];
    test_simd_vs_scalar(&bgra);
}

#[test]
fn test_two_pixels() {
    let bgra = vec![0x11, 0x22, 0x33, 0xFF, 0x44, 0x55, 0x66, 0xAA];
    test_simd_vs_scalar(&bgra);
}

#[test]
fn test_four_pixels() {
    let bgra = vec![
        0x11, 0x22, 0x33, 0xFF, 0x44, 0x55, 0x66, 0xAA, 0x77, 0x88, 0x99, 0xBB, 0xAA, 0xBB, 0xCC,
        0xDD,
    ];
    test_simd_vs_scalar(&bgra);
}

#[test]
fn test_eight_pixels() {
    let bgra = vec![
        0x11, 0x22, 0x33, 0xFF, 0x44, 0x55, 0x66, 0xAA, 0x77, 0x88, 0x99, 0xBB, 0xAA, 0xBB, 0xCC,
        0xDD, 0x01, 0x02, 0x03, 0x04, 0x05, 0x06, 0x07, 0x08, 0x09, 0x0A, 0x0B, 0x0C, 0x0D, 0x0E,
        0x0F, 0x10,
    ];
    test_simd_vs_scalar(&bgra);
}

#[test]
fn test_nine_pixels() {
    let bgra = vec![
        0x11, 0x22, 0x33, 0xFF, 0x44, 0x55, 0x66, 0xAA, 0x77, 0x88, 0x99, 0xBB, 0xAA, 0xBB, 0xCC,
        0xDD, 0x01, 0x02, 0x03, 0x04, 0x05, 0x06, 0x07, 0x08, 0x09, 0x0A, 0x0B, 0x0C, 0x0D, 0x0E,
        0x0F, 0x10, 0x20, 0x21, 0x22, 0x23,
    ];
    test_simd_vs_scalar(&bgra);
}

#[test]
fn test_large_buffer() {
    test_simd_vs_scalar(&pattern(100));
}

#[test]
fn test_various_sizes() {
    for size in 1..=20 {
        test_simd_vs_scalar(&pattern(size));
    }
}

#[test]
fn conversion_matches_reference_for_listed_counts() {
    for n in [0usize, 1, 2, 3, 4, 7, 8, 9, 16, 17, 100] {
        test_simd_vs_scalar(&pattern(n));
    }
}

#[test]
fn conversion_exact_bytes_of_one_pixel() {
    let mut out = Vec::new();
    convert_bgra_to_rgba_simd(&[0x11, 0x22, 0x33, 0xFF], &mut out);
    assert_eq!(out, vec![0x33, 0x22, 0x11, 0xFF]);
}

#[test]
fn conversion_keeps_length_and_ignores_partial_pixel() {
    let mut out = vec![9u8; 40];
    let src = pattern(5);
    convert_bgra_to_rgba_simd(&src, &mut out);
    assert_eq!(out.len(), src.len());
    let mut odd = pattern(3);
    odd.push(0x77);
    odd.push(0x78);
    convert_bgra_to_rgba_simd(&odd, &mut out);
    assert_eq!(out.len(), 12);
    assert_eq!(out, convert_bgra_to_rgba_scalar_test(&pattern(3)));
}

#[test]
fn conversion_of_empty_buffer_is_empty() {
    let mut out = vec![1u8, 2, 3];
    convert_bgra_to_rgba_simd(&[], &mut out);
    assert!(out.is_empty());
}

#[test]
fn row_conversion_reads_only_its_pixels() {
    // Two rows of two pixels, each row padded with four bytes.
    let src = vec![
        1, 2, 3, 4, 5, 6, 7, 8, 0xEE, 0xEE, 0xEE, 0xEE, 9, 10, 11, 12, 13, 14, 15, 16, 0xEE, 0xEE,
        0xEE, 0xEE,
    ];
    let mut out = vec![0xAB];
    convert_bgra_to_rgba_row(&src, 12, &mut out, 2);
    assert_eq!(out, vec![0xAB, 11, 10, 9, 12, 15, 14, 13, 16]);
}

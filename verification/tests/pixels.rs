use cosmic_audio_bg::pixels::{aligned_bytes_per_row, unpad_rows, xrgb8888_from_rgba};

#[test]
fn rows_are_padded_to_the_copy_alignment() {
    assert_eq!(aligned_bytes_per_row(1920), 7680);
    assert_eq!(aligned_bytes_per_row(0), 0);
    assert_eq!(aligned_bytes_per_row(1), 256);
    assert_eq!(aligned_bytes_per_row(64), 256);
    assert_eq!(aligned_bytes_per_row(65), 512);
    assert_eq!(aligned_bytes_per_row(1366), 5632);
}

#[test]
fn unpadding_keeps_each_rows_pixels() {
    // Two rows of one pixel each, rows 8 bytes apart.
    let data = [1u8, 2, 3, 4, 99, 99, 99, 99, 5, 6, 7, 8];
    assert_eq!(unpad_rows(&data, 1, 2, 8), vec![1, 2, 3, 4, 5, 6, 7, 8]);
    assert_eq!(unpad_rows(&data, 1, 0, 8), Vec::<u8>::new());
    assert_eq!(unpad_rows(&data[..4], 1, 1, 256), vec![1, 2, 3, 4]);
    let width = 3u32;
    let height = 4u32;
    let stride = aligned_bytes_per_row(width);
    let buffer: Vec<u8> = (0..stride * height).map(|i| (i % 251) as u8).collect();
    let pixels = unpad_rows(&buffer, width, height, stride);
    assert_eq!(pixels.len(), (width * height * 4) as usize);
    for row in 0..height as usize {
        let start = row * stride as usize;
        assert_eq!(
            &pixels[row * 12..row * 12 + 12],
            &buffer[start..start + 12]
        );
    }
}

#[test]
fn rgba_becomes_little_endian_xrgb() {
    let rgba = [10u8, 20, 30, 255, 1, 2, 3, 4, 9];
    let out = xrgb8888_from_rgba(&rgba);
    assert_eq!(out, vec![30, 20, 10, 0, 3, 2, 1, 0]);
    for (p, px) in rgba.chunks_exact(4).enumerate() {
        let [r, g, b, _] = [px[0], px[1], px[2], px[3]];
        let packed = (u32::from(r) << 16) | (u32::from(g) << 8) | u32::from(b);
        assert_eq!(&out[p * 4..p * 4 + 4], &packed.to_le_bytes());
    }
    assert!(xrgb8888_from_rgba(&[]).is_empty());
}

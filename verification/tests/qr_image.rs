use qr_overlay::qr_image::{decode_qr_image, verify_qr_overlay};

/// The 45 overlay-path coordinates for an `n`-module symbol, spelled out
/// segment by segment.
fn overlay_coords(n: u32) -> Vec<(u32, u32)> {
    let w = n - 1;
    let f = 7u32;
    let mut coords = Vec::new();
    for row in ((w - f)..=w).rev() {
        coords.push((f, row));
    }
    for col in (0..f).rev() {
        coords.push((col, w - f));
    }
    for col in 0..=f {
        coords.push((col, f));
    }
    for row in (0..f).rev() {
        coords.push((f, row));
    }
    for row in 0..=f {
        coords.push((w - f, row));
    }
    for col in (w - f + 1)..=w {
        coords.push((col, f));
    }
    coords
}

fn watermarked_image(n: u32, payload: &[u8]) -> image::DynamicImage {
    let bits = qr_overlay::fingerprint::derive(payload, 45);
    let mut data = vec![200u8; (n * n) as usize];
    for (k, (col, row)) in overlay_coords(n).iter().enumerate() {
        data[(row * n + col) as usize] = if bits[k] == 0 { 255 } else { 0 };
    }
    image::DynamicImage::ImageLuma8(image::GrayImage::from_raw(n, n, data).unwrap())
}

#[test]
fn verify_qr_overlay_accepts_watermarked_image() {
    let img = watermarked_image(21, b"TEST");
    assert!(verify_qr_overlay(&img, b"TEST"));
}

#[test]
fn verify_qr_overlay_rejects_other_payload() {
    let img = watermarked_image(21, b"TEST");
    assert!(!verify_qr_overlay(&img, b"TSET"));
}

#[test]
fn verify_qr_overlay_rejects_non_square_image() {
    let img = image::DynamicImage::ImageLuma8(
        image::GrayImage::from_raw(20, 21, vec![255u8; 20 * 21]).unwrap(),
    );
    assert!(!verify_qr_overlay(&img, b"TEST"));
}

#[test]
fn decode_qr_image_finds_nothing_in_blank_image() {
    let img = image::DynamicImage::ImageLuma8(
        image::GrayImage::from_raw(64, 64, vec![255u8; 64 * 64]).unwrap(),
    );
    assert_eq!(decode_qr_image(&img), None);
}

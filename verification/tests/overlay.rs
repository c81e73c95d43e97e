use qr_overlay::geometry::{segments, Axis, Segment};
use qr_overlay::grid::{sample, PixelGrid};
use qr_overlay::overlay::{bits_equal, verify};
use qr_overlay::qr_image::first_decoded;
use qr_overlay::walker::walk;

/// The 45 (column, row) coordinates of the overlay path for an `n`-module
/// symbol, spelled out segment by segment, independent of the library's own
/// geometry table.
fn path_coords(n: u32) -> Vec<(u32, u32)> {
    let w = n - 1;
    let f = 7u32;
    let mut coords = Vec::new();
    for row in ((w - f)..=w).rev() {
        coords.push((f, row));
    }
    for col in (0..f).rev() {
        coords.push((col, w - f));
    }
    for col in 0..=f {
        coords.push((col, f));
    }
    for row in (0..f).rev() {
        coords.push((f, row));
    }
    for row in 0..=f {
        coords.push((w - f, row));
    }
    for col in (w - f + 1)..=w {
        coords.push((col, f));
    }
    coords
}

/// A square grid whose pixels vary but follow no watermark.
fn arbitrary_grid(n: u32) -> Vec<u8> {
    let mut data = Vec::new();
    for row in 0..n {
        for col in 0..n {
            if (col + row) % 3 == 0 {
                data.push(255);
            } else {
                data.push(((col * 31 + row * 17) % 200) as u8);
            }
        }
    }
    data
}

/// Writes the given bits into the separator pixels of a raw buffer: white
/// for a 0 bit, black for a 1 bit.
fn embed(data: &mut [u8], n: u32, bits: &[u8]) {
    let coords = path_coords(n);
    assert_eq!(coords.len(), bits.len());
    for (k, (col, row)) in coords.iter().enumerate() {
        data[(row * n + col) as usize] = if bits[k] == 0 { 255 } else { 0 };
    }
}

#[test]
fn verify_rejects_non_square() {
    let grid = PixelGrid::new(20, 21, vec![255; 20 * 21]).unwrap();
    assert!(!verify(&grid, b"anything"));
}

#[test]
fn verify_rejects_small_square() {
    let grid = PixelGrid::new(20, 20, vec![255; 400]).unwrap();
    assert!(!verify(&grid, b"anything"));
}

#[test]
fn pixel_grid_rejects_wrong_buffer_length() {
    assert!(PixelGrid::new(3, 3, vec![0; 8]).is_none());
    assert!(PixelGrid::new(3, 3, vec![0; 10]).is_none());
    assert!(PixelGrid::new(3, 3, vec![0; 9]).is_some());
}

#[test]
fn sample_reads_white_as_zero_and_rest_as_one() {
    let grid = PixelGrid::new(3, 1, vec![255, 254, 0]).unwrap();
    assert_eq!(sample(&grid, 0, 0), 0);
    assert_eq!(sample(&grid, 1, 0), 1);
    assert_eq!(sample(&grid, 2, 0), 1);
}

#[test]
fn walk_direction_symmetry() {
    let grid = PixelGrid::new(21, 21, arbitrary_grid(21)).unwrap();
    let down = walk(&grid, (7, 20), (7, 13), Axis::Vertical);
    let up = walk(&grid, (7, 13), (7, 20), Axis::Vertical);
    let mut up_reversed = up.clone();
    up_reversed.reverse();
    assert_eq!(down, up_reversed);
    assert_eq!(down.len(), 8);
}

#[test]
fn walk_horizontal_both_directions() {
    let grid = PixelGrid::new(4, 1, vec![255, 0, 255, 0]).unwrap();
    assert_eq!(walk(&grid, (0, 0), (3, 0), Axis::Horizontal), vec![0, 1, 0, 1]);
    assert_eq!(walk(&grid, (3, 0), (0, 0), Axis::Horizontal), vec![1, 0, 1, 0]);
}

#[test]
fn walk_degenerate_single_pixel() {
    let grid = PixelGrid::new(2, 2, vec![255, 0, 0, 255]).unwrap();
    assert_eq!(walk(&grid, (1, 1), (1, 1), Axis::Vertical), vec![0]);
    assert_eq!(walk(&grid, (1, 0), (1, 0), Axis::Horizontal), vec![1]);
}

#[test]
fn segments_for_smallest_symbol() {
    let expected = vec![
        Segment { start: (7, 20), stop: (7, 13), axis: Axis::Vertical },
        Segment { start: (6, 13), stop: (0, 13), axis: Axis::Horizontal },
        Segment { start: (0, 7), stop: (7, 7), axis: Axis::Horizontal },
        Segment { start: (7, 6), stop: (7, 0), axis: Axis::Vertical },
        Segment { start: (13, 0), stop: (13, 7), axis: Axis::Vertical },
        Segment { start: (14, 7), stop: (20, 7), axis: Axis::Horizontal },
    ];
    assert_eq!(segments(21), expected);
}

#[test]
fn segments_total_45_modules_and_match_path() {
    for n in [21u32, 25, 33, 177] {
        let segs = segments(n);
        let mut walked: Vec<(u32, u32)> = Vec::new();
        for seg in &segs {
            match seg.axis {
                Axis::Vertical => {
                    let (a, b) = (seg.start.1, seg.stop.1);
                    if a <= b {
                        for row in a..=b {
                            walked.push((seg.start.0, row));
                        }
                    } else {
                        for row in (b..=a).rev() {
                            walked.push((seg.start.0, row));
                        }
                    }
                }
                Axis::Horizontal => {
                    let (a, b) = (seg.start.0, seg.stop.0);
                    if a <= b {
                        for col in a..=b {
                            walked.push((col, seg.start.1));
                        }
                    } else {
                        for col in (b..=a).rev() {
                            walked.push((col, seg.start.1));
                        }
                    }
                }
            }
        }
        assert_eq!(walked, path_coords(n));
    }
}

#[test]
fn derive_is_deterministic_and_a_digest_prefix() {
    let first = qr_overlay::fingerprint::derive(b"hello", 45);
    let second = qr_overlay::fingerprint::derive(b"hello", 45);
    assert_eq!(first, second);
    assert_eq!(first.len(), 45);
    let full = qr_overlay::fingerprint::derive(b"hello", 256);
    assert_eq!(full.len(), 256);
    assert_eq!(&full[0..45], &first[..]);
}

#[test]
fn derive_matches_known_sha256() {
    // SHA-256 of "hello" begins 2c f2 4d ba 5f b0 ...
    let expected = vec![
        0, 0, 1, 0, 1, 1, 0, 0, // 0x2c
        1, 1, 1, 1, 0, 0, 1, 0, // 0xf2
        0, 1, 0, 0, 1, 1, 0, 1, // 0x4d
        1, 0, 1, 1, 1, 0, 1, 0, // 0xba
        0, 1, 0, 1, 1, 1, 1, 1, // 0x5f
        1, 0, 1, 1, 0, // leading bits of 0xb0
    ];
    assert_eq!(qr_overlay::fingerprint::derive(b"hello", 45), expected);
}

#[test]
fn expand_bits_msb_first() {
    let bytes = vec![0b1011_0000u8, 0xFF];
    let bits = qr_overlay::fingerprint::expand_bits(&bytes, 12);
    assert_eq!(bits, vec![1, 0, 1, 1, 0, 0, 0, 0, 1, 1, 1, 1]);
    assert_eq!(qr_overlay::fingerprint::expand_bits(&bytes, 0), Vec::<u8>::new());
}

#[test]
fn bits_equal_is_exact_and_order_sensitive() {
    assert!(bits_equal(&vec![0, 1, 1], &vec![0, 1, 1]));
    assert!(!bits_equal(&vec![0, 1, 1], &vec![1, 1, 0]));
    assert!(!bits_equal(&vec![0, 1], &vec![0, 1, 1]));
    assert!(bits_equal(&Vec::new(), &Vec::new()));
}

#[test]
fn first_decoded_picks_first_success() {
    let results: Vec<Result<String, String>> = vec![
        Err("noise".to_string()),
        Ok("payload".to_string()),
        Ok("later".to_string()),
    ];
    assert_eq!(first_decoded(&results), Some("payload".to_string()));
}

#[test]
fn first_decoded_handles_no_success() {
    let empty: Vec<Result<String, String>> = Vec::new();
    assert_eq!(first_decoded(&empty), None);
    let failures: Vec<Result<String, String>> =
        vec![Err("a".to_string()), Err("b".to_string())];
    assert_eq!(first_decoded(&failures), None);
}

#[test]
fn end_to_end_watermarked_grid_verifies() {
    let n = 21u32;
    let bits = qr_overlay::fingerprint::derive(b"TEST", 45);
    let mut data = arbitrary_grid(n);
    embed(&mut data, n, &bits);
    let grid = PixelGrid::new(n, n, data).unwrap();
    assert!(verify(&grid, b"TEST"));
}

#[test]
fn end_to_end_any_flipped_pixel_fails() {
    let n = 21u32;
    let bits = qr_overlay::fingerprint::derive(b"TEST", 45);
    let mut data = arbitrary_grid(n);
    embed(&mut data, n, &bits);
    let coords = path_coords(n);
    for k in 0..45 {
        let mut tampered = data.clone();
        let idx = (coords[k].1 * n + coords[k].0) as usize;
        tampered[idx] = if tampered[idx] == 255 { 0 } else { 255 };
        let grid = PixelGrid::new(n, n, tampered).unwrap();
        assert!(!verify(&grid, b"TEST"), "flip at path position {} went unnoticed", k);
    }
}

#[test]
fn swapped_payload_is_rejected() {
    let n = 25u32;
    let bits = qr_overlay::fingerprint::derive(b"genuine message", 45);
    let mut data = arbitrary_grid(n);
    embed(&mut data, n, &bits);
    let grid = PixelGrid::new(n, n, data).unwrap();
    assert!(verify(&grid, b"genuine message"));
    assert!(!verify(&grid, b"forged message"));
}

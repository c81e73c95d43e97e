//! The image-facing rim of the library: grayscale conversion and QR payload
//! decoding are done by the image and bardecoder crates behind trusted
//! declarations; everything downstream of their results is verified.

use vstd::prelude::*;

use crate::grid::PixelGrid;
use crate::overlay::verify;

verus! {

/// Declares image::DynamicImage so that it can stand in signatures; its
/// contents stay opaque here.
#[verifier::external_type_specification]
#[verifier::external_body]
pub struct ExDynamicImage(image::DynamicImage);

/// Relies on image::DynamicImage::to_luma8 and ImageBuffer: the grayscale
/// rendering of the image as (width, height, buffer), the buffer row-major
/// with exactly one intensity byte per pixel.
#[verifier::external_body]
fn to_grayscale(img: &image::DynamicImage) -> (r: (u32, u32, Vec<u8>))
    ensures
        r.2@.len() == r.0 * r.1,
{
    let gray = img.to_luma8();
    let width = gray.width();
    let height = gray.height();
    (width, height, gray.into_raw())
}

/// Relies on bardecoder's default decoder: one entry per QR code detected in
/// the image, the payload text on success, the decoder's error rendered as
/// text on failure. Nothing is assumed of the entries.
#[verifier::external_body]
fn decode_results(img: &image::DynamicImage) -> (r: Vec<Result<String, String>>)
{
    let decoder = bardecoder::default_decoder();
    let results = decoder.decode(img);
    results.into_iter().map(|res| res.map_err(|e| format!("{}", e))).collect()
}

/// The first successful entry, if any: the payload the caller should claim.
pub open spec fn first_ok(results: Seq<Result<String, String>>) -> Option<String>
    decreases results.len(),
{
    if results.len() == 0 {
        None
    } else {
        match results[0] {
            Ok(s) => Some(s),
            Err(_) => first_ok(results.drop_first()),
        }
    }
}

/// Picks the first successful decode out of a result list, or `None` when
/// the list is empty or holds only failures.
pub fn first_decoded(results: &Vec<Result<String, String>>) -> (r: Option<String>)
    ensures
        r == first_ok(results@),
{
    let n = results.len();
    let mut i: usize = 0;
    proof {
        assert(results@.skip(0) =~= results@);
    }
    while i < n
        invariant
            i <= n,
            n == results@.len(),
            first_ok(results@) == first_ok(results@.skip(i as int)),
        decreases n - i,
    {
        match &results[i] {
            Ok(s) => {
                proof {
                    assert(results@.skip(i as int)[0] == results@[i as int]);
                }
                return Some(s.clone());
            },
            Err(_) => {
                proof {
                    assert(results@.skip(i as int)[0] == results@[i as int]);
                    assert(results@.skip(i as int).drop_first() =~= results@.skip(i as int + 1));
                }
            },
        }
        i = i + 1;
    }
    proof {
        assert(results@.skip(n as int) =~= Seq::<Result<String, String>>::empty());
    }
    None
}

/// Decodes the QR payload carried by an image: runs the external decoder and
/// returns the first successfully decoded payload, or `None` when the
/// decoder found nothing or only failures. What the decoder reports depends
/// on the image alone, but is not modelled here.
pub fn decode_qr_image(img: &image::DynamicImage) -> (r: Option<String>) {
    let results = decode_results(img);
    first_decoded(&results)
}

/// Checks an image against a claimed payload: renders it grayscale through
/// the image crate, then runs the verified overlay check on the resulting
/// pixel grid. The answer for that grid is exactly `verify`'s: `true` only
/// for a square grid of at least 21 modules whose overlay path carries the
/// payload's watermark.
pub fn verify_qr_overlay(img: &image::DynamicImage, payload: &[u8]) -> (r: bool) {
    let (width, height, data) = to_grayscale(img);
    match PixelGrid::new(width, height, data) {
        Some(grid) => verify(&grid, payload),
        None => false,
    }
}

} // verus!

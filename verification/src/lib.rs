//! Verification of a hidden watermark in the separator pixels of a QR-code
//! image. The watermark is the leading bits of a cryptographic digest of the
//! QR payload, written along a fixed path around the three finder patterns;
//! `overlay::verify` checks that an image carries the watermark that its
//! claimed payload demands.

pub mod fingerprint;
pub mod geometry;
pub mod grid;
pub mod overlay;
pub mod qr_image;
pub mod walker;

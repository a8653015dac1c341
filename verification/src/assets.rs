//! The window's images: decoding the bundled PNG files into RGBA pixels.
use vstd::prelude::*;

verus! {

/// The error type of the `image` crate.
#[verifier::external_type_specification]
#[verifier::external_body]
pub struct ExImageError(image::ImageError);

/// What decoding these bytes with the `image` crate and converting the
/// picture to 8-bit RGBA gives: its width, height and samples.
pub uninterp spec fn rgba8_decoding(bytes: Seq<u8>) -> Option<(u32, u32, Seq<u8>)>;

/// Calls `image::load_from_memory`, then `DynamicImage::to_rgba8`, and reads
/// the width, height and samples of the result. Trusted: the result is
/// `rgba8_decoding` of the bytes, and an error exactly when that is `None`.
#[verifier::external_body]
fn decode_rgba8(bytes: &[u8]) -> (r: Result<(u32, u32, Vec<u8>), image::ImageError>)
    ensures
        match r {
            Ok(v) => rgba8_decoding(bytes@) == Some((v.0, v.1, v.2@)),
            Err(_) => rgba8_decoding(bytes@) is None,
        },
{
    match image::load_from_memory(bytes) {
        Ok(picture) => {
            let rgba = picture.to_rgba8();
            Ok((rgba.width(), rgba.height(), rgba.into_raw()))
        },
        Err(error) => Err(error),
    }
}

/// Pixels ready for a texture: width and height, and four samples (red,
/// green, blue, alpha) per pixel, row by row.
pub struct Texture {
    pub width: usize,
    pub height: usize,
    pub rgba: Vec<u8>,
}

/// Why an image could not become a texture.
pub enum ImageLoadError {
    /// The bytes are not an image the `image` crate reads.
    Decode(image::ImageError),
    /// The samples do not make up exactly `width * height` pixels.
    SizeMismatch,
}

/// Decodes an image into texture pixels.
pub fn decode_texture(bytes: &[u8]) -> (r: Result<Texture, ImageLoadError>)
    ensures
        match rgba8_decoding(bytes@) {
            None => r matches Err(ImageLoadError::Decode(_)),
            Some(d) => if d.0 * d.1 * 4 == d.2.len() {
                r matches Ok(t) && t.width == d.0 && t.height == d.1 && t.rgba@ == d.2
            } else {
                r matches Err(ImageLoadError::SizeMismatch)
            },
        },
{
    match decode_rgba8(bytes) {
        Err(e) => Err(ImageLoadError::Decode(e)),
        Ok((w, h, raw)) => {
            let len = raw.len();
            assert(len as int == raw@.len());
            let wh = (w as u64).checked_mul(h as u64);
            match wh {
                None => {
                    proof {
                        assert(w * h * 4 > raw@.len()) by (nonlinear_arith)
                            requires
                                w * h > u64::MAX,
                                raw@.len() <= u64::MAX,
                        ;
                    }
                    Err(ImageLoadError::SizeMismatch)
                },
                Some(p) => {
                    assert(p * 4 == w * h * 4) by (nonlinear_arith)
                        requires
                            p == w * h,
                    ;
                    let n = p.checked_mul(4);
                    match n {
                        Some(n) if n == len as u64 => {
                            Ok(Texture { width: w as usize, height: h as usize, rgba: raw })
                        },
                        _ => {
                            Err(ImageLoadError::SizeMismatch)
                        },
                    }
                },
            }
        },
    }
}

} // verus!

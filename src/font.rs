//! The font atlas image: decoded from PNG and checked against the fixed
//! atlas dimensions before any glyph is addressed in it.
use vstd::prelude::*;
use crate::atlas::{ATLAS_WIDTH, ATLAS_HEIGHT};

verus! {

#[verifier::external_type_specification]
#[verifier::external_body]
pub struct ExImageError(image::ImageError);

/// Bytes of RGBA pixel data in an atlas image (192 x 48 pixels, 4 bytes each).
pub const ATLAS_BYTES: usize = 36864;

/// Why an atlas image was refused.
#[derive(Clone, Copy, Debug, PartialEq, Eq)]
pub enum FontError {
    /// The bytes are not a PNG image that the decoder reads.
    Decode,
    /// The image does not have the atlas dimensions; it has these.
    Size { width: u32, height: u32 },
    /// The pixel data is shorter than the dimensions ask.
    Truncated,
}

/// The width, height and RGBA bytes that PNG decoding gives for `bytes`, or
/// `None` where the decoder refuses them.
pub uninterp spec fn png_rgba_of(bytes: Seq<u8>) -> Option<(u32, u32, Seq<u8>)>;

/// Relies on `image::load_from_memory_with_format` (PNG) followed by
/// `DynamicImage::into_rgba8`, `ImageBuffer::dimensions` and
/// `ImageBuffer::into_raw`: the image's width, height and RGBA bytes, which
/// depend on the input bytes alone. The buffer holds at least
/// `4 * width * height` bytes, as `ImageBuffer::from_raw` refuses a smaller one.
#[verifier::external_body]
fn decode_png_rgba(bytes: &[u8]) -> (r: Result<(u32, u32, Vec<u8>), image::ImageError>)
    ensures
        match r {
            Ok((w, h, px)) => png_rgba_of(bytes@) == Some((w, h, px@)) && px@.len() >= 4 * w * h,
            Err(_) => png_rgba_of(bytes@) is None,
        },
{
    match image::load_from_memory_with_format(bytes, image::ImageFormat::Png) {
        Ok(img) => {
            let rgba = img.into_rgba8();
            let (w, h) = rgba.dimensions();
            Ok((w, h, rgba.into_raw()))
        },
        Err(e) => Err(e),
    }
}

/// The RGBA pixels of the font atlas, row by row from the top, exactly
/// `ATLAS_WIDTH * ATLAS_HEIGHT` pixels.
pub struct FontAtlas {
    pixels: Vec<u8>,
}

impl View for FontAtlas {
    type V = Seq<u8>;

    closed spec fn view(&self) -> Seq<u8> {
        self.pixels@
    }
}

impl FontAtlas {
    /// Takes decoded RGBA data. It is accepted when the dimensions are the
    /// atlas dimensions and the data covers them; bytes past the last pixel
    /// are dropped.
    pub fn from_rgba(width: u32, height: u32, pixels: Vec<u8>) -> (r: Result<FontAtlas, FontError>)
        ensures
            match r {
                Ok(a) => width == ATLAS_WIDTH && height == ATLAS_HEIGHT && pixels@.len()
                    >= ATLAS_BYTES && a@ == pixels@.take(ATLAS_BYTES as int),
                Err(FontError::Size { width: w, height: h }) => (width != ATLAS_WIDTH || height
                    != ATLAS_HEIGHT) && w == width && h == height,
                Err(FontError::Truncated) => width == ATLAS_WIDTH && height == ATLAS_HEIGHT
                    && pixels@.len() < ATLAS_BYTES,
                Err(FontError::Decode) => false,
            },
    {
        if width != ATLAS_WIDTH || height != ATLAS_HEIGHT {
            return Err(FontError::Size { width, height });
        }
        if pixels.len() < ATLAS_BYTES {
            return Err(FontError::Truncated);
        }
        let mut pixels = pixels;
        pixels.truncate(ATLAS_BYTES);
        Ok(FontAtlas { pixels })
    }

    /// Decodes a PNG image and takes it as the atlas: refused when it does
    /// not decode or does not have the atlas dimensions, accepted otherwise.
    pub fn from_png(bytes: &[u8]) -> (r: Result<FontAtlas, FontError>)
        ensures
            match png_rgba_of(bytes@) {
                None => r == Err::<FontAtlas, FontError>(FontError::Decode),
                Some((w, h, px)) => if w != ATLAS_WIDTH || h != ATLAS_HEIGHT {
                    r == Err::<FontAtlas, FontError>(FontError::Size { width: w, height: h })
                } else {
                    r is Ok && r->Ok_0@ == px.take(ATLAS_BYTES as int)
                },
            },
            r is Ok ==> r->Ok_0@.len() == ATLAS_BYTES,
    {
        match decode_png_rgba(bytes) {
            Ok((w, h, px)) => {
                proof {
                    if w == ATLAS_WIDTH && h == ATLAS_HEIGHT {
                        assert(w == 192 && h == 48);
                        assert(4 * w * h == ATLAS_BYTES) by (nonlinear_arith)
                            requires
                                w == 192,
                                h == 48,
                        ;
                    }
                }
                FontAtlas::from_rgba(w, h, px)
            },
            Err(_) => Err(FontError::Decode),
        }
    }

    /// Width of the atlas in pixels.
    pub fn width(&self) -> (r: u32)
        ensures
            r == ATLAS_WIDTH,
    {
        ATLAS_WIDTH
    }

    /// Height of the atlas in pixels.
    pub fn height(&self) -> (r: u32)
        ensures
            r == ATLAS_HEIGHT,
    {
        ATLAS_HEIGHT
    }

    /// The RGBA bytes.
    pub fn pixels(&self) -> (r: &[u8])
        ensures
            r@ == self@,
    {
        self.pixels.as_slice()
    }
}

} // verus!

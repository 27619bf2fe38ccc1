use vstd::prelude::*;

use crate::error::PlaceholderError;

verus! {

/// A decoded image: `width * height` pixels, row by row, four bytes each
/// (red, green, blue, alpha).
pub struct DecodedImage {
    pub width: u32,
    pub height: u32,
    pub pixels: Vec<u8>,
}

/// Both dimensions positive and exactly four bytes per pixel.
pub open spec fn grid_shape(width: u32, height: u32, len: nat) -> bool {
    &&& width > 0
    &&& height > 0
    &&& len == width * height * 4
}

impl DecodedImage {
    pub open spec fn well_formed(&self) -> bool {
        grid_shape(self.width, self.height, self.pixels@.len())
    }
}

/// The byte length of an RGBA grid of the given dimensions.
pub fn rgba_len(width: u32, height: u32) -> (n: u128)
    ensures
        n == width * height * 4,
{
    proof {
        assert(0 <= width * height <= u32::MAX * u32::MAX) by (nonlinear_arith)
            requires
                width <= u32::MAX,
                height <= u32::MAX,
        ;
    }
    width as u128 * height as u128 * 4
}

#[verifier::external_type_specification]
#[verifier::external_body]
pub struct ExImageError(image::ImageError);

/// Relies on `image::load_from_memory`, which picks a decoder from the leading
/// bytes, and on `DynamicImage::to_rgba8`, which lays the decoded pixels out as
/// interleaved RGBA bytes; the dimensions are those of that RGBA buffer.
/// Which formats decode depends on the decoders built in, and the decoders
/// may pick code paths by processor, so nothing is stated of the outcome.
#[verifier::external_body]
fn load_rgba(bytes: &[u8]) -> (r: Result<(u32, u32, Vec<u8>), image::ImageError>) {
    match image::load_from_memory(bytes) {
        Ok(img) => {
            let rgba = img.to_rgba8();
            Ok((rgba.width(), rgba.height(), rgba.into_raw()))
        },
        Err(e) => Err(e),
    }
}

/// Builds the grid from what a decoder handed back: `None` when it refused
/// the bytes, else the dimensions and the interleaved RGBA bytes.
///
/// A refusal, a zero dimension, or a buffer that does not hold exactly four
/// bytes per pixel gives `DecodeError`; otherwise the grid holds the
/// decoder's dimensions and bytes unchanged.
pub fn grid_from_decoded(decoded: Option<(u32, u32, Vec<u8>)>) -> (r: Result<DecodedImage, PlaceholderError>)
    ensures
        decoded is None ==> r == Err::<DecodedImage, PlaceholderError>(PlaceholderError::DecodeError),
        decoded matches Some(d) ==> (r is Ok <==> grid_shape(d.0, d.1, d.2@.len())),
        r matches Ok(img) ==> decoded matches Some(d) && img.width == d.0 && img.height == d.1 && img.pixels@ == d.2@,
        r matches Ok(img) ==> img.well_formed(),
        r matches Err(e) ==> e == PlaceholderError::DecodeError,
{
    match decoded {
        None => Err(PlaceholderError::DecodeError),
        Some((width, height, pixels)) => {
            if width == 0 || height == 0 || pixels.len() as u128 != rgba_len(width, height) {
                Err(PlaceholderError::DecodeError)
            } else {
                Ok(DecodedImage { width, height, pixels })
            }
        },
    }
}

/// Decodes an encoded image (PNG, JPEG) into an RGBA grid.
///
/// An empty buffer is refused before any decoder sees it; otherwise the
/// decoder's answer goes through `grid_from_decoded`. A successful result is
/// always a well-formed grid, and every failure is `DecodeError`.
pub fn bytes_to_image(bytes: &[u8]) -> (r: Result<DecodedImage, PlaceholderError>)
    ensures
        bytes@.len() == 0 ==> r == Err::<DecodedImage, PlaceholderError>(PlaceholderError::DecodeError),
        r matches Ok(img) ==> img.well_formed(),
        r matches Err(e) ==> e == PlaceholderError::DecodeError,
{
    if bytes.len() == 0 {
        return Err(PlaceholderError::DecodeError);
    }
    let decoded = match load_rgba(bytes) {
        Ok(d) => Some(d),
        Err(_) => None,
    };
    grid_from_decoded(decoded)
}

} // verus!

use vstd::prelude::*;

use crate::error::PlaceholderError;
use crate::grid::{bytes_to_image, grid_shape, DecodedImage};
use crate::hash::{
    blurhash_of, generate_blurhash, hash_outcome, is_base83_char, result_view, PLACEHOLDER_X_COMPONENTS,
    PLACEHOLDER_Y_COMPONENTS,
};

verus! {

/// The string is the four-by-three placeholder hash of some well-shaped grid
/// whose byte offsets fit in 32 bits.
pub open spec fn is_placeholder_of_some_grid(s: Seq<char>) -> bool {
    exists|width: u32, height: u32, rgba: Seq<u8>|
        #![trigger blurhash_of(PLACEHOLDER_X_COMPONENTS, PLACEHOLDER_Y_COMPONENTS, width, height, rgba)]
        grid_shape(width, height, rgba.len()) && width * height * 4 <= u32::MAX
            && s == blurhash_of(PLACEHOLDER_X_COMPONENTS, PLACEHOLDER_Y_COMPONENTS, width, height, rgba)
}

/// What hashing the outcome of a decode yields: the decode's error passed
/// on unchanged, or the four-by-three hash of the decoded grid.
pub open spec fn placeholder_outcome(decoded: Result<DecodedImage, PlaceholderError>) -> Result<Seq<char>, PlaceholderError> {
    match decoded {
        Ok(img) => hash_outcome(img.width, img.height, img.pixels@, PLACEHOLDER_X_COMPONENTS, PLACEHOLDER_Y_COMPONENTS),
        Err(e) => Err(e),
    }
}

/// Hashes the outcome of a decode with four horizontal and three vertical
/// components, passing a decode error on unchanged.
pub fn placeholder_of_decoded(decoded: Result<DecodedImage, PlaceholderError>) -> (r: Result<String, PlaceholderError>)
    ensures
        result_view(r) == placeholder_outcome(decoded),
        r matches Ok(s) ==> s@.len() == 28 && s@[0] == 'L',
        r matches Ok(s) ==> forall|i: int| 0 <= i < s@.len() ==> is_base83_char(#[trigger] s@[i]),
{
    match decoded {
        Err(e) => Err(e),
        Ok(image) => generate_blurhash(&image),
    }
}

/// Decodes an encoded image and returns its four-by-three placeholder hash.
///
/// Decoding failures come back as `DecodeError` (always for an empty
/// buffer), a decoded grid too large for the encoder as `EncodeError`; no
/// hash is produced on failure. A hash is a 28-character base-83 string
/// opening with `L`, computed from the decoded grid.
pub fn generate_placeholder(bytes: &[u8]) -> (r: Result<String, PlaceholderError>)
    ensures
        bytes@.len() == 0 ==> r == Err::<String, PlaceholderError>(PlaceholderError::DecodeError),
        r matches Ok(s) ==> s@.len() == 28 && s@[0] == 'L' && is_placeholder_of_some_grid(s@),
        r matches Ok(s) ==> forall|i: int| 0 <= i < s@.len() ==> is_base83_char(#[trigger] s@[i]),
{
    let decoded = bytes_to_image(bytes);
    let r = placeholder_of_decoded(decoded);
    proof {
        if r is Ok {
            let img = decoded->Ok_0;
            assert(blurhash_of(PLACEHOLDER_X_COMPONENTS, PLACEHOLDER_Y_COMPONENTS, img.width, img.height, img.pixels@) == r->Ok_0@);
        }
    }
    r
}

} // verus!

use vstd::prelude::*;

use crate::error::PlaceholderError;
use crate::grid::{grid_shape, rgba_len, DecodedImage};

verus! {

/// Horizontal components of the placeholder.
pub const PLACEHOLDER_X_COMPONENTS: u32 = 4;

/// Vertical components of the placeholder.
pub const PLACEHOLDER_Y_COMPONENTS: u32 = 3;

#[verifier::external_type_specification]
#[verifier::external_body]
pub struct ExBlurhashError(blurhash::Error);

/// The hash string that blurhash's encoder computes for the given component
/// counts, dimensions and interleaved RGBA bytes.
pub uninterp spec fn blurhash_of(cx: u32, cy: u32, width: u32, height: u32, rgba: Seq<u8>) -> Seq<char>;

/// The character code of base-83 digit `d` in blurhash's alphabet
/// `0-9`, `A-Z`, `a-z`, then `#$%*+,-.:;=?@[]^_{|}~`.
pub open spec fn base83_code(d: int) -> int {
    if d < 10 {
        48 + d
    } else if d < 36 {
        55 + d
    } else if d < 62 {
        61 + d
    } else if d == 62 {
        35
    } else if d == 63 {
        36
    } else if d == 64 {
        37
    } else if d == 65 {
        42
    } else if d == 66 {
        43
    } else if d == 67 {
        44
    } else if d == 68 {
        45
    } else if d == 69 {
        46
    } else if d == 70 {
        58
    } else if d == 71 {
        59
    } else if d == 72 {
        61
    } else if d == 73 {
        63
    } else if d == 74 {
        64
    } else if d == 75 {
        91
    } else if d == 76 {
        93
    } else if d == 77 {
        94
    } else if d == 78 {
        95
    } else if d == 79 {
        123
    } else if d == 80 {
        124
    } else if d == 81 {
        125
    } else {
        126
    }
}

/// The character is one of the 83 digits of blurhash's alphabet.
pub open spec fn is_base83_char(c: char) -> bool {
    exists|d: int| 0 <= d < 83 && c as int == #[trigger] base83_code(d)
}

/// The hash is written in base-83 digits and opens with the size flag
/// `(cx - 1) + (cy - 1) * 9`.
pub open spec fn hash_form(s: Seq<char>, cx: u32, cy: u32) -> bool {
    &&& s.len() == 4 + 2 * cx * cy
    &&& s[0] as int == base83_code((cx - 1) + (cy - 1) * 9)
    &&& forall|i: int| 0 <= i < s.len() ==> is_base83_char(#[trigger] s[i])
}

/// Relies on `blurhash::encode`: component counts outside `1..=9` are refused
/// with an error; otherwise the hash holds one size character, one character
/// for the quantised maximum, four for the DC term and two for each of the
/// `cx * cy - 1` AC terms, each digit written as one character of the base-83
/// alphabet, the size flag `(cx - 1) + (cy - 1) * 9` first. The encoder indexes the buffer without checking its
/// length and computes byte offsets in `u32`, hence the requirements.
#[verifier::external_body]
fn blurhash_encode(cx: u32, cy: u32, width: u32, height: u32, rgba: &[u8]) -> (r: Result<String, blurhash::Error>)
    requires
        grid_shape(width, height, rgba@.len()),
        width * height * 4 <= u32::MAX,
    ensures
        r is Ok <==> components_in_range(cx, cy),
        r matches Ok(s) ==> s@ == blurhash_of(cx, cy, width, height, rgba@),
        r matches Ok(s) ==> hash_form(s@, cx, cy),
{
    blurhash::encode(cx, cy, width, height, rgba)
}

pub open spec fn components_in_range(cx: u32, cy: u32) -> bool {
    1 <= cx <= 9 && 1 <= cy <= 9
}

/// True when the encoder can take a grid of these dimensions and this many
/// bytes: a well-shaped grid whose byte offsets are addressable in 32 bits.
pub open spec fn encodable(width: u32, height: u32, len: nat) -> bool {
    grid_shape(width, height, len) && width * height * 4 <= u32::MAX
}

/// What hashing a grid with the given component counts yields.
pub open spec fn hash_outcome(width: u32, height: u32, rgba: Seq<u8>, cx: u32, cy: u32) -> Result<Seq<char>, PlaceholderError> {
    if encodable(width, height, rgba.len()) && components_in_range(cx, cy) {
        Ok(blurhash_of(cx, cy, width, height, rgba))
    } else {
        Err(PlaceholderError::EncodeError)
    }
}

/// A hash result with the string seen as its characters.
pub open spec fn result_view(r: Result<String, PlaceholderError>) -> Result<Seq<char>, PlaceholderError> {
    match r {
        Ok(s) => Ok(s@),
        Err(e) => Err(e),
    }
}

/// Computes the placeholder hash of a decoded grid with the given numbers of
/// horizontal and vertical components.
///
/// Fails with `EncodeError` when a dimension is zero, when the pixel buffer
/// does not hold exactly four bytes per pixel, when the grid's byte offsets
/// do not fit in 32 bits, or when a component count lies outside `1..=9`.
pub fn compute_hash(image: &DecodedImage, x_components: u32, y_components: u32) -> (r: Result<String, PlaceholderError>)
    ensures
        result_view(r) == hash_outcome(image.width, image.height, image.pixels@, x_components, y_components),
        r is Ok <==> encodable(image.width, image.height, image.pixels@.len())
            && components_in_range(x_components, y_components),
        r matches Ok(s) ==> hash_form(s@, x_components, y_components),
        r matches Err(e) ==> e == PlaceholderError::EncodeError,
{
    let width = image.width;
    let height = image.height;
    if width == 0 || height == 0 {
        return Err(PlaceholderError::EncodeError);
    }
    let expected = rgba_len(width, height);
    if expected > u32::MAX as u128 || image.pixels.len() as u128 != expected {
        return Err(PlaceholderError::EncodeError);
    }
    match blurhash_encode(x_components, y_components, width, height, image.pixels.as_slice()) {
        Ok(s) => Ok(s),
        Err(_) => Err(PlaceholderError::EncodeError),
    }
}

/// Computes the placeholder hash of a decoded grid with four horizontal and
/// three vertical components: a 28-character base-83 string opening with `L`.
pub fn generate_blurhash(image: &DecodedImage) -> (r: Result<String, PlaceholderError>)
    ensures
        result_view(r) == hash_outcome(
            image.width,
            image.height,
            image.pixels@,
            PLACEHOLDER_X_COMPONENTS,
            PLACEHOLDER_Y_COMPONENTS,
        ),
        r is Ok <==> encodable(image.width, image.height, image.pixels@.len()),
        r matches Ok(s) ==> s@.len() == 28 && s@[0] == 'L',
        r matches Ok(s) ==> forall|i: int| 0 <= i < s@.len() ==> is_base83_char(#[trigger] s@[i]),
        r matches Err(e) ==> e == PlaceholderError::EncodeError,
{
    compute_hash(image, PLACEHOLDER_X_COMPONENTS, PLACEHOLDER_Y_COMPONENTS)
}

/// Hashing is a function of the grid alone: two grids with the same
/// dimensions and the same bytes hash alike (or fail alike) for any component
/// counts, so hashing the same grid twice gives the same string.
pub proof fn lemma_hash_determined_by_grid(a: &DecodedImage, b: &DecodedImage, cx: u32, cy: u32)
    requires
        a.width == b.width,
        a.height == b.height,
        a.pixels@ == b.pixels@,
    ensures
        hash_outcome(a.width, a.height, a.pixels@, cx, cy) == hash_outcome(b.width, b.height, b.pixels@, cx, cy),
{
}

} // verus!

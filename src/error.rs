use vstd::prelude::*;

verus! {

/// Why a placeholder could not be produced.
#[derive(Debug, Clone, Copy, PartialEq, Eq, Structural)]
pub enum PlaceholderError {
    /// The bytes are not an image in a supported container format.
    DecodeError,
    /// The pixel grid or the component counts cannot be encoded.
    EncodeError,
}

} // verus!

//! Blurred-placeholder hashes for encoded images: decode the bytes into an
//! RGBA grid, then summarise the grid as a short blurhash string with four
//! horizontal and three vertical components.

pub mod error;
pub mod grid;
pub mod hash;
pub mod placeholder;

pub use error::PlaceholderError;
pub use grid::{bytes_to_image, grid_from_decoded, DecodedImage};
pub use hash::{blurhash_of, compute_hash, generate_blurhash, hash_outcome};
pub use placeholder::{generate_placeholder, placeholder_of_decoded};

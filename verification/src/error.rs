use vstd::prelude::*;

verus! {

/// The error that `image` reports when a GIF cannot be decoded.
#[verifier::external_type_specification]
#[verifier::external_body]
pub struct ExImageError(image::ImageError);

/// Why the character cannot be shown.
#[derive(Debug)]
pub enum HomieError {
    /// Neither the command line nor the configuration file names a sprite directory.
    NoSprites,
    /// Neither a width nor a height was given.
    NoDimensions,
    /// The start position puts the character (partly) off screen: x, y, screen
    /// width, screen height, character width, character height.
    CoordinatesOutOfBounds(i32, i32, i32, i32, i32, i32),
    /// A sprite file is not a GIF that can be decoded.
    GifDecodingFailed(image::ImageError),
}

} // verus!

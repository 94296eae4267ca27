//! Fonts of bitmaps.

use crate::hot_plate::screen::drawable::binary_image::BinaryImage;
use vstd::prelude::*;

verus! {

/// A font: an image of one chunk and a width for each character.
pub trait Font {
    /// The image of `character`.
    fn get_image_of_char(&self, character: u8) -> BinaryImage<1>;

    /// The width that `character` takes up in a text, in pixels.
    fn get_width_of_char(&self, character: u8) -> u16;
}

} // verus!

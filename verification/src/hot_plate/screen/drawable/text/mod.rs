//! Text in a font of bitmaps.

use crate::hot_plate::screen::drawable::binary_image::BinaryImage;
use crate::hot_plate::screen::drawable::{Drawable, Pixels, U16x2};
use crate::utils::measurement::color::ColorRGB565;
use crate::utils::slice_to_array_filled;
use vstd::prelude::*;
use vstd::string::StringSliceAdditionalSpecFns;

pub mod font;

pub use font::Font;

verus! {

/// A character of a text: one byte.
pub type Char = u8;

/// A text of `N` characters in the font `F`.
///
/// The text asks its font once, when it is made, for the image and the
/// width of each of its characters, and keeps them.
pub struct Text<const N: usize, F: Font> {
    characters: [Char; N],
    font: F,
    images: [BinaryImage<1>; N],
    widths: [u16; N],
}

/// A count of pixels, limited to what sixteen bits hold.
pub open spec fn limited(pixels: int) -> u16 {
    if pixels > 0xffff {
        0xffff
    } else {
        pixels as u16
    }
}

/// The width of characters of the widths `widths` set side by side, in
/// pixels.
pub open spec fn advance(widths: Seq<u16>) -> int
    decreases widths.len(),
{
    if widths.len() == 0 {
        0
    } else {
        advance(widths.drop_last()) + widths.last()
    }
}

/// The height of the highest of `images`, in pixels, and zero if there is
/// none.
pub open spec fn tallest(images: Seq<BinaryImage<1>>) -> u16
    decreases images.len(),
{
    if images.len() == 0 {
        0
    } else if images.last().height_spec() > tallest(images.drop_last()) {
        images.last().height_spec()
    } else {
        tallest(images.drop_last())
    }
}

/// The runs `runs`, moved `shift` pixels to the right.
pub open spec fn shifted(runs: Seq<Pixels>, shift: u16) -> Seq<Pixels> {
    Seq::new(
        runs.len(),
        |i: int|
            Pixels {
                offset_position: U16x2 {
                    x: limited(runs[i].offset_position.x + shift),
                    y: runs[i].offset_position.y,
                },
                ..runs[i]
            },
    )
}

/// The runs of `images` set side by side: each image is moved to the right
/// by the widths of the characters before it.
pub open spec fn glyphs(images: Seq<BinaryImage<1>>, widths: Seq<u16>) -> Seq<Pixels>
    decreases images.len(),
{
    if images.len() == 0 {
        Seq::empty()
    } else {
        glyphs(images.drop_last(), widths.drop_last()) + shifted(
            images.last().pixels(),
            limited(advance(widths.drop_last())),
        )
    }
}

/// The width of a text is never negative.
pub proof fn lemma_advance_is_natural(widths: Seq<u16>)
    ensures
        advance(widths) >= 0,
    decreases widths.len(),
{
    if widths.len() > 0 {
        lemma_advance_is_natural(widths.drop_last());
    }
}

impl<const N: usize, F: Font> Text<N, F> {
    /// The characters of the text.
    pub closed spec fn characters(&self) -> Seq<Char> {
        self.characters@
    }

    /// The font of the text.
    pub closed spec fn font(&self) -> F {
        self.font
    }

    /// The images of the characters, as the font gave them.
    pub closed spec fn images(&self) -> Seq<BinaryImage<1>> {
        self.images@
    }

    /// The widths of the characters, as the font gave them.
    pub closed spec fn widths(&self) -> Seq<u16> {
        self.widths@
    }

    /// The characters of the text.
    pub fn get_characters(&self) -> (characters: &[Char; N])
        ensures
            characters@ == self.characters(),
    {
        &self.characters
    }

    /// The images of the characters.
    pub fn get_images(&self) -> (images: &[BinaryImage<1>; N])
        ensures
            images@ == self.images(),
    {
        &self.images
    }

    /// The widths of the characters.
    pub fn get_widths(&self) -> (widths: &[u16; N])
        ensures
            widths@ == self.widths(),
    {
        &self.widths
    }

    /// The text of `characters` in `font`, whose characters have the images
    /// `images` and the widths `widths`.
    pub fn from_parts(
        characters: [Char; N],
        font: F,
        images: [BinaryImage<1>; N],
        widths: [u16; N],
    ) -> (made: Self)
        ensures
            made.characters() == characters@,
            made.font() == font,
            made.images() == images@,
            made.widths() == widths@,
    {
        Self { characters, font, images, widths }
    }

    /// The text of the first `N` bytes of `text`, filled up with zero bytes
    /// where `text` is shorter, in the font `font`, with the image and the
    /// width that the font gives for each of these characters.
    pub fn from_str(text: &str, font: F) -> (made: Self)
        ensures
            made.font() == font,
            made.characters().len() == N,
            made.images().len() == N,
            made.widths().len() == N,
            forall|i: int|
                0 <= i < N ==> made.characters()[i] == if i < text.spec_bytes().len() {
                    text.spec_bytes()[i]
                } else {
                    0
                },
    {
        let characters: [Char; N] = slice_to_array_filled(text.as_bytes(), 0);
        let blank = BinaryImage {
            width: 0,
            chunks_data: [0],
            fill_color: ColorRGB565::white(),
            background_color: ColorRGB565::white(),
        };
        let mut images: [BinaryImage<1>; N] = [blank;N];
        let mut widths: [u16; N] = [0u16;N];
        let mut i: usize = 0;
        while i < N
            invariant
                i <= N,
            decreases N - i,
        {
            images[i] = font.get_image_of_char(characters[i]);
            widths[i] = font.get_width_of_char(characters[i]);
            i += 1;
        }
        Self { characters, font, images, widths }
    }
}

impl<const N: usize, F: Font> Drawable for Text<N, F> {
    /// As wide as its characters side by side, limited to what sixteen bits
    /// hold, and as high as the highest of their images.
    open spec fn extent(&self) -> U16x2 {
        U16x2 { x: limited(advance(self.widths())), y: tallest(self.images()) }
    }

    open spec fn pixels(&self) -> Seq<Pixels> {
        glyphs(self.images(), self.widths())
    }

    fn size(&self) -> (size: U16x2) {
        let mut x: u16 = 0;
        let mut y: u16 = 0;
        let mut i: usize = 0;
        while i < N
            invariant
                i <= N,
                x == limited(advance(self.widths@.take(i as int))),
                y == tallest(self.images@.take(i as int)),
            decreases N - i,
        {
            proof {
                assert(self.widths@.take(i + 1).drop_last() =~= self.widths@.take(i as int));
                assert(self.images@.take(i + 1).drop_last() =~= self.images@.take(i as int));
                lemma_advance_is_natural(self.widths@.take(i as int));
            }
            let width = self.widths[i];
            x = if x as u32 + width as u32 > 0xffff {
                0xffff
            } else {
                x + width
            };
            let height = self.images[i].height();
            if height > y {
                y = height;
            }
            i += 1;
        }
        assert(self.widths@.take(N as int) =~= self.widths@);
        assert(self.images@.take(N as int) =~= self.images@);
        U16x2 { x, y }
    }

    fn draw(&self) -> (pixels: Vec<Pixels>) {
        let mut pixels: Vec<Pixels> = Vec::new();
        let mut x: u16 = 0;
        let mut i: usize = 0;
        while i < N
            invariant
                i <= N,
                x == limited(advance(self.widths@.take(i as int))),
                pixels@ =~= glyphs(self.images@.take(i as int), self.widths@.take(i as int)),
            decreases N - i,
        {
            proof {
                assert(self.widths@.take(i + 1).drop_last() =~= self.widths@.take(i as int));
                assert(self.images@.take(i + 1).drop_last() =~= self.images@.take(i as int));
                lemma_advance_is_natural(self.widths@.take(i as int));
            }
            let image = self.images[i].draw();
            let ghost done = pixels@;
            let mut j: usize = 0;
            while j < image.len()
                invariant
                    j <= image@.len(),
                    pixels@ =~= done + shifted(image@, x).take(j as int),
                decreases image@.len() - j,
            {
                let run = image[j];
                let moved: u16 = if run.offset_position.x as u32 + x as u32 > 0xffff {
                    0xffff
                } else {
                    run.offset_position.x + x
                };
                pixels.push(
                    Pixels {
                        offset_position: U16x2 { x: moved, y: run.offset_position.y },
                        ..run
                    },
                );
                j += 1;
            }
            assert(shifted(image@, x).take(image@.len() as int) =~= shifted(image@, x));
            let width = self.widths[i];
            x = if x as u32 + width as u32 > 0xffff {
                0xffff
            } else {
                x + width
            };
            i += 1;
        }
        assert(self.widths@.take(N as int) =~= self.widths@);
        assert(self.images@.take(N as int) =~= self.images@);
        pixels
    }
}

} // verus!

//! An image of two colors, one bit per pixel.

use crate::hot_plate::screen::drawable::{default_pixels, Drawable, Pixels, U16x2};
use crate::utils::measurement::color::ColorRGB565;
use vstd::prelude::*;

verus! {

/// The unit in which the bits of an image are kept.
pub type Chunk = u32;

/// An image of `width` columns whose pixels are the bits of `CHUNKS` chunks,
/// row after row, from the lowest bit of the first chunk on. A pixel whose
/// bit is set has the fill color, and any other the background color.
#[derive(Clone, Copy, Debug)]
pub struct BinaryImage<const CHUNKS: usize> {
    pub width: u16,
    pub chunks_data: [Chunk; CHUNKS],
    pub fill_color: ColorRGB565,
    pub background_color: ColorRGB565,
}

/// Tells whether bit `bit` of `chunk` is set.
pub open spec fn bit_is_set(chunk: Chunk, bit: u32) -> bool {
    (chunk >> bit) & 1 == 1
}

/// Tells whether the bit of pixel `index` is set.
pub open spec fn pixel_is_set(chunks: Seq<Chunk>, index: int) -> bool {
    bit_is_set(chunks[index / 32], (index % 32) as u32)
}

/// Tells whether bit `bit` of `chunk` is set.
fn test_bit(chunk: Chunk, bit: u32) -> (set: bool)
    requires
        bit < 32,
    ensures
        set == bit_is_set(chunk, bit),
{
    (chunk >> bit) & 1 == 1
}

impl<const CHUNKS: usize> BinaryImage<CHUNKS> {
    /// The number of whole rows that the bits of the image fill, and none
    /// for an image without columns.
    pub open spec fn rows(&self) -> int {
        if self.width == 0 {
            0
        } else {
            (32 * CHUNKS) / (self.width as int)
        }
    }

    /// The height of the image: the number of its rows, counted in sixteen
    /// bits.
    pub open spec fn height_spec(&self) -> u16 {
        (self.rows() % 0x1_0000) as u16
    }

    /// The height of the image in pixels.
    pub fn height(&self) -> (height: u16)
        ensures
            height == self.height_spec(),
    {
        if self.width == 0 {
            0
        } else {
            let bits: u128 = 32 * (CHUNKS as u128);
            ((bits / (self.width as u128)) % 0x1_0000) as u16
        }
    }

    /// The pixels of the image have their bits in its chunks.
    pub proof fn lemma_pixels_are_in_chunks(&self, index: int)
        requires
            0 <= index < self.height_spec() * self.width,
        ensures
            0 <= index / 32 < CHUNKS,
            0 <= index % 32 < 32,
            self.width > 0,
            0 <= index % (self.width as int) < self.width,
            0 <= index / (self.width as int) < self.height_spec(),
    {
        let width = self.width as int;
        let height = self.height_spec() as int;
        if width == 0 {
            assert(height * width == 0) by (nonlinear_arith)
                requires
                    width == 0,
            ;
        }
        let rows = self.rows();
        assert(height <= rows);
        assert(height * width <= 32 * CHUNKS) by (nonlinear_arith)
            requires
                0 <= height <= rows,
                rows == (32 * CHUNKS) / width,
                width > 0,
        {
            assert(rows * width <= 32 * CHUNKS);
            assert(height * width <= rows * width);
        }
        assert(0 <= index / width < height) by (nonlinear_arith)
            requires
                0 <= index < height * width,
                width > 0,
        {
            assert(index == width * (index / width) + index % width);
            assert(0 <= index % width < width);
            if index / width >= height {
                assert(width * (index / width) >= width * height);
            }
        }
    }
}

impl<const CHUNKS: usize> Drawable for BinaryImage<CHUNKS> {
    open spec fn extent(&self) -> U16x2 {
        U16x2 { x: self.width, y: self.height_spec() }
    }

    /// One run of one pixel for each pixel of the image, row after row.
    open spec fn pixels(&self) -> Seq<Pixels> {
        Seq::new(
            (self.height_spec() * self.width) as nat,
            |i: int|
                Pixels {
                    offset_position: U16x2 {
                        x: (i % (self.width as int)) as u16,
                        y: (i / (self.width as int)) as u16,
                    },
                    color: if pixel_is_set(self.chunks_data@, i) {
                        self.fill_color
                    } else {
                        self.background_color
                    },
                    ..default_pixels()
                },
        )
    }

    fn size(&self) -> (size: U16x2) {
        U16x2 { x: self.width, y: self.height() }
    }

    fn draw(&self) -> (pixels: Vec<Pixels>) {
        let height = self.height();
        assert(height * self.width <= 0xffff * 0xffff) by (nonlinear_arith)
            requires
                height <= 0xffff,
                self.width <= 0xffff,
        ;
        let count: u32 = height as u32 * self.width as u32;
        let mut pixels: Vec<Pixels> = Vec::new();
        let mut i: u32 = 0;
        while i < count
            invariant
                i <= count,
                count == self.height_spec() * self.width,
                pixels@ =~= self.pixels().take(i as int),
            decreases count - i,
        {
            proof {
                self.lemma_pixels_are_in_chunks(i as int);
            }
            let set = test_bit(self.chunks_data[(i / 32) as usize], i % 32);
            pixels.push(
                Pixels {
                    offset_position: U16x2 {
                        x: (i % self.width as u32) as u16,
                        y: (i / self.width as u32) as u16,
                    },
                    color: if set {
                        self.fill_color
                    } else {
                        self.background_color
                    },
                    ..Pixels::default()
                },
            );
            i += 1;
        }
        assert(self.pixels().take(count as int) =~= self.pixels());
        pixels
    }
}

} // verus!

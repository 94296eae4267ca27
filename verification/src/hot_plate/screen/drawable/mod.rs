//! Shapes that can be drawn on the display.
//!
//! A shape is drawn as a sequence of runs of pixels. Each run starts at an
//! offset from the place of the shape and repeats one color along an axis.

use crate::utils::measurement::color::ColorRGB565;
use vstd::prelude::*;

pub mod binary_image;
pub mod line;
pub mod plot;
pub mod point;
pub mod special;
pub mod text;
pub mod triangle;

pub use binary_image::BinaryImage;
pub use line::{HorizontalLine, VerticalLine};
pub use plot::Plot;
pub use point::Point;
pub use text::{Font, Text};
pub use triangle::Triangle;

verus! {

/// A thickness in pixels.
pub type Thickness = u16;

/// A place or an extent on the display: pixels to the right and pixels
/// down.
#[derive(Clone, Copy, Debug, PartialEq, Eq, Structural, Hash)]
pub struct U16x2 {
    pub x: u16,
    pub y: u16,
}

/// An axis of the display.
#[derive(Clone, Copy, Debug, PartialEq, Eq, Structural, Hash)]
pub enum Axis {
    Horizontal,
    Vertical,
}

impl Default for Axis {
    /// The horizontal axis.
    fn default() -> (axis: Self)
        ensures
            axis == Axis::Horizontal,
    {
        Axis::Horizontal
    }
}

/// A run of pixels of one color.
#[derive(Clone, Copy, Debug, PartialEq, Eq, Structural, Hash)]
pub struct Pixels {
    /// Where the run starts, from the place of the shape.
    pub offset_position: U16x2,
    /// The number of pixels of the run.
    pub repetitions_count: u16,
    /// The axis along which the run goes.
    pub repetitions_direction: Axis,
    /// The color of the pixels.
    pub color: ColorRGB565,
}

/// One white pixel at the place of the shape.
pub open spec fn default_pixels() -> Pixels {
    Pixels {
        offset_position: U16x2 { x: 0, y: 0 },
        repetitions_count: 1,
        repetitions_direction: Axis::Horizontal,
        color: ColorRGB565(0xffff),
    }
}

impl Default for Pixels {
    /// One white pixel at the place of the shape.
    fn default() -> (pixels: Self)
        ensures
            pixels == default_pixels(),
    {
        Pixels {
            offset_position: U16x2 { x: 0, y: 0 },
            repetitions_count: 1,
            repetitions_direction: Axis::Horizontal,
            color: ColorRGB565::white(),
        }
    }
}

/// A shape that can be drawn.
pub trait Drawable {
    /// The extent of the shape.
    spec fn extent(&self) -> U16x2;

    /// The runs of pixels that make up the shape, in the order in which they
    /// are drawn.
    spec fn pixels(&self) -> Seq<Pixels>;

    /// The extent of the shape.
    fn size(&self) -> (size: U16x2)
        ensures
            size == self.extent(),
    ;

    /// The runs of pixels that make up the shape, in the order in which they
    /// are to be drawn.
    fn draw(&self) -> (pixels: Vec<Pixels>)
        ensures
            pixels@ == self.pixels(),
    ;
}

} // verus!

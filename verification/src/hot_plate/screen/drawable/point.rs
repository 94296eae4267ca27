//! A single pixel.

use crate::hot_plate::screen::drawable::{default_pixels, Drawable, Pixels, U16x2};
use vstd::prelude::*;

verus! {

/// One white pixel.
#[derive(Clone, Copy, Debug, PartialEq, Eq, Structural, Hash)]
pub struct Point;

impl Drawable for Point {
    open spec fn extent(&self) -> U16x2 {
        U16x2 { x: 1, y: 1 }
    }

    open spec fn pixels(&self) -> Seq<Pixels> {
        seq![default_pixels()]
    }

    fn size(&self) -> (size: U16x2) {
        U16x2 { x: 1, y: 1 }
    }

    fn draw(&self) -> (pixels: Vec<Pixels>) {
        let mut pixels = Vec::new();
        pixels.push(Pixels::default());
        assert(pixels@ =~= seq![default_pixels()]);
        pixels
    }
}

} // verus!

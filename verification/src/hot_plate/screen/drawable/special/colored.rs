//! A shape in another color.

use crate::hot_plate::screen::drawable::{Drawable, Pixels, U16x2};
use crate::utils::measurement::color::ColorRGB565;
use vstd::prelude::*;

verus! {

/// The shape `draw`, with every pixel in `color`.
pub struct Colored<D: Drawable> {
    pub draw: D,
    pub color: ColorRGB565,
}

impl<D: Drawable> Drawable for Colored<D> {
    open spec fn extent(&self) -> U16x2 {
        self.draw.extent()
    }

    /// The runs of the shape, each in the new color.
    open spec fn pixels(&self) -> Seq<Pixels> {
        Seq::new(
            self.draw.pixels().len(),
            |i: int| Pixels { color: self.color, ..self.draw.pixels()[i] },
        )
    }

    fn size(&self) -> (size: U16x2) {
        self.draw.size()
    }

    fn draw(&self) -> (pixels: Vec<Pixels>) {
        let inner = self.draw.draw();
        let mut pixels: Vec<Pixels> = Vec::new();
        let mut i: usize = 0;
        while i < inner.len()
            invariant
                i <= inner@.len(),
                inner@ == self.draw.pixels(),
                pixels@ =~= self.pixels().take(i as int),
            decreases inner@.len() - i,
        {
            pixels.push(Pixels { color: self.color, ..inner[i] });
            i += 1;
        }
        assert(self.pixels().take(inner@.len() as int) =~= self.pixels());
        pixels
    }
}

} // verus!

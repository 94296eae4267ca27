//! A triangle that points to the right.

use crate::hot_plate::screen::drawable::{default_pixels, Axis, Drawable, Pixels, U16x2};
use vstd::prelude::*;

verus! {

/// A white triangle whose left side is `size` pixels high and whose tip
/// lies in the middle of the right.
#[derive(Clone, Copy, Debug, PartialEq, Eq, Structural, Hash)]
pub struct Triangle {
    pub size: u16,
}

/// The height of column `x` of a triangle: two pixels less with each
/// column, until nothing is left.
pub open spec fn column_height(size: u16, x: int) -> u16 {
    if size >= 2 * x {
        (size - 2 * x) as u16
    } else {
        0
    }
}

impl Drawable for Triangle {
    open spec fn extent(&self) -> U16x2 {
        U16x2 { x: self.size, y: self.size }
    }

    /// One run per column: column `x` starts `x` pixels down and is
    /// `column_height(size, x)` pixels high.
    open spec fn pixels(&self) -> Seq<Pixels> {
        Seq::new(
            self.size as nat,
            |x: int|
                Pixels {
                    offset_position: U16x2 { x: x as u16, y: x as u16 },
                    repetitions_count: column_height(self.size, x),
                    repetitions_direction: Axis::Vertical,
                    ..default_pixels()
                },
        )
    }

    fn size(&self) -> (size: U16x2) {
        U16x2 { x: self.size, y: self.size }
    }

    fn draw(&self) -> (pixels: Vec<Pixels>) {
        let mut pixels: Vec<Pixels> = Vec::new();
        let mut x: u16 = 0;
        while x < self.size
            invariant
                x <= self.size,
                pixels@ =~= self.pixels().take(x as int),
            decreases self.size - x,
        {
            let height: u16 = if self.size as u32 >= 2 * (x as u32) {
                (self.size as u32 - 2 * (x as u32)) as u16
            } else {
                0
            };
            pixels.push(
                Pixels {
                    offset_position: U16x2 { x, y: x },
                    repetitions_count: height,
                    repetitions_direction: Axis::Vertical,
                    ..Pixels::default()
                },
            );
            x += 1;
        }
        assert(self.pixels().take(self.size as int) =~= self.pixels());
        pixels
    }
}

} // verus!

//! A shape mirrored along an axis.

use crate::hot_plate::screen::drawable::{Axis, Drawable, Pixels, U16x2};
use vstd::prelude::*;

verus! {

/// The shape `draw`, with the start of each run mirrored along `axis`
/// within the extent of the shape.
pub struct Flipped<D: Drawable> {
    pub draw: D,
    pub axis: Axis,
}

/// The place that mirrors `offset` within `extent` pixels: the last place
/// for the first, and so on. An offset beyond the extent goes to the first
/// place.
pub open spec fn mirrored(extent: u16, offset: u16) -> u16 {
    if extent > offset {
        (extent - 1 - offset) as u16
    } else {
        0
    }
}

/// A run with its start mirrored along `axis` within `extent`.
pub open spec fn flipped(extent: U16x2, axis: Axis, pixels: Pixels) -> Pixels {
    Pixels {
        offset_position: match axis {
            Axis::Horizontal => U16x2 {
                x: mirrored(extent.x, pixels.offset_position.x),
                y: pixels.offset_position.y,
            },
            Axis::Vertical => U16x2 {
                x: pixels.offset_position.x,
                y: mirrored(extent.y, pixels.offset_position.y),
            },
        },
        ..pixels
    }
}

/// The place that mirrors `offset` within `extent` pixels.
fn mirror(extent: u16, offset: u16) -> (place: u16)
    ensures
        place == mirrored(extent, offset),
{
    if extent > offset {
        extent - 1 - offset
    } else {
        0
    }
}

impl<D: Drawable> Drawable for Flipped<D> {
    open spec fn extent(&self) -> U16x2 {
        self.draw.extent()
    }

    /// The runs of the shape, each with its start mirrored.
    open spec fn pixels(&self) -> Seq<Pixels> {
        Seq::new(
            self.draw.pixels().len(),
            |i: int| flipped(self.draw.extent(), self.axis, self.draw.pixels()[i]),
        )
    }

    fn size(&self) -> (size: U16x2) {
        self.draw.size()
    }

    fn draw(&self) -> (pixels: Vec<Pixels>) {
        let inner = self.draw.draw();
        let extent = self.draw.size();
        let mut pixels: Vec<Pixels> = Vec::new();
        let mut i: usize = 0;
        while i < inner.len()
            invariant
                i <= inner@.len(),
                inner@ == self.draw.pixels(),
                extent == self.draw.extent(),
                pixels@ =~= self.pixels().take(i as int),
            decreases inner@.len() - i,
        {
            let run = inner[i];
            let offset_position = match self.axis {
                Axis::Horizontal => U16x2 {
                    x: mirror(extent.x, run.offset_position.x),
                    y: run.offset_position.y,
                },
                Axis::Vertical => U16x2 {
                    x: run.offset_position.x,
                    y: mirror(extent.y, run.offset_position.y),
                },
            };
            pixels.push(Pixels { offset_position, ..run });
            i += 1;
        }
        assert(self.pixels().take(inner@.len() as int) =~= self.pixels());
        pixels
    }
}

} // verus!

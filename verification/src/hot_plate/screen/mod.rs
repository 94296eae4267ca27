//! What the plate shows on its display.

use crate::hot_plate::screen::drawable::{Axis, Pixels, U16x2};
use vstd::prelude::*;

pub mod drawable;
pub mod ui;

verus! {

/// The width of the display in pixels.
pub const SCREEN_WIDTH_IN_PIXELS: u16 = 320;

/// The height of the display in pixels.
pub const SCREEN_HEIGHT_IN_PIXELS: u16 = 240;

/// A count of pixels, limited to what sixteen bits hold.
pub open spec fn limited(pixels: int) -> u16 {
    if pixels > 0xffff {
        0xffff
    } else {
        pixels as u16
    }
}

/// Where a run of pixels of a shape at `position` starts on the display.
pub open spec fn window_start(position: U16x2, pixels: Pixels) -> U16x2 {
    U16x2 {
        x: limited(position.x + pixels.offset_position.x),
        y: limited(position.y + pixels.offset_position.y),
    }
}

/// Where the window of a run of pixels of a shape at `position` ends on the
/// display: as far from its start along the axis of the run as the run has
/// pixels.
pub open spec fn window_end(position: U16x2, pixels: Pixels) -> U16x2 {
    let start = window_start(position, pixels);
    match pixels.repetitions_direction {
        Axis::Horizontal => U16x2 { x: limited(start.x + pixels.repetitions_count), y: start.y },
        Axis::Vertical => U16x2 { x: start.x, y: limited(start.y + pixels.repetitions_count) },
    }
}

/// The extent of the display.
pub fn size() -> (size: U16x2)
    ensures
        size == (U16x2 { x: 320, y: 240 }),
{
    U16x2 { x: SCREEN_WIDTH_IN_PIXELS, y: SCREEN_HEIGHT_IN_PIXELS }
}

/// The sum of two counts of pixels, limited to what sixteen bits hold.
fn limited_sum(a: u16, b: u16) -> (sum: u16)
    ensures
        sum == limited(a + b),
{
    if a as u32 + b as u32 > 0xffff {
        0xffff
    } else {
        a + b
    }
}

/// The window of the display that a run of pixels of a shape at `position`
/// is sent to, as its start and its end.
pub fn window(position: U16x2, pixels: Pixels) -> (corners: (U16x2, U16x2))
    ensures
        corners.0 == window_start(position, pixels),
        corners.1 == window_end(position, pixels),
{
    let start = U16x2 {
        x: limited_sum(position.x, pixels.offset_position.x),
        y: limited_sum(position.y, pixels.offset_position.y),
    };
    let end = match pixels.repetitions_direction {
        Axis::Horizontal => U16x2 {
            x: limited_sum(start.x, pixels.repetitions_count),
            y: start.y,
        },
        Axis::Vertical => U16x2 { x: start.x, y: limited_sum(start.y, pixels.repetitions_count) },
    };
    (start, end)
}

} // verus!

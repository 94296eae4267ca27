//! Straight lines along an axis.

use crate::hot_plate::screen::drawable::{
    default_pixels, Axis, Drawable, Pixels, Thickness, U16x2,
};
use vstd::prelude::*;

verus! {

/// A white line from left to right, `thickness` pixels thick.
#[derive(Clone, Copy, Debug, PartialEq, Eq, Structural, Hash)]
pub struct HorizontalLine {
    pub length: u16,
    pub thickness: Thickness,
}

/// A white line from top to bottom, `thickness` pixels thick.
#[derive(Clone, Copy, Debug, PartialEq, Eq, Structural, Hash)]
pub struct VerticalLine {
    pub length: u16,
    pub thickness: Thickness,
}

impl Drawable for HorizontalLine {
    open spec fn extent(&self) -> U16x2 {
        U16x2 { x: self.length, y: self.thickness }
    }

    /// One run per row, each as long as the line.
    open spec fn pixels(&self) -> Seq<Pixels> {
        Seq::new(
            self.thickness as nat,
            |y: int|
                Pixels {
                    offset_position: U16x2 { x: 0, y: y as u16 },
                    repetitions_count: self.length,
                    repetitions_direction: Axis::Horizontal,
                    ..default_pixels()
                },
        )
    }

    fn size(&self) -> (size: U16x2) {
        U16x2 { x: self.length, y: self.thickness }
    }

    fn draw(&self) -> (pixels: Vec<Pixels>) {
        let mut pixels: Vec<Pixels> = Vec::new();
        let mut y: u16 = 0;
        while y < self.thickness
            invariant
                y <= self.thickness,
                pixels@ =~= self.pixels().take(y as int),
            decreases self.thickness - y,
        {
            pixels.push(
                Pixels {
                    offset_position: U16x2 { x: 0, y },
                    repetitions_count: self.length,
                    repetitions_direction: Axis::Horizontal,
                    ..Pixels::default()
                },
            );
            y += 1;
        }
        assert(self.pixels().take(self.thickness as int) =~= self.pixels());
        pixels
    }
}

impl Drawable for VerticalLine {
    open spec fn extent(&self) -> U16x2 {
        U16x2 { x: self.thickness, y: self.length }
    }

    /// One run per column, each as long as the line.
    open spec fn pixels(&self) -> Seq<Pixels> {
        Seq::new(
            self.thickness as nat,
            |x: int|
                Pixels {
                    offset_position: U16x2 { x: x as u16, y: 0 },
                    repetitions_count: self.length,
                    repetitions_direction: Axis::Vertical,
                    ..default_pixels()
                },
        )
    }

    fn size(&self) -> (size: U16x2) {
        U16x2 { x: self.thickness, y: self.length }
    }

    fn draw(&self) -> (pixels: Vec<Pixels>) {
        let mut pixels: Vec<Pixels> = Vec::new();
        let mut x: u16 = 0;
        while x < self.thickness
            invariant
                x <= self.thickness,
                pixels@ =~= self.pixels().take(x as int),
            decreases self.thickness - x,
        {
            pixels.push(
                Pixels {
                    offset_position: U16x2 { x, y: 0 },
                    repetitions_count: self.length,
                    repetitions_direction: Axis::Vertical,
                    ..Pixels::default()
                },
            );
            x += 1;
        }
        assert(self.pixels().take(self.thickness as int) =~= self.pixels());
        pixels
    }
}

} // verus!

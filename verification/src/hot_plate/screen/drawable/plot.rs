//! A curve given by one height per column.

use crate::hot_plate::screen::drawable::{default_pixels, Axis, Drawable, Pixels, U16x2};
use vstd::prelude::*;

verus! {

/// A curve of `N` columns: `points[x]` is the height of the curve in column
/// `x`, and `thickness` is the number of pixels drawn upwards from there.
pub struct Plot<const N: usize> {
    pub points: [u16; N],
    pub thickness: u16,
}

impl<const N: usize> Plot<N> {
    /// The height of the curve in column `index`, or `None` past the last
    /// column.
    pub fn get(&self, index: usize) -> (point: Option<u16>)
        ensures
            point == if index < N {
                Some(self.points@[index as int])
            } else {
                None
            },
    {
        if index < N {
            Some(self.points[index])
        } else {
            None
        }
    }
}

/// The largest of `points`, and zero if there is none.
pub open spec fn highest(points: Seq<u16>) -> u16
    decreases points.len(),
{
    if points.len() == 0 {
        0
    } else if points.last() > highest(points.drop_last()) {
        points.last()
    } else {
        highest(points.drop_last())
    }
}

/// `highest` is no less than any of the points, and it is one of them
/// unless there is none.
pub proof fn lemma_highest(points: Seq<u16>)
    ensures
        forall|i: int| 0 <= i < points.len() ==> points[i] <= highest(points),
        points.len() > 0 ==> exists|i: int| 0 <= i < points.len() && points[i] == highest(points),
        points.len() == 0 ==> highest(points) == 0,
    decreases points.len(),
{
    if points.len() > 0 {
        let earlier = points.drop_last();
        lemma_highest(earlier);
        assert forall|i: int| 0 <= i < points.len() implies points[i] <= highest(points) by {
            if i < points.len() - 1 {
                assert(points[i] == earlier[i]);
            }
        }
        if points.last() > highest(earlier) || earlier.len() == 0 {
            assert(points[points.len() - 1] == highest(points));
        } else {
            let i = choose|i: int| 0 <= i < earlier.len() && earlier[i] == highest(earlier);
            assert(points[i] == highest(points));
        }
    }
}

impl<const N: usize> Drawable for Plot<N> {
    /// As wide as the number of its columns, counted in sixteen bits, and as
    /// high as its highest point.
    open spec fn extent(&self) -> U16x2 {
        U16x2 { x: (N % 0x1_0000) as u16, y: highest(self.points@) }
    }

    /// One run per column: column `x` starts at the height of the curve
    /// there and goes `thickness` pixels down the vertical axis.
    open spec fn pixels(&self) -> Seq<Pixels> {
        Seq::new(
            N as nat,
            |x: int|
                Pixels {
                    offset_position: U16x2 { x: (x % 0x1_0000) as u16, y: self.points@[x] },
                    repetitions_count: self.thickness,
                    repetitions_direction: Axis::Vertical,
                    ..default_pixels()
                },
        )
    }

    fn size(&self) -> (size: U16x2) {
        let mut y: u16 = 0;
        let mut i: usize = 0;
        while i < N
            invariant
                i <= N,
                y == highest(self.points@.take(i as int)),
            decreases N - i,
        {
            assert(self.points@.take(i + 1).drop_last() =~= self.points@.take(i as int));
            if self.points[i] > y {
                y = self.points[i];
            }
            i += 1;
        }
        assert(self.points@.take(N as int) =~= self.points@);
        U16x2 { x: (N % 0x1_0000) as u16, y }
    }

    fn draw(&self) -> (pixels: Vec<Pixels>) {
        let mut pixels: Vec<Pixels> = Vec::new();
        let mut x: usize = 0;
        while x < N
            invariant
                x <= N,
                pixels@ =~= self.pixels().take(x as int),
            decreases N - x,
        {
            pixels.push(
                Pixels {
                    offset_position: U16x2 { x: (x % 0x1_0000) as u16, y: self.points[x] },
                    repetitions_count: self.thickness,
                    repetitions_direction: Axis::Vertical,
                    ..Pixels::default()
                },
            );
            x += 1;
        }
        assert(self.pixels().take(N as int) =~= self.pixels());
        pixels
    }
}

} // verus!

//! A shape made larger.

use crate::hot_plate::screen::drawable::{Drawable, Pixels, U16x2};
use vstd::prelude::*;

verus! {

/// The shape `draw`, with every pixel made a square of `scale_factor`
/// pixels a side.
pub struct Scale<D: Drawable> {
    pub draw: D,
    pub scale_factor: u16,
}

/// A count of pixels, limited to what sixteen bits hold.
pub open spec fn limited(pixels: int) -> u16 {
    if pixels > 0xffff {
        0xffff
    } else {
        pixels as u16
    }
}

/// Copy `j` of the run `run` in its square of `factor` pixels a side: the
/// copies fill the square row after row.
pub open spec fn copy_of(run: Pixels, factor: u16, j: int) -> Pixels {
    Pixels {
        offset_position: U16x2 {
            x: limited(run.offset_position.x * factor + j % (factor as int)),
            y: limited(run.offset_position.y * factor + j / (factor as int)),
        },
        ..run
    }
}

/// The copies of one run: one for each pixel of its square.
pub open spec fn block(run: Pixels, factor: u16) -> Seq<Pixels> {
    Seq::new((factor * factor) as nat, |j: int| copy_of(run, factor, j))
}

/// The copies of all of `runs`, run after run.
pub open spec fn blocks(runs: Seq<Pixels>, factor: u16) -> Seq<Pixels>
    decreases runs.len(),
{
    if runs.len() == 0 {
        Seq::empty()
    } else {
        blocks(runs.drop_last(), factor) + block(runs.last(), factor)
    }
}

/// Each run of a shape has `factor * factor` copies.
pub proof fn lemma_blocks_len(runs: Seq<Pixels>, factor: u16)
    ensures
        blocks(runs, factor).len() == runs.len() * (factor * factor),
    decreases runs.len(),
{
    if runs.len() > 0 {
        lemma_blocks_len(runs.drop_last(), factor);
        assert((runs.len() - 1) * (factor * factor) + factor * factor == runs.len() * (factor
            * factor)) by (nonlinear_arith);
    } else {
        assert(0 * (factor * factor) == 0) by (nonlinear_arith);
    }
}

/// A count of pixels times a factor plus what is added, limited to what
/// sixteen bits hold.
fn limit(pixels: u16, factor: u16, added: u16) -> (limited_pixels: u16)
    ensures
        limited_pixels == limited(pixels * factor + added),
{
    assert(pixels * factor <= 0xffff * 0xffff) by (nonlinear_arith)
        requires
            pixels <= 0xffff,
            factor <= 0xffff,
    ;
    let wide: u64 = pixels as u64 * factor as u64 + added as u64;
    if wide > 0xffff {
        0xffff
    } else {
        wide as u16
    }
}

impl<D: Drawable> Drawable for Scale<D> {
    /// The extent of the shape times the factor, limited to what sixteen
    /// bits hold.
    open spec fn extent(&self) -> U16x2 {
        U16x2 {
            x: limited(self.draw.extent().x * self.scale_factor),
            y: limited(self.draw.extent().y * self.scale_factor),
        }
    }

    open spec fn pixels(&self) -> Seq<Pixels> {
        blocks(self.draw.pixels(), self.scale_factor)
    }

    fn size(&self) -> (size: U16x2) {
        let inner = self.draw.size();
        U16x2 { x: limit(inner.x, self.scale_factor, 0), y: limit(inner.y, self.scale_factor, 0) }
    }

    fn draw(&self) -> (pixels: Vec<Pixels>) {
        let inner = self.draw.draw();
        let factor = self.scale_factor;
        assert(factor * factor <= 0xffff * 0xffff) by (nonlinear_arith)
            requires
                factor <= 0xffff,
        ;
        let copies: u32 = factor as u32 * factor as u32;
        let mut pixels: Vec<Pixels> = Vec::new();
        let mut k: usize = 0;
        while k < inner.len()
            invariant
                k <= inner@.len(),
                inner@ == self.draw.pixels(),
                factor == self.scale_factor,
                copies == factor * factor,
                pixels@ =~= blocks(inner@.take(k as int), factor),
            decreases inner@.len() - k,
        {
            let run = inner[k];
            let ghost done = pixels@;
            let mut j: u32 = 0;
            while j < copies
                invariant
                    j <= copies,
                    copies == factor * factor,
                    pixels@ =~= done + block(run, factor).take(j as int),
                decreases copies - j,
            {
                assert(factor > 0) by (nonlinear_arith)
                    requires
                        j < factor * factor,
                ;
                assert(j / (factor as u32) < factor) by (nonlinear_arith)
                    requires
                        j < factor * factor,
                        factor > 0,
                {
                    assert(j == factor * (j / (factor as u32)) + j % (factor as u32));
                    if j / (factor as u32) >= factor {
                        assert(factor * (j / (factor as u32)) >= factor * factor);
                    }
                }
                pixels.push(
                    Pixels {
                        offset_position: U16x2 {
                            x: limit(run.offset_position.x, factor, (j % factor as u32) as u16),
                            y: limit(run.offset_position.y, factor, (j / factor as u32) as u16),
                        },
                        ..run
                    },
                );
                j += 1;
            }
            assert(block(run, factor).take(copies as int) =~= block(run, factor));
            assert(inner@.take(k + 1).drop_last() =~= inner@.take(k as int));
            k += 1;
        }
        assert(inner@.take(inner@.len() as int) =~= inner@);
        pixels
    }
}

} // verus!

//! Drawing text with a font of 8 by 16 pixels: which pixels a glyph sets,
//! where they lie once the glyph is scaled, and which of them are on the
//! screen.

use vstd::prelude::*;

use crate::framebuffer::Framebuffer;

verus! {

/// Pixels in a row of a glyph.
pub const GLYPH_WIDTH: usize = 8;

/// Rows of a glyph.
pub const GLYPH_HEIGHT: usize = 16;

/// Whether column `col` of a glyph row is set in the foreground colour. The
/// highest bit of the row is its leftmost pixel.
pub open spec fn glyph_bit(row_bits: u8, col: nat) -> bool {
    (row_bits >> ((7 - col) as u8)) & 1 == 1
}

/// The colour of column `col` of a glyph row: the foreground where the bit
/// is set, the background elsewhere, and nothing where there is no
/// background, so that what lies beneath shows through.
pub fn glyph_pixel(row_bits: u8, col: usize, fg: u32, bg: Option<u32>) -> (color: Option<u32>)
    requires
        col < GLYPH_WIDTH,
    ensures
        color == if glyph_bit(row_bits, col as nat) {
            Some(fg)
        } else {
            bg
        },
{
    let shift: u8 = (7 - col) as u8;
    let bit = (row_bits >> shift) & 1;
    if bit == 1 {
        Some(fg)
    } else {
        bg
    }
}

/// Where point `step` of cell `cell` lies on one axis, for a glyph that
/// starts at `origin` and is scaled by `scale`: each cell of the glyph covers
/// `scale` points.
pub open spec fn scaled(origin: int, cell: int, scale: int, step: int) -> int {
    origin + cell * scale + step
}

/// A pixel of the screen.
#[derive(Clone, Copy, Debug, PartialEq, Eq, Structural)]
pub struct Pixel {
    pub x: usize,
    pub y: usize,
}

impl Framebuffer {
    /// The pixel that point (`dx`, `dy`) of glyph cell (`col`, `row`) falls
    /// on, for a glyph drawn at (`x`, `y`) with the given scale; `None` where
    /// that point lies off the screen.
    pub fn glyph_point(
        &self,
        x: usize,
        y: usize,
        col: usize,
        row: usize,
        scale: usize,
        dx: usize,
        dy: usize,
    ) -> (pixel: Option<Pixel>)
        ensures
            pixel == if self@.on_screen(
                scaled(x as int, col as int, scale as int, dx as int),
                scaled(y as int, row as int, scale as int, dy as int),
            ) {
                Some(
                    Pixel {
                        x: scaled(x as int, col as int, scale as int, dx as int) as usize,
                        y: scaled(y as int, row as int, scale as int, dy as int) as usize,
                    },
                )
            } else {
                None
            },
    {
        let width = self.width();
        let height = self.height();
        match (axis(x, col, scale, dx), axis(y, row, scale, dy)) {
            (Some(px), Some(py)) => if px < width && py < height {
                Some(Pixel { x: px, y: py })
            } else {
                None
            },
            _ => None,
        }
    }
}

/// `scaled` in machine words, or `None` where the point lies beyond them.
fn axis(origin: usize, cell: usize, scale: usize, step: usize) -> (at: Option<usize>)
    ensures
        at == if scaled(origin as int, cell as int, scale as int, step as int) <= usize::MAX {
            Some(scaled(origin as int, cell as int, scale as int, step as int) as usize)
        } else {
            None
        },
{
    match cell.checked_mul(scale) {
        Some(span) => match origin.checked_add(span) {
            Some(start) => start.checked_add(step),
            None => None,
        },
        None => None,
    }
}

/// Where the next character of a string starts when one starts at `x`: a
/// glyph is 8 cells wide. `None` where that lies beyond the machine word.
pub fn next_glyph_start(x: usize, scale: usize) -> (next: Option<usize>)
    ensures
        next == if x + 8 * scale <= usize::MAX {
            Some((x + 8 * scale) as usize)
        } else {
            None
        },
{
    match scale.checked_mul(GLYPH_WIDTH) {
        Some(advance) => x.checked_add(advance),
        None => None,
    }
}

} // verus!

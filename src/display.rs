//! The 64×32 monochrome framebuffer.

use vstd::prelude::*;
use crate::filled;
use crate::text::{grid_text, render_grid};

verus! {

/// Width of the framebuffer in pixels.
pub const DISPLAY_WIDTH: u8 = 64;

/// Height of the framebuffer in pixels.
pub const DISPLAY_HEIGHT: u8 = 32;

/// Number of pixels of the framebuffer.
pub const DISPLAY_PIXELS: usize = 2048;

/// A frame: one byte per pixel, row-major from the top-left corner, each 0
/// (unset) or 1 (set).
pub open spec fn valid_frame(f: Seq<u8>) -> bool {
    &&& f.len() == DISPLAY_PIXELS
    &&& forall|p: int| 0 <= p < f.len() ==> #[trigger] f[p] <= 1
}

/// The frame with every pixel unset.
pub open spec fn blank_frame() -> Seq<u8> {
    Seq::new(DISPLAY_PIXELS as nat, |p: int| 0u8)
}

/// Bit `col` of a sprite row, counting from the most significant bit
/// (the leftmost pixel).
pub open spec fn sprite_bit(row: u8, col: u8) -> bool {
    (row >> (7 - col) as u8) & 1u8 == 1u8
}

/// Whether pixel `p` of the frame lies under a set bit of `sprite` drawn
/// with its top-left corner at `(x, y)`. Parts of the sprite that fall
/// outside the frame cover nothing.
pub open spec fn covers(sprite: Seq<u8>, x: u8, y: u8, p: int) -> bool {
    let px = p % (DISPLAY_WIDTH as int);
    let py = p / (DISPLAY_WIDTH as int);
    &&& x <= px < x + 8
    &&& y <= py < y + sprite.len()
    &&& sprite_bit(sprite[py - y], (px - x) as u8)
}

/// The other state of a pixel.
pub open spec fn flip(v: u8) -> u8 {
    if v == 0 { 1 } else { 0 }
}

/// The frame after drawing `sprite` at `(x, y)`: every covered pixel flips
/// (exclusive-or), every other pixel stays.
pub open spec fn drawn(f: Seq<u8>, sprite: Seq<u8>, x: u8, y: u8) -> Seq<u8> {
    Seq::new(f.len(), |p: int| if covers(sprite, x, y, p) { flip(f[p]) } else { f[p] })
}

/// Whether drawing `sprite` at `(x, y)` unsets a pixel that was set.
pub open spec fn collides(f: Seq<u8>, sprite: Seq<u8>, x: u8, y: u8) -> bool {
    exists|p: int| 0 <= p < f.len() && #[trigger] covers(sprite, x, y, p) && f[p] != 0
}

/// The framebuffer of the machine.
#[derive(Debug)]
pub struct ChipDisplay {
    pixels: Vec<u8>,
}

impl View for ChipDisplay {
    type V = Seq<u8>;

    closed spec fn view(&self) -> Seq<u8> {
        self.pixels@
    }
}

impl ChipDisplay {
    /// A framebuffer with every pixel unset.
    pub fn new() -> (r: ChipDisplay)
        ensures
            r@ == blank_frame(),
    {
        ChipDisplay { pixels: filled(0u8, DISPLAY_PIXELS) }
    }

    pub fn get_height(&self) -> (r: u8)
        ensures
            r == DISPLAY_HEIGHT,
    {
        DISPLAY_HEIGHT
    }

    pub fn get_width(&self) -> (r: u8)
        ensures
            r == DISPLAY_WIDTH,
    {
        DISPLAY_WIDTH
    }

    /// A copy of the frame, row-major, one byte per pixel.
    pub fn get_pixels(&self) -> (r: Vec<u8>)
        ensures
            r@ == self@,
    {
        self.pixels.clone()
    }

    /// The pixel in column `x` of row `y`.
    pub fn pixel(&self, x: u8, y: u8) -> (r: u8)
        requires
            valid_frame(self@),
            x < DISPLAY_WIDTH,
            y < DISPLAY_HEIGHT,
        ensures
            r == self@[y * DISPLAY_WIDTH + x],
    {
        self.pixels[y as usize * DISPLAY_WIDTH as usize + x as usize]
    }

    /// The frame as text: a space per unset pixel, a full block per set
    /// pixel, rows separated by line breaks.
    pub fn to_text(&self) -> (r: String)
        ensures
            r@ == grid_text(self@, DISPLAY_WIDTH as nat, self@.len()),
    {
        render_grid(&self.pixels, DISPLAY_WIDTH as usize)
    }

    /// Unsets every pixel.
    pub fn clear(&mut self)
        ensures
            final(self)@ == blank_frame(),
    {
        *self = ChipDisplay::new();
    }

    /// Draws `sprite` (one byte per row, eight pixels wide) with its top-left
    /// corner at `(x, y)` by exclusive-or; what falls outside the frame is
    /// dropped. Returns whether a set pixel became unset.
    pub fn draw(&mut self, sprite: &Vec<u8>, x: u8, y: u8) -> (collision: bool)
        requires
            valid_frame(old(self)@),
        ensures
            final(self)@ == drawn(old(self)@, sprite@, x, y),
            valid_frame(final(self)@),
            collision == collides(old(self)@, sprite@, x, y),
    {
        let ghost f0 = self@;
        let mut collision = false;
        let mut p: usize = 0;
        while p < DISPLAY_PIXELS
            invariant
                p <= DISPLAY_PIXELS,
                f0 == old(self)@,
                valid_frame(f0),
                self@.len() == DISPLAY_PIXELS,
                forall|q: int| 0 <= q < p ==> self@[q] == #[trigger] drawn(f0, sprite@, x, y)[q],
                forall|q: int| p <= q < DISPLAY_PIXELS ==> self@[q] == f0[q],
                collision <==> exists|q: int|
                    0 <= q < p && #[trigger] covers(sprite@, x, y, q) && f0[q] != 0,
            decreases DISPLAY_PIXELS - p,
        {
            let px = (p % 64) as u8;
            let py = (p / 64) as u8;
            let hit = if px >= x && px - x < 8 && py >= y && ((py - y) as usize) < sprite.len() {
                let col = px - x;
                (sprite[(py - y) as usize] >> (7 - col)) & 1 == 1
            } else {
                false
            };
            assert(hit == covers(sprite@, x, y, p as int));
            if hit {
                if self.pixels[p] != 0 {
                    collision = true;
                    self.pixels.set(p, 0);
                } else {
                    self.pixels.set(p, 1);
                }
            }
            proof {
                if hit && f0[p as int] != 0 {
                    assert(covers(sprite@, x, y, p as int) && f0[p as int] != 0);
                }
            }
            p += 1;
        }
        proof {
            assert(self@ =~= drawn(f0, sprite@, x, y));
            assert(collision == collides(f0, sprite@, x, y));
        }
        collision
    }
}

} // verus!

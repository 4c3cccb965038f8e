//! Pixel grids of any size: a terminal screen buffer and a sprite bitmap.

use vstd::prelude::*;
use crate::filled;
use crate::text::{cell_char, grid_text, push_char, render_grid, rows_text};

verus! {

/// A `width` × `height` grid of pixels, one byte each, row-major.
#[derive(Debug)]
pub struct Screen {
    pixels: Vec<u8>,
    height: u8,
    width: u8,
}

impl View for Screen {
    type V = Seq<u8>;

    closed spec fn view(&self) -> Seq<u8> {
        self.pixels@
    }
}

impl Screen {
    pub closed spec fn spec_width(&self) -> u8 {
        self.width
    }

    pub closed spec fn spec_height(&self) -> u8 {
        self.height
    }

    pub open spec fn wf(&self) -> bool {
        self@.len() == self.spec_width() * self.spec_height()
    }

    /// A screen of `width` × `height` pixels, all 0.
    pub fn new(width: u8, height: u8) -> (r: Screen)
        ensures
            r.wf(),
            r.spec_width() == width,
            r.spec_height() == height,
            r@ == Seq::new((width * height) as nat, |p: int| 0u8),
    {
        proof {
            lemma_byte_area(width, height);
        }
        Screen { pixels: filled(0u8, height as usize * width as usize), height, width }
    }

    pub fn get_height(&self) -> (r: u8)
        ensures
            r == self.spec_height(),
    {
        self.height
    }

    pub fn get_width(&self) -> (r: u8)
        ensures
            r == self.spec_width(),
    {
        self.width
    }

    /// The pixel in column `x` of row `y`, for writing.
    pub fn pixel_mut(&mut self, x: u8, y: u8) -> (r: &mut u8)
        requires
            old(self).wf(),
            x < old(self).spec_width(),
            y < old(self).spec_height(),
        ensures
            *r == old(self)@[y * old(self).spec_width() + x],
            final(self).spec_width() == old(self).spec_width(),
            final(self).spec_height() == old(self).spec_height(),
            final(self)@ == old(self)@.update(y * old(self).spec_width() + x, *final(r)),
    {
        proof {
            lemma_byte_area(self.width, self.height);
            lemma_cell_in_grid(x as int, y as int, self.width as int, self.height as int);
        }
        &mut self.pixels[y as usize * self.width as usize + x as usize]
    }

    /// The pixel in column `x` of row `y`.
    pub fn pixel(&self, x: u8, y: u8) -> (r: u8)
        requires
            self.wf(),
            x < self.spec_width(),
            y < self.spec_height(),
        ensures
            r == self@[y * self.spec_width() + x],
    {
        proof {
            lemma_byte_area(self.width, self.height);
            lemma_cell_in_grid(x as int, y as int, self.width as int, self.height as int);
        }
        self.pixels[y as usize * self.width as usize + x as usize]
    }

    /// The grid as text: a space per pixel that is 0, a full block per
    /// other pixel, rows separated by line breaks.
    pub fn to_text(&self) -> (r: String)
        requires
            self.wf(),
        ensures
            r@ == grid_text(self@, self.spec_width() as nat, self@.len()),
    {
        if self.width == 0 {
            proof {
                lemma_byte_area(self.width, self.height);
            }
            return String::new();
        }
        render_grid(&self.pixels, self.width as usize)
    }

    /// Sets every pixel to 0.
    pub fn clear(&mut self)
        requires
            old(self).wf(),
        ensures
            final(self).wf(),
            final(self).spec_width() == old(self).spec_width(),
            final(self).spec_height() == old(self).spec_height(),
            final(self)@ == Seq::new(old(self)@.len(), |p: int| 0u8),
    {
        proof {
            lemma_byte_area(self.width, self.height);
        }
        self.pixels = filled(0u8, self.height as usize * self.width as usize);
    }
}

/// A `width` × `height` bitmap, one byte per pixel, row-major.
pub struct Sprite {
    pixels: Vec<u8>,
    height: usize,
    width: usize,
}

impl View for Sprite {
    type V = Seq<u8>;

    closed spec fn view(&self) -> Seq<u8> {
        self.pixels@
    }
}

impl Sprite {
    pub closed spec fn spec_width(&self) -> usize {
        self.width
    }

    pub closed spec fn spec_height(&self) -> usize {
        self.height
    }

    pub open spec fn wf(&self) -> bool {
        &&& self@.len() == self.spec_width() * self.spec_height()
        &&& self.spec_width() * self.spec_height() <= usize::MAX
    }

    /// A sprite of `width` × `height` pixels, all 0.
    pub fn new(width: usize, height: usize) -> (r: Sprite)
        requires
            width * height <= usize::MAX,
        ensures
            r.wf(),
            r.spec_width() == width,
            r.spec_height() == height,
            r@ == Seq::new((width * height) as nat, |p: int| 0u8),
    {
        Sprite { pixels: filled(0u8, height * width), height, width }
    }

    pub fn get_height(&self) -> (r: usize)
        ensures
            r == self.spec_height(),
    {
        self.height
    }

    pub fn get_width(&self) -> (r: usize)
        ensures
            r == self.spec_width(),
    {
        self.width
    }

    /// The pixel in column `x` of row `y`, for writing.
    pub fn pixel_mut(&mut self, x: usize, y: usize) -> (r: &mut u8)
        requires
            old(self).wf(),
            x < old(self).spec_width(),
            y < old(self).spec_height(),
        ensures
            *r == old(self)@[y * old(self).spec_width() + x],
            final(self).spec_width() == old(self).spec_width(),
            final(self).spec_height() == old(self).spec_height(),
            final(self)@ == old(self)@.update(y * old(self).spec_width() + x, *final(r)),
    {
        proof {
            lemma_cell_in_grid(x as int, y as int, self.width as int, self.height as int);
        }
        &mut self.pixels[y * self.width + x]
    }

    /// The pixel in column `x` of row `y`.
    pub fn pixel(&self, x: usize, y: usize) -> (r: u8)
        requires
            self.wf(),
            x < self.spec_width(),
            y < self.spec_height(),
        ensures
            r == self@[y * self.spec_width() + x],
    {
        proof {
            lemma_cell_in_grid(x as int, y as int, self.width as int, self.height as int);
        }
        self.pixels[y * self.width + x]
    }
}

impl Sprite {
    /// The sprite as text: a space per pixel that is 0, a full block per
    /// other pixel, each row followed by a line break.
    pub fn to_text(&self) -> (r: String)
        requires
            self.wf(),
        ensures
            r@ == rows_text(self@, self.spec_width() as nat, self.spec_height() as nat),
    {
        let mut s = String::new();
        let mut row: usize = 0;
        while row < self.height
            invariant
                row <= self.height,
                self.wf(),
                s@ == rows_text(self@, self.width as nat, row as nat),
            decreases self.height - row,
        {
            let ghost before = s@;
            let mut col: usize = 0;
            while col < self.width
                invariant
                    col <= self.width,
                    row < self.height,
                    self.wf(),
                    s@ == before + Seq::new(
                        col as nat,
                        |c: int| cell_char(self@[row * self.width + c]),
                    ),
                decreases self.width - col,
            {
                proof {
                    lemma_cell_in_grid(col as int, row as int, self.width as int, self.height as int);
                }
                let c = if self.pixels[row * self.width + col] == 0 { ' ' } else { '█' };
                push_char(&mut s, c);
                col += 1;
                proof {
                    assert(s@ =~= before + Seq::new(
                        col as nat,
                        |c: int| cell_char(self@[row * self.width + c]),
                    ));
                }
            }
            push_char(&mut s, '\n');
            row += 1;
        }
        s
    }
}

/// The area of a grid with sides below 256, in either order of the factors.
proof fn lemma_byte_area(w: u8, h: u8)
    ensures
        w * h == h * w,
        0 <= w * h <= 65025,
{
    assert(w * h == h * w && 0 <= w * h <= 65025) by (nonlinear_arith)
        requires
            0 <= w <= 255,
            0 <= h <= 255,
    ;
}

/// Cell `(x, y)` of a `w` × `h` grid lies inside its row-major storage.
proof fn lemma_cell_in_grid(x: int, y: int, w: int, h: int)
    requires
        0 <= x < w,
        0 <= y < h,
    ensures
        0 <= y * w + x < w * h,
        0 <= y * w <= y * w + x,
{
    assert(y * w + x < w * h) by (nonlinear_arith)
        requires
            0 <= x < w,
            0 <= y < h,
    ;
    assert(0 <= y * w) by (nonlinear_arith)
        requires
            0 <= y,
            0 <= w,
    ;
}

} // verus!

use vstd::prelude::*;

use crate::canvas::{byte_chan, byte_col, byte_row, channel_of, diag_hits, Canvas, MAX_COORD};
use crate::color::Rgb;

verus! {

/// The uniform drawing capability: a surface that owns a byte buffer of
/// `surf_width() * surf_height() * surf_bpp()` bytes and offers the canvas
/// primitives on it. `Canvas` implements it directly in pixel space; a
/// world-space surface can implement it by transforming coordinates before
/// delegating to its canvas.
pub trait Draw {
    /// Width of the surface in pixels.
    spec fn surf_width(&self) -> int;

    /// Height of the surface in pixels.
    spec fn surf_height(&self) -> int;

    /// Bytes per pixel of the surface.
    spec fn surf_bpp(&self) -> int;

    /// The surface's byte buffer.
    spec fn surf_bytes(&self) -> Seq<u8>;

    /// Well-formedness of the surface.
    spec fn surf_wf(&self) -> bool;

    /// Sets every pixel of the surface to `color`.
    fn fill(&mut self, color: Rgb)
        requires
            old(self).surf_wf(),
        ensures
            final(self).surf_wf(),
            final(self).surf_width() == old(self).surf_width(),
            final(self).surf_height() == old(self).surf_height(),
            final(self).surf_bpp() == old(self).surf_bpp(),
            final(self).surf_bytes().len() == old(self).surf_bytes().len(),
            forall|i: int|
                0 <= i < old(self).surf_bytes().len() ==> final(self).surf_bytes()[i] == (
                if byte_chan(old(self).surf_bpp(), i) < 3 {
                    channel_of(color, byte_chan(old(self).surf_bpp(), i))
                } else {
                    old(self).surf_bytes()[i]
                }),
    ;

    /// Writes the three channels of `color` starting at `red_index`; the
    /// caller guarantees the range is inside the buffer.
    fn set_pixel_from_index(&mut self, red_index: usize, color: Rgb)
        requires
            red_index + 2 < old(self).surf_bytes().len(),
        ensures
            final(self).surf_width() == old(self).surf_width(),
            final(self).surf_height() == old(self).surf_height(),
            final(self).surf_bpp() == old(self).surf_bpp(),
            final(self).surf_wf() == old(self).surf_wf(),
            final(self).surf_bytes().len() == old(self).surf_bytes().len(),
            forall|i: int|
                0 <= i < old(self).surf_bytes().len() ==> final(self).surf_bytes()[i] == (if i
                    == red_index {
                    color.red
                } else if i == red_index + 1 {
                    color.green
                } else if i == red_index + 2 {
                    color.blue
                } else {
                    old(self).surf_bytes()[i]
                }),
    ;

    /// Bounds-checked pixel write; off-surface writes are dropped.
    fn set_pixel(&mut self, x: usize, y: usize, color: Rgb)
        requires
            old(self).surf_wf(),
        ensures
            final(self).surf_wf(),
            final(self).surf_width() == old(self).surf_width(),
            final(self).surf_height() == old(self).surf_height(),
            final(self).surf_bpp() == old(self).surf_bpp(),
            final(self).surf_bytes().len() == old(self).surf_bytes().len(),
            forall|i: int|
                0 <= i < old(self).surf_bytes().len() ==> final(self).surf_bytes()[i] == (if x
                    < old(self).surf_width() && y < old(self).surf_height() && byte_chan(
                    old(self).surf_bpp(),
                    i,
                ) < 3 && byte_col(old(self).surf_width(), old(self).surf_bpp(), i) == x
                    && byte_row(old(self).surf_width(), old(self).surf_bpp(), i) == y {
                    channel_of(color, byte_chan(old(self).surf_bpp(), i))
                } else {
                    old(self).surf_bytes()[i]
                }),
    ;

    /// Read-only view of the surface's byte buffer.
    fn access_data(&self) -> (d: &[u8])
        ensures
            d@ == self.surf_bytes(),
    ;

    /// Writes `color` on row `y` for the columns `[x1, x2)`, clipped to the
    /// surface.
    fn draw_horizontal_line(&mut self, y: usize, x1: usize, x2: usize, color: Rgb)
        requires
            old(self).surf_wf(),
        ensures
            final(self).surf_wf(),
            final(self).surf_width() == old(self).surf_width(),
            final(self).surf_height() == old(self).surf_height(),
            final(self).surf_bpp() == old(self).surf_bpp(),
            final(self).surf_bytes().len() == old(self).surf_bytes().len(),
            forall|i: int|
                0 <= i < old(self).surf_bytes().len() ==> final(self).surf_bytes()[i] == (
                if byte_chan(old(self).surf_bpp(), i) < 3 && byte_row(
                    old(self).surf_width(),
                    old(self).surf_bpp(),
                    i,
                ) == y && x1 <= byte_col(old(self).surf_width(), old(self).surf_bpp(), i)
                    && byte_col(old(self).surf_width(), old(self).surf_bpp(), i) < x2 {
                    channel_of(color, byte_chan(old(self).surf_bpp(), i))
                } else {
                    old(self).surf_bytes()[i]
                }),
    ;

    /// Writes `color` in column `x` for the rows `[y1, y2)`, clipped to the
    /// surface.
    fn draw_vertical_line(&mut self, x: usize, y1: usize, y2: usize, color: Rgb)
        requires
            old(self).surf_wf(),
        ensures
            final(self).surf_wf(),
            final(self).surf_width() == old(self).surf_width(),
            final(self).surf_height() == old(self).surf_height(),
            final(self).surf_bpp() == old(self).surf_bpp(),
            final(self).surf_bytes().len() == old(self).surf_bytes().len(),
            forall|i: int|
                0 <= i < old(self).surf_bytes().len() ==> final(self).surf_bytes()[i] == (
                if byte_chan(old(self).surf_bpp(), i) < 3 && byte_col(
                    old(self).surf_width(),
                    old(self).surf_bpp(),
                    i,
                ) == x && y1 <= byte_row(old(self).surf_width(), old(self).surf_bpp(), i)
                    && byte_row(old(self).surf_width(), old(self).surf_bpp(), i) < y2 {
                    channel_of(color, byte_chan(old(self).surf_bpp(), i))
                } else {
                    old(self).surf_bytes()[i]
                }),
    ;

    /// Rasterizes a line from `(x1, y1)` towards `(x2, y2)` by equal-step
    /// interpolation, clipped to the surface.
    fn draw_diagonal_line(&mut self, x1: usize, y1: usize, x2: usize, y2: usize, color: Rgb)
        requires
            old(self).surf_wf(),
            x1 <= MAX_COORD,
            y1 <= MAX_COORD,
            x2 <= MAX_COORD,
            y2 <= MAX_COORD,
        ensures
            final(self).surf_wf(),
            final(self).surf_width() == old(self).surf_width(),
            final(self).surf_height() == old(self).surf_height(),
            final(self).surf_bpp() == old(self).surf_bpp(),
            final(self).surf_bytes().len() == old(self).surf_bytes().len(),
            forall|i: int|
                0 <= i < old(self).surf_bytes().len() ==> final(self).surf_bytes()[i] == (
                if byte_chan(old(self).surf_bpp(), i) < 3 && diag_hits(
                    x1 as int,
                    y1 as int,
                    x2 as int,
                    y2 as int,
                    byte_col(old(self).surf_width(), old(self).surf_bpp(), i),
                    byte_row(old(self).surf_width(), old(self).surf_bpp(), i),
                ) {
                    channel_of(color, byte_chan(old(self).surf_bpp(), i))
                } else {
                    old(self).surf_bytes()[i]
                }),
    ;
}

impl Draw for Canvas {
    open spec fn surf_width(&self) -> int {
        self.width as int
    }

    open spec fn surf_height(&self) -> int {
        self.height as int
    }

    open spec fn surf_bpp(&self) -> int {
        self.bpp as int
    }

    open spec fn surf_bytes(&self) -> Seq<u8> {
        self@
    }

    open spec fn surf_wf(&self) -> bool {
        self.wf()
    }

    fn fill(&mut self, color: Rgb) {
        Canvas::fill(self, color)
    }

    fn set_pixel_from_index(&mut self, red_index: usize, color: Rgb) {
        Canvas::set_pixel_from_index(self, red_index, color)
    }

    fn set_pixel(&mut self, x: usize, y: usize, color: Rgb) {
        Canvas::set_pixel(self, x, y, color)
    }

    fn access_data(&self) -> (d: &[u8]) {
        Canvas::access_data(self)
    }

    fn draw_horizontal_line(&mut self, y: usize, x1: usize, x2: usize, color: Rgb) {
        Canvas::draw_horizontal_line(self, y, x1, x2, color)
    }

    fn draw_vertical_line(&mut self, x: usize, y1: usize, y2: usize, color: Rgb) {
        Canvas::draw_vertical_line(self, x, y1, y2, color)
    }

    fn draw_diagonal_line(&mut self, x1: usize, y1: usize, x2: usize, y2: usize, color: Rgb) {
        Canvas::draw_diagonal_line(self, x1, y1, x2, y2, color)
    }
}

} // verus!

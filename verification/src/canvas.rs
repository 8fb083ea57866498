use vstd::arithmetic::div_mod::{
    lemma_div_is_ordered, lemma_div_multiples_vanish, lemma_fundamental_div_mod,
    lemma_fundamental_div_mod_converse,
};
use vstd::arithmetic::mul::{lemma_mul_inequality, lemma_mul_is_commutative};
use vstd::prelude::*;

use crate::color::Rgb;

verus! {

/// Largest pixel coordinate the drawing primitives accept; it keeps every
/// intermediate product of the rasterizer inside 64-bit arithmetic.
pub const MAX_COORD: usize = 0x4000_0000;

/// A rectangular pixel buffer: `width * height` pixels, `bpp` bytes each,
/// stored row-major, top to bottom, channel order red, green, blue
/// (a fourth byte, when present, is only a stride pad).
pub struct Canvas {
    pub width: usize,
    pub height: usize,
    pub data: Vec<u8>,
    pub bpp: usize,
}

impl View for Canvas {
    type V = Seq<u8>;

    open spec fn view(&self) -> Seq<u8> {
        self.data@
    }
}

/// Channel `j` of a color in buffer order: red, green, blue.
pub open spec fn channel_of(color: Rgb, j: int) -> u8 {
    if j == 0 {
        color.red
    } else if j == 1 {
        color.green
    } else {
        color.blue
    }
}

/// Byte index of the red channel of pixel `(x, y)`.
pub open spec fn red_index_of(width: int, bpp: int, x: int, y: int) -> int {
    x * bpp + y * (width * bpp)
}

/// Which channel of its pixel byte `i` holds.
pub open spec fn byte_chan(bpp: int, i: int) -> int {
    i % bpp
}

/// Column of the pixel that byte `i` belongs to.
pub open spec fn byte_col(width: int, bpp: int, i: int) -> int {
    (i / bpp) % width
}

/// Row of the pixel that byte `i` belongs to.
pub open spec fn byte_row(width: int, bpp: int, i: int) -> int {
    (i / bpp) / width
}

/// Absolute distance between two coordinates.
pub open spec fn dist(a: int, b: int) -> int {
    if b >= a {
        b - a
    } else {
        a - b
    }
}

/// Number of interpolation steps of the equal-step line rasterizer:
/// the larger of the two axis distances.
pub open spec fn diag_steps(x1: int, y1: int, x2: int, y2: int) -> int {
    if dist(x1, x2) > dist(y1, y2) {
        dist(x1, x2)
    } else {
        dist(y1, y2)
    }
}

/// Coordinate of interpolation step `k` along one axis: the floor of
/// `c1 + k * (c2 - c1) / n`, the accumulator value after `k` equal steps.
pub open spec fn diag_coord(c1: int, c2: int, n: int, k: int) -> int {
    if c2 >= c1 {
        c1 + (k * (c2 - c1)) / n
    } else {
        c1 - ((k * (c1 - c2) + n - 1) / n)
    }
}

/// Whether one of the first `m` interpolation steps of the line from
/// `(x1, y1)` towards `(x2, y2)` lands on pixel `(px, py)`.
pub open spec fn diag_hits_upto(
    x1: int,
    y1: int,
    x2: int,
    y2: int,
    m: int,
    px: int,
    py: int,
) -> bool {
    exists|k: int|
        0 <= k < m && px == diag_coord(x1, x2, diag_steps(x1, y1, x2, y2), k) && py == diag_coord(
            y1,
            y2,
            diag_steps(x1, y1, x2, y2),
            k,
        )
}

/// The pixel set of the rasterized line from `(x1, y1)` towards `(x2, y2)`:
/// one pixel per interpolation step, the endpoint excluded; a zero-length
/// line covers exactly its start pixel.
pub open spec fn diag_hits(x1: int, y1: int, x2: int, y2: int, px: int, py: int) -> bool {
    let n = diag_steps(x1, y1, x2, y2);
    if n == 0 {
        px == x1 && py == y1
    } else {
        diag_hits_upto(x1, y1, x2, y2, n, px, py)
    }
}

/// The bytes of pixel `(x, y)` are exactly the bytes `i` with
/// `byte_col(i) == x` and `byte_row(i) == y`; this direction maps the
/// pixel to its byte indices.
pub proof fn lemma_byte_coords(width: int, height: int, bpp: int, x: int, y: int, j: int)
    requires
        0 < bpp,
        0 <= x < width,
        0 <= y < height,
        0 <= j < bpp,
    ensures
        0 <= red_index_of(width, bpp, x, y),
        red_index_of(width, bpp, x, y) + bpp <= width * height * bpp,
        byte_chan(bpp, red_index_of(width, bpp, x, y) + j) == j,
        byte_col(width, bpp, red_index_of(width, bpp, x, y) + j) == x,
        byte_row(width, bpp, red_index_of(width, bpp, x, y) + j) == y,
{
    let ri: int = x * bpp + y * (width * bpp);
    let p: int = x + y * width;
    assert(ri == p * bpp && 0 <= p && p + 1 <= width * height) by (nonlinear_arith)
        requires
            0 < bpp,
            0 <= x < width,
            0 <= y < height,
            ri == x * bpp + y * (width * bpp),
            p == x + y * width,
    ;
    assert(p * bpp + bpp <= width * height * bpp) by (nonlinear_arith)
        requires
            0 < bpp,
            0 <= p,
            p + 1 <= width * height,
    ;
    lemma_fundamental_div_mod_converse(ri + j, bpp, p, j);
    lemma_fundamental_div_mod_converse(p, width, y, x);
}

/// Every byte index of the buffer decomposes uniquely into a pixel
/// coordinate and a channel; this direction recovers them from the index.
pub proof fn lemma_byte_split(width: int, height: int, bpp: int, i: int)
    requires
        0 < width,
        0 < bpp,
        0 <= i < width * height * bpp,
    ensures
        0 <= byte_chan(bpp, i) < bpp,
        0 <= byte_col(width, bpp, i) < width,
        0 <= byte_row(width, bpp, i) < height,
        i == red_index_of(width, bpp, byte_col(width, bpp, i), byte_row(width, bpp, i)) + byte_chan(
            bpp,
            i,
        ),
{
    lemma_fundamental_div_mod(i, bpp);
    assert(0 <= i % bpp < bpp) by (nonlinear_arith)
        requires
            0 < bpp,
            0 <= i,
    ;
    let p: int = i / bpp;
    assert(0 <= p < width * height) by (nonlinear_arith)
        requires
            0 < bpp,
            0 <= i < width * height * bpp,
            bpp * p + i % bpp == i,
            0 <= i % bpp < bpp,
    ;
    lemma_fundamental_div_mod(p, width);
    assert(0 <= p % width < width) by (nonlinear_arith)
        requires
            0 < width,
            0 <= p,
    ;
    let col: int = p % width;
    let row: int = p / width;
    let ch: int = i % bpp;
    assert(0 <= row < height) by (nonlinear_arith)
        requires
            0 < width,
            0 <= p < width * height,
            width * row + col == p,
            0 <= col < width,
    ;
    assert(col * bpp + row * (width * bpp) + ch == i) by (nonlinear_arith)
        requires
            i == bpp * p + ch,
            p == width * row + col,
    ;
}

/// One axis of the equal-step interpolation: the pixel the accumulator
/// reaches after `k` of `n` steps from `c1` towards `c2`.
fn interp_coord(c1: usize, c2: usize, d: usize, n: usize, k: usize) -> (c: usize)
    requires
        c1 <= MAX_COORD,
        c2 <= MAX_COORD,
        d == dist(c1 as int, c2 as int),
        0 < n <= MAX_COORD,
        d <= n,
        k < n,
    ensures
        c as int == diag_coord(c1 as int, c2 as int, n as int, k as int),
        c <= MAX_COORD,
{
    proof {
        assert((k as int) * (d as int) <= 0x1000_0000_0000_0000int) by (nonlinear_arith)
            requires
                0 <= k <= 0x4000_0000,
                0 <= d <= 0x4000_0000,
        ;
        lemma_mul_inequality(k as int, n as int, d as int);
    }
    if c2 >= c1 {
        proof {
            lemma_mul_is_commutative(n as int, d as int);
            lemma_div_is_ordered((k as int) * (d as int), (n as int) * (d as int), n as int);
            lemma_div_multiples_vanish(d as int, n as int);
        }
        let q: u64 = (k as u64) * (d as u64) / (n as u64);
        c1 + (q as usize)
    } else {
        proof {
            lemma_mul_is_commutative(n as int, d as int);
            lemma_div_is_ordered(
                (k as int) * (d as int) + n - 1,
                (n as int) * (d as int) + n - 1,
                n as int,
            );
            lemma_fundamental_div_mod_converse(
                (n as int) * (d as int) + n - 1,
                n as int,
                d as int,
                n - 1,
            );
        }
        let q: u64 = ((k as u64) * (d as u64) + (n as u64) - 1) / (n as u64);
        c1 - (q as usize)
    }
}

impl Canvas {
    /// A canvas is well formed when its buffer length matches its
    /// dimensions and its pixel depth is 3 or 4 bytes.
    pub open spec fn wf(self) -> bool {
        &&& self@.len() == self.width * self.height * self.bpp
        &&& (self.bpp == 3 || self.bpp == 4)
        &&& self.width * self.height * self.bpp <= usize::MAX
        &&& self.width * self.bpp <= usize::MAX
    }

    /// The three channel bytes of pixel `(x, y)` hold `color`.
    pub open spec fn pixel_is(self, x: int, y: int, color: Rgb) -> bool {
        let ri = red_index_of(self.width as int, self.bpp as int, x, y);
        &&& self@[ri] == color.red
        &&& self@[ri + 1] == color.green
        &&& self@[ri + 2] == color.blue
    }

    /// Allocates a zero-filled buffer of exactly `width * height * bpp` bytes.
    pub fn new(width: usize, height: usize, bpp: usize) -> (c: Canvas)
        requires
            bpp == 3 || bpp == 4,
            width * height * bpp <= usize::MAX,
            width * bpp <= usize::MAX,
        ensures
            c.wf(),
            c.width == width,
            c.height == height,
            c.bpp == bpp,
            c@.len() == width * height * bpp,
            forall|i: int| 0 <= i < c@.len() ==> c@[i] == 0u8,
    {
        proof {
            assert(width * height <= width * height * bpp && width * height * bpp == (width * height)
                * bpp) by (nonlinear_arith)
                requires
                    bpp >= 3,
            ;
        }
        let pixels: usize = width * height;
        let total: usize = pixels * bpp;
        let mut data: Vec<u8> = Vec::new();
        while data.len() < total
            invariant
                data@.len() <= total,
                forall|i: int| 0 <= i < data@.len() ==> data@[i] == 0u8,
            decreases total - data@.len(),
        {
            data.push(0u8);
        }
        Canvas { width, height, data, bpp }
    }

    /// Bytes per buffer row.
    #[inline(always)]
    pub fn span(&self) -> (s: usize)
        requires
            self.width * self.bpp <= usize::MAX,
        ensures
            s == self.width * self.bpp,
    {
        self.width * self.bpp
    }

    /// Allocates a buffer and fills every pixel with `color`
    /// (pad bytes, when present, stay zero).
    pub fn new_with_color(width: usize, height: usize, color: Rgb, bpp: usize) -> (c: Canvas)
        requires
            bpp == 3 || bpp == 4,
            width * height * bpp <= usize::MAX,
            width * bpp <= usize::MAX,
        ensures
            c.wf(),
            c.width == width,
            c.height == height,
            c.bpp == bpp,
            c@.len() == width * height * bpp,
            forall|i: int|
                0 <= i < c@.len() ==> c@[i] == (if byte_chan(bpp as int, i) < 3 {
                    channel_of(color, byte_chan(bpp as int, i))
                } else {
                    0u8
                }),
            forall|x: int, y: int|
                0 <= x < width && 0 <= y < height ==> c.pixel_is(x, y, color),
    {
        let mut canvas = Canvas::new(width, height, bpp);
        canvas.fill(color);
        canvas
    }

    /// Sets every pixel of the canvas to `color`; pad bytes are untouched.
    pub fn fill(&mut self, color: Rgb)
        requires
            old(self).wf(),
        ensures
            final(self).wf(),
            final(self).width == old(self).width,
            final(self).height == old(self).height,
            final(self).bpp == old(self).bpp,
            final(self)@.len() == old(self)@.len(),
            forall|i: int|
                0 <= i < old(self)@.len() ==> final(self)@[i] == (if byte_chan(
                    old(self).bpp as int,
                    i,
                ) < 3 {
                    channel_of(color, byte_chan(old(self).bpp as int, i))
                } else {
                    old(self)@[i]
                }),
            forall|x: int, y: int|
                0 <= x < old(self).width && 0 <= y < old(self).height ==> final(self).pixel_is(
                    x,
                    y,
                    color,
                ),
    {
        let ghost orig: Canvas = *self;
        let ghost w = self.width as int;
        let ghost h = self.height as int;
        let ghost b = self.bpp as int;
        let mut i: usize = 0;
        while i < self.width
            invariant
                self.wf(),
                self.width == orig.width,
                self.height == orig.height,
                self.bpp == orig.bpp,
                self@.len() == orig@.len(),
                w == orig.width as int && h == orig.height as int && b == orig.bpp as int,
                i <= self.width,
                forall|k: int|
                    0 <= k < orig@.len() ==> self@[k] == (if byte_chan(b, k) < 3 && byte_col(
                        w,
                        b,
                        k,
                    ) < i {
                        channel_of(color, byte_chan(b, k))
                    } else {
                        orig@[k]
                    }),
            decreases self.width - i,
        {
            let mut j: usize = 0;
            while j < self.height
                invariant
                    self.wf(),
                    self.width == orig.width,
                    self.height == orig.height,
                    self.bpp == orig.bpp,
                    self@.len() == orig@.len(),
                    w == orig.width as int && h == orig.height as int && b == orig.bpp as int,
                    i < self.width,
                    j <= self.height,
                    forall|k: int|
                        0 <= k < orig@.len() ==> self@[k] == (if byte_chan(b, k) < 3 && (byte_col(
                            w,
                            b,
                            k,
                        ) < i || (byte_col(w, b, k) == i && byte_row(w, b, k) < j)) {
                            channel_of(color, byte_chan(b, k))
                        } else {
                            orig@[k]
                        }),
                decreases self.height - j,
            {
                let ghost before: Canvas = *self;
                self.set_pixel(i, j, color);
                proof {
                    assert forall|k: int| 0 <= k < orig@.len() implies self@[k] == (if byte_chan(
                        b,
                        k,
                    ) < 3 && (byte_col(w, b, k) < i || (byte_col(w, b, k) == i && byte_row(w, b, k)
                        < j + 1)) {
                        channel_of(color, byte_chan(b, k))
                    } else {
                        orig@[k]
                    }) by {
                        assert(before@[k] == (if byte_chan(b, k) < 3 && (byte_col(w, b, k) < i || (
                        byte_col(w, b, k) == i && byte_row(w, b, k) < j)) {
                            channel_of(color, byte_chan(b, k))
                        } else {
                            orig@[k]
                        }));
                        assert(self@[k] == (if i < before.width && j < before.height && byte_chan(
                            b,
                            k,
                        ) < 3 && byte_col(w, b, k) == i && byte_row(w, b, k) == j {
                            channel_of(color, byte_chan(b, k))
                        } else {
                            before@[k]
                        }));
                    }
                }
                j += 1;
            }
            proof {
                assert forall|k: int| 0 <= k < orig@.len() implies self@[k] == (if byte_chan(b, k)
                    < 3 && byte_col(w, b, k) < i + 1 {
                    channel_of(color, byte_chan(b, k))
                } else {
                    orig@[k]
                }) by {
                    lemma_byte_split(w, h, b, k);
                }
            }
            i += 1;
        }
        proof {
            assert forall|k: int| 0 <= k < orig@.len() implies self@[k] == (if byte_chan(b, k)
                < 3 {
                channel_of(color, byte_chan(b, k))
            } else {
                orig@[k]
            }) by {
                lemma_byte_split(w, h, b, k);
            }
            assert forall|x: int, y: int|
                0 <= x < orig.width && 0 <= y < orig.height implies self.pixel_is(x, y, color) by {
                lemma_byte_coords(w, h, b, x, y, 0);
                lemma_byte_coords(w, h, b, x, y, 1);
                lemma_byte_coords(w, h, b, x, y, 2);
            }
        }
    }

    /// Writes the three channels of `color` at `red_index`, `red_index + 1`,
    /// `red_index + 2`; the caller guarantees the range is inside the buffer.
    #[inline(always)]
    pub fn set_pixel_from_index(&mut self, red_index: usize, color: Rgb)
        requires
            red_index + 2 < old(self)@.len(),
        ensures
            final(self).width == old(self).width,
            final(self).height == old(self).height,
            final(self).bpp == old(self).bpp,
            final(self)@.len() == old(self)@.len(),
            forall|i: int|
                0 <= i < old(self)@.len() ==> final(self)@[i] == (if i == red_index {
                    color.red
                } else if i == red_index + 1 {
                    color.green
                } else if i == red_index + 2 {
                    color.blue
                } else {
                    old(self)@[i]
                }),
    {
        let len: usize = self.data.len();
        assert(red_index + 2 < len);
        self.data[red_index] = color.red;
        self.data[red_index + 1] = color.green;
        self.data[red_index + 2] = color.blue;
    }

    /// Bounds-checked pixel write: writes `color` at `(x, y)` and silently
    /// drops the write when the coordinate is off the canvas.
    pub fn set_pixel(&mut self, x: usize, y: usize, color: Rgb)
        requires
            old(self).wf(),
        ensures
            final(self).wf(),
            final(self).width == old(self).width,
            final(self).height == old(self).height,
            final(self).bpp == old(self).bpp,
            final(self)@.len() == old(self)@.len(),
            forall|i: int|
                0 <= i < old(self)@.len() ==> final(self)@[i] == (if x < old(self).width && y < old(
                    self,
                ).height && byte_chan(old(self).bpp as int, i) < 3 && byte_col(
                    old(self).width as int,
                    old(self).bpp as int,
                    i,
                ) == x && byte_row(old(self).width as int, old(self).bpp as int, i) == y {
                    channel_of(color, byte_chan(old(self).bpp as int, i))
                } else {
                    old(self)@[i]
                }),
    {
        if x >= self.width || y >= self.height {
            return ;
        }
        let ghost w = self.width as int;
        let ghost h = self.height as int;
        let ghost b = self.bpp as int;
        proof {
            lemma_byte_coords(w, h, b, x as int, y as int, 0);
            lemma_byte_coords(w, h, b, x as int, y as int, 1);
            lemma_byte_coords(w, h, b, x as int, y as int, 2);
        }
        let span: usize = self.width * self.bpp;
        let y_offset: usize = y * span;
        let red_index: usize = x * self.bpp + y_offset;
        let ghost before: Canvas = *self;
        self.set_pixel_from_index(red_index, color);
        proof {
            assert forall|i: int| 0 <= i < before@.len() implies self@[i] == (if x < before.width
                && y < before.height && byte_chan(b, i) < 3 && byte_col(w, b, i) == x && byte_row(
                w,
                b,
                i,
            ) == y {
                channel_of(color, byte_chan(b, i))
            } else {
                before@[i]
            }) by {
                lemma_byte_split(w, h, b, i);
            }
        }
    }

    /// Consumes the canvas, handing out its dimensions and raw buffer.
    pub fn into_raw(self) -> (r: (usize, usize, Vec<u8>))
        ensures
            r.0 == self.width,
            r.1 == self.height,
            r.2@ == self@,
    {
        (self.width, self.height, self.data)
    }

    /// Read-only view of the full pixel buffer, without a copy.
    pub fn access_data(&self) -> (d: &[u8])
        ensures
            d@ == self@,
            self.wf() ==> d@.len() == self.width * self.height * self.bpp,
    {
        self.data.as_slice()
    }

    /// Writes `color` on row `y` for every column in `[x1, x2)` that lies on
    /// the canvas; columns and rows beyond the canvas are clipped.
    pub fn draw_horizontal_line(&mut self, y: usize, x1: usize, x2: usize, color: Rgb)
        requires
            old(self).wf(),
        ensures
            final(self).wf(),
            final(self).width == old(self).width,
            final(self).height == old(self).height,
            final(self).bpp == old(self).bpp,
            final(self)@.len() == old(self)@.len(),
            forall|i: int|
                0 <= i < old(self)@.len() ==> final(self)@[i] == (if byte_chan(
                    old(self).bpp as int,
                    i,
                ) < 3 && byte_row(old(self).width as int, old(self).bpp as int, i) == y && x1
                    <= byte_col(old(self).width as int, old(self).bpp as int, i) < x2 {
                    channel_of(color, byte_chan(old(self).bpp as int, i))
                } else {
                    old(self)@[i]
                }),
    {
        let ghost orig: Canvas = *self;
        let ghost w = self.width as int;
        let ghost h = self.height as int;
        let ghost b = self.bpp as int;
        if y >= self.height {
            proof {
                assert forall|i: int| 0 <= i < orig@.len() implies byte_row(w, b, i) != y by {
                    lemma_byte_split(w, h, b, i);
                }
            }
            return ;
        }
        let end: usize = if x2 <= self.width {
            x2
        } else {
            self.width
        };
        let mut ix: usize = x1;
        while ix < end
            invariant
                self.wf(),
                self.width == orig.width,
                self.height == orig.height,
                self.bpp == orig.bpp,
                self@.len() == orig@.len(),
                w == orig.width as int && h == orig.height as int && b == orig.bpp as int,
                y < orig.height,
                x1 <= ix,
                ix <= end || ix == x1,
                end <= orig.width,
                forall|k: int| #![trigger byte_chan(b, k)]
                    0 <= k < orig@.len() ==> self@[k] == (if byte_chan(b, k) < 3 && byte_row(
                        w,
                        b,
                        k,
                    ) == y && x1 <= byte_col(w, b, k) && byte_col(w, b, k) < ix {
                        channel_of(color, byte_chan(b, k))
                    } else {
                        orig@[k]
                    }),
            decreases end - ix,
        {
            let ghost before: Canvas = *self;
            self.set_pixel(ix, y, color);
            proof {
                assert forall|k: int| 0 <= k < orig@.len() implies self@[k] == (if byte_chan(b, k)
                    < 3 && byte_row(w, b, k) == y && x1 <= byte_col(w, b, k) && byte_col(w, b, k)
                    < ix + 1 {
                    channel_of(color, byte_chan(b, k))
                } else {
                    orig@[k]
                }) by {
                    assert(before@[k] == (if byte_chan(b, k) < 3 && byte_row(w, b, k) == y && x1
                        <= byte_col(w, b, k) && byte_col(w, b, k) < ix {
                        channel_of(color, byte_chan(b, k))
                    } else {
                        orig@[k]
                    }));
                    assert(self@[k] == (if ix < before.width && y < before.height && byte_chan(
                        b,
                        k,
                    ) < 3 && byte_col(w, b, k) == ix && byte_row(w, b, k) == y {
                        channel_of(color, byte_chan(b, k))
                    } else {
                        before@[k]
                    }));
                }
            }
            ix += 1;
        }
        proof {
            assert forall|k: int| 0 <= k < orig@.len() implies self@[k] == (if byte_chan(b, k) < 3
                && byte_row(w, b, k) == y && x1 <= byte_col(w, b, k) && byte_col(w, b, k) < x2 {
                channel_of(color, byte_chan(b, k))
            } else {
                orig@[k]
            }) by {
                lemma_byte_split(w, h, b, k);
            }
        }
    }

    /// Writes `color` in column `x` for every row in `[y1, y2)` that lies on
    /// the canvas; columns and rows beyond the canvas are clipped.
    pub fn draw_vertical_line(&mut self, x: usize, y1: usize, y2: usize, color: Rgb)
        requires
            old(self).wf(),
        ensures
            final(self).wf(),
            final(self).width == old(self).width,
            final(self).height == old(self).height,
            final(self).bpp == old(self).bpp,
            final(self)@.len() == old(self)@.len(),
            forall|i: int|
                0 <= i < old(self)@.len() ==> final(self)@[i] == (if byte_chan(
                    old(self).bpp as int,
                    i,
                ) < 3 && byte_col(old(self).width as int, old(self).bpp as int, i) == x && y1
                    <= byte_row(old(self).width as int, old(self).bpp as int, i) < y2 {
                    channel_of(color, byte_chan(old(self).bpp as int, i))
                } else {
                    old(self)@[i]
                }),
    {
        let ghost orig: Canvas = *self;
        let ghost w = self.width as int;
        let ghost h = self.height as int;
        let ghost b = self.bpp as int;
        if x >= self.width {
            proof {
                assert forall|i: int| 0 <= i < orig@.len() implies byte_col(w, b, i) != x by {
                    lemma_byte_split(w, h, b, i);
                }
            }
            return ;
        }
        let end: usize = if y2 <= self.height {
            y2
        } else {
            self.height
        };
        let mut iy: usize = y1;
        while iy < end
            invariant
                self.wf(),
                self.width == orig.width,
                self.height == orig.height,
                self.bpp == orig.bpp,
                self@.len() == orig@.len(),
                w == orig.width as int && h == orig.height as int && b == orig.bpp as int,
                x < orig.width,
                y1 <= iy,
                iy <= end || iy == y1,
                end <= orig.height,
                forall|k: int| #![trigger byte_chan(b, k)]
                    0 <= k < orig@.len() ==> self@[k] == (if byte_chan(b, k) < 3 && byte_col(
                        w,
                        b,
                        k,
                    ) == x && y1 <= byte_row(w, b, k) && byte_row(w, b, k) < iy {
                        channel_of(color, byte_chan(b, k))
                    } else {
                        orig@[k]
                    }),
            decreases end - iy,
        {
            let ghost before: Canvas = *self;
            self.set_pixel(x, iy, color);
            proof {
                assert forall|k: int| 0 <= k < orig@.len() implies self@[k] == (if byte_chan(b, k)
                    < 3 && byte_col(w, b, k) == x && y1 <= byte_row(w, b, k) && byte_row(w, b, k)
                    < iy + 1 {
                    channel_of(color, byte_chan(b, k))
                } else {
                    orig@[k]
                }) by {
                    assert(before@[k] == (if byte_chan(b, k) < 3 && byte_col(w, b, k) == x && y1
                        <= byte_row(w, b, k) && byte_row(w, b, k) < iy {
                        channel_of(color, byte_chan(b, k))
                    } else {
                        orig@[k]
                    }));
                    assert(self@[k] == (if x < before.width && iy < before.height && byte_chan(
                        b,
                        k,
                    ) < 3 && byte_col(w, b, k) == x && byte_row(w, b, k) == iy {
                        channel_of(color, byte_chan(b, k))
                    } else {
                        before@[k]
                    }));
                }
            }
            iy += 1;
        }
        proof {
            assert forall|k: int| 0 <= k < orig@.len() implies self@[k] == (if byte_chan(b, k) < 3
                && byte_col(w, b, k) == x && y1 <= byte_row(w, b, k) && byte_row(w, b, k) < y2 {
                channel_of(color, byte_chan(b, k))
            } else {
                orig@[k]
            }) by {
                lemma_byte_split(w, h, b, k);
            }
        }
    }

    /// Rasterizes an arbitrary line by equal-step interpolation: one pixel
    /// per step, each step's coordinates rounded down, written through the
    /// bounds-checked `set_pixel`. A zero-length line draws exactly one
    /// pixel, at `(x1, y1)`.
    pub fn draw_diagonal_line(&mut self, x1: usize, y1: usize, x2: usize, y2: usize, color: Rgb)
        requires
            old(self).wf(),
            x1 <= MAX_COORD,
            y1 <= MAX_COORD,
            x2 <= MAX_COORD,
            y2 <= MAX_COORD,
        ensures
            final(self).wf(),
            final(self).width == old(self).width,
            final(self).height == old(self).height,
            final(self).bpp == old(self).bpp,
            final(self)@.len() == old(self)@.len(),
            forall|i: int|
                #![trigger byte_chan(old(self).bpp as int, i)]
                0 <= i < old(self)@.len() ==> final(self)@[i] == (if byte_chan(
                    old(self).bpp as int,
                    i,
                ) < 3 && diag_hits(
                    x1 as int,
                    y1 as int,
                    x2 as int,
                    y2 as int,
                    byte_col(old(self).width as int, old(self).bpp as int, i),
                    byte_row(old(self).width as int, old(self).bpp as int, i),
                ) {
                    channel_of(color, byte_chan(old(self).bpp as int, i))
                } else {
                    old(self)@[i]
                }),
    {
        let ghost orig: Canvas = *self;
        let ghost w = self.width as int;
        let ghost h = self.height as int;
        let ghost b = self.bpp as int;
        let distance_x: usize = if x2 > x1 {
            x2 - x1
        } else {
            x1 - x2
        };
        let distance_y: usize = if y2 > y1 {
            y2 - y1
        } else {
            y1 - y2
        };
        let num_steps: usize = if distance_x > distance_y {
            distance_x
        } else {
            distance_y
        };
        let ghost n = num_steps as int;
        if num_steps == 0 {
            let ghost before: Canvas = *self;
            self.set_pixel(x1, y1, color);
            proof {
                assert forall|i: int|
                    #![trigger byte_chan(b, i)]
                    0 <= i < orig@.len() implies self@[i] == (if byte_chan(b, i) < 3 && diag_hits(
                    x1 as int,
                    y1 as int,
                    x2 as int,
                    y2 as int,
                    byte_col(w, b, i),
                    byte_row(w, b, i),
                ) {
                    channel_of(color, byte_chan(b, i))
                } else {
                    orig@[i]
                }) by {
                    lemma_byte_split(w, h, b, i);
                    assert(self@[i] == (if x1 < before.width && y1 < before.height && byte_chan(
                        b,
                        i,
                    ) < 3 && byte_col(w, b, i) == x1 && byte_row(w, b, i) == y1 {
                        channel_of(color, byte_chan(b, i))
                    } else {
                        before@[i]
                    }));
                }
            }
            return ;
        }
        let mut k: usize = 0;
        while k < num_steps
            invariant
                self.wf(),
                self.width == orig.width,
                self.height == orig.height,
                self.bpp == orig.bpp,
                self@.len() == orig@.len(),
                w == orig.width as int && h == orig.height as int && b == orig.bpp as int,
                x1 <= MAX_COORD && y1 <= MAX_COORD && x2 <= MAX_COORD && y2 <= MAX_COORD,
                distance_x == dist(x1 as int, x2 as int),
                distance_y == dist(y1 as int, y2 as int),
                distance_x <= num_steps && distance_y <= num_steps,
                1 <= num_steps <= MAX_COORD,
                n == num_steps as int,
                n == diag_steps(x1 as int, y1 as int, x2 as int, y2 as int),
                k <= num_steps,
                forall|i: int|
                    #![trigger byte_chan(b, i)]
                    0 <= i < orig@.len() ==> self@[i] == (if byte_chan(b, i) < 3 && diag_hits_upto(
                        x1 as int,
                        y1 as int,
                        x2 as int,
                        y2 as int,
                        k as int,
                        byte_col(w, b, i),
                        byte_row(w, b, i),
                    ) {
                        channel_of(color, byte_chan(b, i))
                    } else {
                        orig@[i]
                    }),
            decreases num_steps - k,
        {
            let next_x: usize = interp_coord(x1, x2, distance_x, num_steps, k);
            let next_y: usize = interp_coord(y1, y2, distance_y, num_steps, k);
            let ghost before: Canvas = *self;
            self.set_pixel(next_x, next_y, color);
            proof {
                assert forall|i: int|
                    #![trigger byte_chan(b, i)]
                    0 <= i < orig@.len() implies self@[i] == (if byte_chan(b, i) < 3
                    && diag_hits_upto(
                    x1 as int,
                    y1 as int,
                    x2 as int,
                    y2 as int,
                    k + 1,
                    byte_col(w, b, i),
                    byte_row(w, b, i),
                ) {
                    channel_of(color, byte_chan(b, i))
                } else {
                    orig@[i]
                }) by {
                    lemma_byte_split(w, h, b, i);
                    assert(before@[i] == (if byte_chan(b, i) < 3 && diag_hits_upto(
                        x1 as int,
                        y1 as int,
                        x2 as int,
                        y2 as int,
                        k as int,
                        byte_col(w, b, i),
                        byte_row(w, b, i),
                    ) {
                        channel_of(color, byte_chan(b, i))
                    } else {
                        orig@[i]
                    }));
                    assert(self@[i] == (if next_x < before.width && next_y < before.height
                        && byte_chan(b, i) < 3 && byte_col(w, b, i) == next_x && byte_row(w, b, i)
                        == next_y {
                        channel_of(color, byte_chan(b, i))
                    } else {
                        before@[i]
                    }));
                    if byte_chan(b, i) < 3 && byte_col(w, b, i) == next_x && byte_row(w, b, i)
                        == next_y {
                        assert(diag_hits_upto(
                            x1 as int,
                            y1 as int,
                            x2 as int,
                            y2 as int,
                            k + 1,
                            byte_col(w, b, i),
                            byte_row(w, b, i),
                        ));
                    }
                }
            }
            k += 1;
        }
        proof {
            assert forall|i: int|
                #![trigger byte_chan(b, i)]
                0 <= i < orig@.len() implies self@[i] == (if byte_chan(b, i) < 3 && diag_hits(
                x1 as int,
                y1 as int,
                x2 as int,
                y2 as int,
                byte_col(w, b, i),
                byte_row(w, b, i),
            ) {
                channel_of(color, byte_chan(b, i))
            } else {
                orig@[i]
            }) by {
                lemma_byte_split(w, h, b, i);
            }
        }
    }
}

} // verus!

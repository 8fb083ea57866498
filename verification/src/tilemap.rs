use vstd::prelude::*;

use crate::canvas::{
    byte_chan, byte_col, byte_row, channel_of, diag_hits, Canvas, MAX_COORD,
};
use crate::color::Rgb;
use crate::geometry::{lemma_ccw_eval, point_bounded, spec_intersects, LineSegment, Point};
use vstd::arithmetic::div_mod::{
    lemma_fundamental_div_mod, lemma_fundamental_div_mod_converse, lemma_mod_multiples_vanish,
};

verus! {

/// Largest grid index or map origin component the transform accepts; it
/// keeps the affine products inside 64-bit arithmetic.
pub const MAX_GRID: usize = 0x10000;

/// Largest magnitude the precomputed shift can take: `MAX_GRID * MAX_COORD`.
pub const MAX_SHIFT: i64 = 0x4000_0000_0000;

/// A diamond-shaped ("isometric") tile: the four corner offsets are the
/// edge midpoints of the `width x height` bounding rectangle.
#[derive(Debug, Copy, Clone)]
pub struct Tile {
    pub color: Rgb,
    pub pt1: (usize, usize),
    pub pt2: (usize, usize),
    pub pt3: (usize, usize),
    pub pt4: (usize, usize),
    pub width: usize,
    pub height: usize,
}

/// The triangular region of the bounding rectangle a point falls in when
/// it lies outside the diamond, or `NotInCorner` when it is inside.
#[derive(Debug, Copy, Clone, PartialEq, Eq, Structural)]
pub enum TileCorner {
    NotInCorner,
    TopLeft,
    TopRight,
    BottomLeft,
    BottomRight,
}

/// Center of the tile's bounding rectangle.
pub open spec fn tile_center(t: Tile) -> Point {
    Point { x: (t.width / 2) as usize, y: (t.height / 2) as usize }
}

/// Diamond edge from the top vertex to the right vertex.
pub open spec fn edge_top_right(t: Tile) -> LineSegment {
    LineSegment {
        p1: Point { x: t.pt1.0, y: t.pt1.1 },
        p2: Point { x: t.pt2.0, y: t.pt2.1 },
    }
}

/// Diamond edge from the right vertex to the bottom vertex.
pub open spec fn edge_right_bottom(t: Tile) -> LineSegment {
    LineSegment {
        p1: Point { x: t.pt2.0, y: t.pt2.1 },
        p2: Point { x: t.pt3.0, y: t.pt3.1 },
    }
}

/// Diamond edge from the bottom vertex to the left vertex.
pub open spec fn edge_bottom_left(t: Tile) -> LineSegment {
    LineSegment {
        p1: Point { x: t.pt3.0, y: t.pt3.1 },
        p2: Point { x: t.pt4.0, y: t.pt4.1 },
    }
}

/// Diamond edge from the left vertex to the top vertex.
pub open spec fn edge_left_top(t: Tile) -> LineSegment {
    LineSegment {
        p1: Point { x: t.pt4.0, y: t.pt4.1 },
        p2: Point { x: t.pt1.0, y: t.pt1.1 },
    }
}

/// Classifies `p` against the diamond boundary: the segment from `p` to
/// the tile center crosses exactly the edge facing the rectangle corner
/// that `p` lies in, and no edge when `p` is inside the diamond.
pub open spec fn corner_of(t: Tile, p: Point) -> TileCorner {
    let probe = LineSegment { p1: p, p2: tile_center(t) };
    if spec_intersects(edge_top_right(t), probe) {
        TileCorner::TopRight
    } else if spec_intersects(edge_right_bottom(t), probe) {
        TileCorner::BottomRight
    } else if spec_intersects(edge_bottom_left(t), probe) {
        TileCorner::BottomLeft
    } else if spec_intersects(edge_left_top(t), probe) {
        TileCorner::TopLeft
    } else {
        TileCorner::NotInCorner
    }
}

impl Tile {
    /// Dimensions are positive and bounded, and the four corner offsets
    /// lie inside the bounding rectangle.
    pub open spec fn wf(self) -> bool {
        &&& 1 <= self.width <= MAX_COORD
        &&& 1 <= self.height <= MAX_COORD
        &&& self.pt1.0 <= self.width && self.pt1.1 <= self.height
        &&& self.pt2.0 <= self.width && self.pt2.1 <= self.height
        &&& self.pt3.0 <= self.width && self.pt3.1 <= self.height
        &&& self.pt4.0 <= self.width && self.pt4.1 <= self.height
    }

    /// The corner offsets are the canonical diamond: the edge midpoints of
    /// the bounding rectangle, in the order top, right, bottom, left.
    pub open spec fn is_diamond(self) -> bool {
        &&& self.pt1.0 == self.width / 2 && self.pt1.1 == 0
        &&& self.pt2.0 == self.width && self.pt2.1 == self.height / 2
        &&& self.pt3.0 == self.width / 2 && self.pt3.1 == self.height
        &&& self.pt4.0 == 0 && self.pt4.1 == self.height / 2
    }

    /// A square tile.
    pub fn square(size: usize) -> (t: Tile)
        requires
            1 <= size <= MAX_COORD,
        ensures
            t.wf(),
            t.is_diamond(),
            t.width == size,
            t.height == size,
            t.color == (Rgb { red: 0u8, green: 0u8, blue: 0u8 }),
    {
        let width = size;
        let height = size;
        Tile::new(width, height)
    }

    /// A black diamond tile of the given bounding-rectangle size.
    pub fn new(width: usize, height: usize) -> (t: Tile)
        requires
            1 <= width <= MAX_COORD,
            1 <= height <= MAX_COORD,
        ensures
            t.wf(),
            t.is_diamond(),
            t.width == width,
            t.height == height,
            t.color == (Rgb { red: 0u8, green: 0u8, blue: 0u8 }),
    {
        Tile {
            color: Rgb::black(),
            pt1: (width / 2, 0),
            pt2: (width, height / 2),
            pt3: (width / 2, height),
            pt4: (0, height / 2),
            width,
            height,
        }
    }

    /// The four diamond edges, connecting the corner offsets in order.
    pub fn get_line_segments(&self) -> (r: [LineSegment; 4])
        ensures
            r[0] == edge_top_right(*self),
            r[1] == edge_right_bottom(*self),
            r[2] == edge_bottom_left(*self),
            r[3] == edge_left_top(*self),
    {
        let pt1 = Point::from(self.pt1);
        let pt2 = Point::from(self.pt2);
        let pt3 = Point::from(self.pt3);
        let pt4 = Point::from(self.pt4);

        let ls1 = LineSegment::from((pt1, pt2));
        let ls2 = LineSegment::from((pt2, pt3));
        let ls3 = LineSegment::from((pt3, pt4));
        let ls4 = LineSegment::from((pt4, pt1));

        [ls1, ls2, ls3, ls4]
    }

    /// Which rectangle corner `point` falls in, seen from this tile: the
    /// segment from `point` to the tile center is tested against each of
    /// the four diamond edges; no crossing means the point is inside.
    pub fn point_is_outside_tile(&self, point: Point) -> (r: TileCorner)
        requires
            self.wf(),
            point_bounded(point),
        ensures
            r == corner_of(*self, point),
    {
        let ls = LineSegment {
            p1: point,
            p2: Point { x: self.width / 2, y: self.height / 2 },
        };

        let segments = self.get_line_segments();
        if segments[0].intersects(ls) {
            return TileCorner::TopRight;
        }
        if segments[1].intersects(ls) {
            return TileCorner::BottomRight;
        }
        if segments[2].intersects(ls) {
            return TileCorner::BottomLeft;
        }
        if segments[3].intersects(ls) {
            return TileCorner::TopLeft;
        }

        TileCorner::NotInCorner
    }
}

/// An isometric tile map: one tile shape, a grid size, a grid origin, and
/// the precomputed shift and 2x2 integer matrix of the grid-to-screen
/// transform. The shift and matrix are recomputed from the tile and origin
/// only by an explicit `calculate_transform` call.
#[derive(Debug)]
pub struct GameMap {
    pub tile: Tile,
    pub map_size: (usize, usize),
    pub map_origin: (usize, usize),
    pub shift_x: isize,
    pub shift_y: isize,
    pub map_to_screen_transform: [isize; 4],
}

/// Screen x coordinate of grid cell `(col, row)` under the map's affine
/// transform.
pub open spec fn iso_x(m: GameMap, col: int, row: int) -> int {
    m.shift_x + col * m.map_to_screen_transform[0] + row * m.map_to_screen_transform[1]
}

/// Screen y coordinate of grid cell `(col, row)` under the map's affine
/// transform.
pub open spec fn iso_y(m: GameMap, col: int, row: int) -> int {
    m.shift_y + col * m.map_to_screen_transform[2] + row * m.map_to_screen_transform[3]
}

/// The position of the mouse inside its coarse tile cell.
pub open spec fn within_tile_point(m: GameMap, mx: int, my: int) -> Point {
    Point {
        x: (mx % (m.tile.width as int)) as usize,
        y: (my % (m.tile.height as int)) as usize,
    }
}

/// The grid cell a mouse pixel selects: the coarse cell through the
/// inverse isometric relation, then the corner adjustment that corrects
/// for the bounding rectangle overlapping the four diagonal neighbours.
pub open spec fn spec_selected(m: GameMap, mx: int, my: int) -> (int, int) {
    let cell_x = mx / (m.tile.width as int);
    let cell_y = my / (m.tile.height as int);
    let dcol = cell_x - m.map_origin.0;
    let drow = cell_y - m.map_origin.1;
    let base_col = drow + dcol;
    let base_row = drow - dcol;
    match corner_of(m.tile, within_tile_point(m, mx, my)) {
        TileCorner::NotInCorner => (base_col, base_row),
        TileCorner::TopLeft => (base_col - 1, base_row),
        TileCorner::TopRight => (base_col, base_row - 1),
        TileCorner::BottomLeft => (base_col, base_row + 1),
        TileCorner::BottomRight => (base_col + 1, base_row),
    }
}

/// The selected cell, or nothing when it falls outside the map bounds.
pub open spec fn spec_mouse_cell(m: GameMap, mx: int, my: int) -> Option<(usize, usize)> {
    let sel = spec_selected(m, mx, my);
    if sel.0 < 0 || sel.1 < 0 {
        None
    } else if sel.0 >= m.map_size.0 || sel.1 >= m.map_size.1 {
        None
    } else {
        Some((sel.0 as usize, sel.1 as usize))
    }
}

/// The pixels covered by the four rasterized diamond edges of the tile at
/// grid cell `(col, row)`.
pub open spec fn tile_edge_hits(m: GameMap, col: int, row: int, px: int, py: int) -> bool {
    let ox = iso_x(m, col, row);
    let oy = iso_y(m, col, row);
    let t = m.tile;
    ||| diag_hits(t.pt1.0 + ox, t.pt1.1 + oy, t.pt2.0 + ox, t.pt2.1 + oy, px, py)
    ||| diag_hits(t.pt2.0 + ox, t.pt2.1 + oy, t.pt3.0 + ox, t.pt3.1 + oy, px, py)
    ||| diag_hits(t.pt3.0 + ox, t.pt3.1 + oy, t.pt4.0 + ox, t.pt4.1 + oy, px, py)
    ||| diag_hits(t.pt4.0 + ox, t.pt4.1 + oy, t.pt1.0 + ox, t.pt1.1 + oy, px, py)
}

impl GameMap {
    /// The tile is well formed and the grid, origin, matrix and shift are
    /// bounded so that the transform stays inside 64-bit arithmetic.
    pub open spec fn wf(self) -> bool {
        &&& self.tile.wf()
        &&& self.map_size.0 <= MAX_GRID && self.map_size.1 <= MAX_GRID
        &&& self.map_origin.0 <= MAX_GRID && self.map_origin.1 <= MAX_GRID
        &&& -(MAX_COORD as int) <= self.map_to_screen_transform[0] <= MAX_COORD as int
        &&& -(MAX_COORD as int) <= self.map_to_screen_transform[1] <= MAX_COORD as int
        &&& -(MAX_COORD as int) <= self.map_to_screen_transform[2] <= MAX_COORD as int
        &&& -(MAX_COORD as int) <= self.map_to_screen_transform[3] <= MAX_COORD as int
        &&& -(MAX_SHIFT as int) <= self.shift_x <= MAX_SHIFT as int
        &&& -(MAX_SHIFT as int) <= self.shift_y <= MAX_SHIFT as int
    }

    /// The shift and matrix agree with the current tile size and map
    /// origin, exactly as `calculate_transform` computes them.
    pub open spec fn transform_current(self) -> bool {
        &&& self.shift_x == self.map_origin.0 * self.tile.width
        &&& self.shift_y == self.map_origin.1 * self.tile.height
        &&& self.map_to_screen_transform[0] == self.tile.width / 2
        &&& self.map_to_screen_transform[1] == -(self.tile.width / 2)
        &&& self.map_to_screen_transform[2] == self.tile.height / 2
        &&& self.map_to_screen_transform[3] == self.tile.height / 2
    }

    /// Recomputes the shift and the 2x2 matrix from the tile dimensions
    /// and the map origin. Must be called again whenever either changes.
    pub fn calculate_transform(&mut self)
        requires
            old(self).tile.wf(),
            old(self).map_origin.0 <= MAX_GRID,
            old(self).map_origin.1 <= MAX_GRID,
            old(self).map_origin.0 * old(self).tile.width <= isize::MAX,
            old(self).map_origin.1 * old(self).tile.height <= isize::MAX,
        ensures
            final(self).tile == old(self).tile,
            final(self).map_size == old(self).map_size,
            final(self).map_origin == old(self).map_origin,
            final(self).shift_x == old(self).map_origin.0 * old(self).tile.width,
            final(self).shift_y == old(self).map_origin.1 * old(self).tile.height,
            final(self).transform_current(),
            old(self).map_size.0 <= MAX_GRID && old(self).map_size.1 <= MAX_GRID
                ==> final(self).wf(),
    {
        proof {
            let o0 = self.map_origin.0 as int;
            let o1 = self.map_origin.1 as int;
            let tw = self.tile.width as int;
            let th = self.tile.height as int;
            assert(o0 * tw <= 0x4000_0000_0000int && o1 * th <= 0x4000_0000_0000int)
                by (nonlinear_arith)
                requires
                    0 <= o0 <= 0x10000,
                    0 <= tw <= 0x4000_0000,
                    0 <= o1 <= 0x10000,
                    0 <= th <= 0x4000_0000,
            ;
        }
        let shift_x = (self.map_origin.0 * self.tile.width) as isize;
        let shift_y = (self.map_origin.1 * self.tile.height) as isize;
        self.shift_x = shift_x;
        self.shift_y = shift_y;

        // matrix multiplication, 2d matrix:
        // |tx| * [ A B ]
        // |ty| * [ C D ]
        let a = (self.tile.width / 2) as isize;
        let b = -a;
        let c = (self.tile.height / 2) as isize;
        let d = c;
        self.map_to_screen_transform = [a, b, c, d];
    }

    /// Applies the affine grid-to-screen transform to cell `(x, y)`.
    pub fn transform_coordinate(&self, x: usize, y: usize) -> (r: (usize, usize))
        requires
            self.wf(),
            x <= MAX_GRID,
            y <= MAX_GRID,
            0 <= iso_x(*self, x as int, y as int) <= usize::MAX,
            0 <= iso_y(*self, x as int, y as int) <= usize::MAX,
        ensures
            r.0 == iso_x(*self, x as int, y as int),
            r.1 == iso_y(*self, x as int, y as int),
    {
        let tx = x as i64;
        let ty = y as i64;
        let shift_x = self.shift_x as i64;
        let shift_y = self.shift_y as i64;

        let a = self.map_to_screen_transform[0] as i64;
        let b = self.map_to_screen_transform[1] as i64;
        let c = self.map_to_screen_transform[2] as i64;
        let d = self.map_to_screen_transform[3] as i64;
        proof {
            assert(-(0x4_0000_0000_0000int) <= (tx as int) * (a as int) <= 0x4_0000_0000_0000int
                && -(0x4_0000_0000_0000int) <= (ty as int) * (b as int) <= 0x4_0000_0000_0000int
                && -(0x4_0000_0000_0000int) <= (tx as int) * (c as int) <= 0x4_0000_0000_0000int
                && -(0x4_0000_0000_0000int) <= (ty as int) * (d as int) <= 0x4_0000_0000_0000int)
                by (nonlinear_arith)
                requires
                    -(0x4000_0000int) <= a as int <= 0x4000_0000int,
                    -(0x4000_0000int) <= b as int <= 0x4000_0000int,
                    -(0x4000_0000int) <= c as int <= 0x4000_0000int,
                    -(0x4000_0000int) <= d as int <= 0x4000_0000int,
                    0 <= tx as int <= 0x10000int,
                    0 <= ty as int <= 0x10000int,
            ;
        }
        let new_x: i64 = (tx * a) + (ty * b);
        let new_y: i64 = (tx * c) + (ty * d);
        // shift is a lateral transformation.
        let new_x: i64 = shift_x + new_x;
        let new_y: i64 = shift_y + new_y;
        (new_x as usize, new_y as usize)
    }

    /// Maps a mouse pixel position back to the grid cell under it, with
    /// exact corner disambiguation; `None` when the position falls outside
    /// the map bounds.
    pub fn mouse_to_world_coordinate(&self, x: usize, y: usize) -> (r: Option<(usize, usize)>)
        requires
            self.wf(),
            x <= MAX_COORD,
            y <= MAX_COORD,
        ensures
            r == spec_mouse_cell(*self, x as int, y as int),
    {
        let cell_x: usize = x / self.tile.width;
        let cell_y: usize = y / self.tile.height;

        let dcol: i64 = cell_x as i64 - self.map_origin.0 as i64;
        let drow: i64 = cell_y as i64 - self.map_origin.1 as i64;

        let within_tile = Point { x: x % self.tile.width, y: y % self.tile.height };
        let point_tile_position = self.tile.point_is_outside_tile(within_tile);

        let (selected_cell_x, selected_cell_y): (i64, i64) = match point_tile_position {
            TileCorner::NotInCorner => (drow + dcol, drow - dcol),
            TileCorner::TopLeft => (drow + dcol - 1, drow - dcol),
            TileCorner::TopRight => (drow + dcol, drow - dcol - 1),
            TileCorner::BottomLeft => (drow + dcol, drow - dcol + 1),
            TileCorner::BottomRight => (drow + dcol + 1, drow - dcol),
        };
        if selected_cell_x < 0 || selected_cell_y < 0 {
            return None;
        }
        let selected_cell_x = selected_cell_x as usize;
        let selected_cell_y = selected_cell_y as usize;
        if selected_cell_x >= self.map_size.0 || selected_cell_y >= self.map_size.1 {
            return None;
        }
        Some((selected_cell_x, selected_cell_y))
    }

    /// Draws the four diamond edges of the tile at grid cell `(x, y)`,
    /// clipped to the canvas.
    pub fn draw_tile(&self, x: usize, y: usize, canvas: &mut Canvas)
        requires
            self.wf(),
            old(canvas).wf(),
            x <= MAX_GRID,
            y <= MAX_GRID,
            0 <= iso_x(*self, x as int, y as int),
            iso_x(*self, x as int, y as int) + self.tile.width <= MAX_COORD,
            0 <= iso_y(*self, x as int, y as int),
            iso_y(*self, x as int, y as int) + self.tile.height <= MAX_COORD,
        ensures
            final(canvas).wf(),
            final(canvas).width == old(canvas).width,
            final(canvas).height == old(canvas).height,
            final(canvas).bpp == old(canvas).bpp,
            final(canvas)@.len() == old(canvas)@.len(),
            forall|i: int|
                #![trigger byte_chan(old(canvas).bpp as int, i)]
                0 <= i < old(canvas)@.len() ==> final(canvas)@[i] == (if byte_chan(
                    old(canvas).bpp as int,
                    i,
                ) < 3 && tile_edge_hits(
                    *self,
                    x as int,
                    y as int,
                    byte_col(old(canvas).width as int, old(canvas).bpp as int, i),
                    byte_row(old(canvas).width as int, old(canvas).bpp as int, i),
                ) {
                    channel_of(self.tile.color, byte_chan(old(canvas).bpp as int, i))
                } else {
                    old(canvas)@[i]
                }),
    {
        let ghost w = canvas.width as int;
        let ghost h = canvas.height as int;
        let ghost b = canvas.bpp as int;
        let (new_x, new_y) = self.transform_coordinate(x, y);
        let tile = &self.tile;
        let color = tile.color;
        let pt1 = (tile.pt1.0 + new_x, tile.pt1.1 + new_y);
        let pt2 = (tile.pt2.0 + new_x, tile.pt2.1 + new_y);
        let pt3 = (tile.pt3.0 + new_x, tile.pt3.1 + new_y);
        let pt4 = (tile.pt4.0 + new_x, tile.pt4.1 + new_y);
        let ghost c0: Canvas = *canvas;
        canvas.draw_diagonal_line(pt1.0, pt1.1, pt2.0, pt2.1, color);
        let ghost c1: Canvas = *canvas;
        canvas.draw_diagonal_line(pt2.0, pt2.1, pt3.0, pt3.1, color);
        let ghost c2: Canvas = *canvas;
        canvas.draw_diagonal_line(pt3.0, pt3.1, pt4.0, pt4.1, color);
        let ghost c3: Canvas = *canvas;
        canvas.draw_diagonal_line(pt4.0, pt4.1, pt1.0, pt1.1, color);
        proof {
            assert forall|i: int|
                #![trigger byte_chan(b, i)]
                0 <= i < c0@.len() implies canvas@[i] == (if byte_chan(b, i) < 3 && tile_edge_hits(
                *self,
                x as int,
                y as int,
                byte_col(w, b, i),
                byte_row(w, b, i),
            ) {
                channel_of(color, byte_chan(b, i))
            } else {
                c0@[i]
            }) by {
                assert(c1@[i] == (if byte_chan(b, i) < 3 && diag_hits(
                    pt1.0 as int,
                    pt1.1 as int,
                    pt2.0 as int,
                    pt2.1 as int,
                    byte_col(w, b, i),
                    byte_row(w, b, i),
                ) {
                    channel_of(color, byte_chan(b, i))
                } else {
                    c0@[i]
                }));
                assert(c2@[i] == (if byte_chan(b, i) < 3 && diag_hits(
                    pt2.0 as int,
                    pt2.1 as int,
                    pt3.0 as int,
                    pt3.1 as int,
                    byte_col(w, b, i),
                    byte_row(w, b, i),
                ) {
                    channel_of(color, byte_chan(b, i))
                } else {
                    c1@[i]
                }));
                assert(c3@[i] == (if byte_chan(b, i) < 3 && diag_hits(
                    pt3.0 as int,
                    pt3.1 as int,
                    pt4.0 as int,
                    pt4.1 as int,
                    byte_col(w, b, i),
                    byte_row(w, b, i),
                ) {
                    channel_of(color, byte_chan(b, i))
                } else {
                    c2@[i]
                }));
                assert(canvas@[i] == (if byte_chan(b, i) < 3 && diag_hits(
                    pt4.0 as int,
                    pt4.1 as int,
                    pt1.0 as int,
                    pt1.1 as int,
                    byte_col(w, b, i),
                    byte_row(w, b, i),
                ) {
                    channel_of(color, byte_chan(b, i))
                } else {
                    c3@[i]
                }));
            }
        }
    }
}

/// Law: the affine transform maps grid cell `(0, 0)` exactly to the
/// precomputed shift.
pub proof fn lemma_transform_origin_is_shift(m: GameMap)
    ensures
        iso_x(m, 0, 0) == m.shift_x,
        iso_y(m, 0, 0) == m.shift_y,
{
}

/// Law: on a map whose shift and matrix are current and whose tile is the
/// canonical diamond with even dimensions, the pixel at the center of a
/// tile's bounding rectangle maps back to exactly that tile. (The pixel at
/// the rectangle's top-left origin does not: it lies outside the diamond
/// and selects a diagonal neighbour.)
pub proof fn lemma_center_pixel_round_trip(m: GameMap, col: int, row: int)
    requires
        m.wf(),
        m.transform_current(),
        m.tile.is_diamond(),
        m.tile.width % 2 == 0,
        m.tile.height % 2 == 0,
        0 <= col < m.map_size.0,
        0 <= row < m.map_size.1,
    ensures
        spec_mouse_cell(
            m,
            iso_x(m, col, row) + m.tile.width / 2,
            iso_y(m, col, row) + m.tile.height / 2,
        ) == Some((col as usize, row as usize)),
{
    let t = m.tile;
    let w = t.width as int;
    let h = t.height as int;
    let a = w / 2;
    let c = h / 2;
    lemma_fundamental_div_mod(w, 2);
    lemma_fundamental_div_mod(h, 2);
    assert(w == 2 * a && h == 2 * c && 1 <= a && 1 <= c);
    let o0 = m.map_origin.0 as int;
    let o1 = m.map_origin.1 as int;
    let mxv = iso_x(m, col, row) + a;
    let myv = iso_y(m, col, row) + c;

    lemma_fundamental_div_mod(col - row, 2);
    let s = (col - row) / 2;
    lemma_mod_multiples_vanish(row, col - row, 2);
    assert(col + row == 2 * row + (col - row));
    lemma_fundamental_div_mod(col + row, 2);
    let u = (col + row) / 2;

    if (col - row) % 2 == 0 {
        assert(mxv == (o0 + s) * w + a) by (nonlinear_arith)
            requires
                mxv == o0 * w + col * a + row * (-a) + a,
                w == 2 * a,
                col - row == 2 * s,
        ;
        lemma_fundamental_div_mod_converse(mxv, w, o0 + s, a);
        assert(myv == (o1 + u) * h + c) by (nonlinear_arith)
            requires
                myv == o1 * h + col * c + row * c + c,
                h == 2 * c,
                col + row == 2 * u,
        ;
        lemma_fundamental_div_mod_converse(myv, h, o1 + u, c);

        let p = within_tile_point(m, mxv, myv);
        assert(p.x == a && p.y == c);
        let center = tile_center(t);
        let probe = LineSegment { p1: p, p2: center };
        assert(probe.p1 == probe.p2);
        assert(!spec_intersects(edge_top_right(t), probe));
        assert(!spec_intersects(edge_right_bottom(t), probe));
        assert(!spec_intersects(edge_bottom_left(t), probe));
        assert(!spec_intersects(edge_left_top(t), probe));
        assert(corner_of(t, p) == TileCorner::NotInCorner);
        assert(spec_selected(m, mxv, myv) == (u + s, u - s));
        assert(u + s == col && u - s == row);
    } else {
        assert((col - row) % 2 == 1);
        assert(mxv == (o0 + s + 1) * w + 0) by (nonlinear_arith)
            requires
                mxv == o0 * w + col * a + row * (-a) + a,
                w == 2 * a,
                col - row == 2 * s + 1,
        ;
        lemma_fundamental_div_mod_converse(mxv, w, o0 + s + 1, 0);
        assert(myv == (o1 + u + 1) * h + 0) by (nonlinear_arith)
            requires
                myv == o1 * h + col * c + row * c + c,
                h == 2 * c,
                col + row == 2 * u + 1,
        ;
        lemma_fundamental_div_mod_converse(myv, h, o1 + u + 1, 0);

        let p = within_tile_point(m, mxv, myv);
        assert(p.x == 0 && p.y == 0);
        let center = tile_center(t);
        let probe = LineSegment { p1: p, p2: center };

        let e1 = edge_top_right(t);
        let e2 = edge_right_bottom(t);
        let e3 = edge_bottom_left(t);
        let e4 = edge_left_top(t);
        assert((c - 0) * (0 - a) <= (0 - 0) * (a - a) && (c - c) * (0 - 2 * a) <= (0 - c) * (a - 2
            * a) && (c - 2 * c) * (0 - a) > (0 - 2 * c) * (a - a) && (0 - c) * (a - 2 * a) > (2 * c
            - c) * (0 - 2 * a) && (c - c) * (a - 2 * a) > (2 * c - c) * (a - 2 * a) && (c - c) * (
        0 - 0) > (0 - c) * (a - 0) && (0 - c) * (a - 0) <= (0 - c) * (0 - 0) && (c - c) * (a - 0)
            > (0 - c) * (a - 0)) by (nonlinear_arith)
            requires
                1 <= a,
                1 <= c,
        ;
        lemma_ccw_eval(e1.p1, probe.p1, probe.p2, a, 0, 0, 0, a, c);
        lemma_ccw_eval(e1.p2, probe.p1, probe.p2, 2 * a, c, 0, 0, a, c);
        assert(!spec_intersects(e1, probe));
        lemma_ccw_eval(e2.p1, probe.p1, probe.p2, 2 * a, c, 0, 0, a, c);
        lemma_ccw_eval(e2.p2, probe.p1, probe.p2, a, 2 * c, 0, 0, a, c);
        lemma_ccw_eval(e2.p1, e2.p2, probe.p1, 2 * a, c, a, 2 * c, 0, 0);
        lemma_ccw_eval(e2.p1, e2.p2, probe.p2, 2 * a, c, a, 2 * c, a, c);
        assert(!spec_intersects(e2, probe));
        lemma_ccw_eval(e3.p1, probe.p1, probe.p2, a, 2 * c, 0, 0, a, c);
        lemma_ccw_eval(e3.p2, probe.p1, probe.p2, 0, c, 0, 0, a, c);
        assert(!spec_intersects(e3, probe));
        lemma_ccw_eval(e4.p1, probe.p1, probe.p2, 0, c, 0, 0, a, c);
        lemma_ccw_eval(e4.p2, probe.p1, probe.p2, a, 0, 0, 0, a, c);
        lemma_ccw_eval(e4.p1, e4.p2, probe.p1, 0, c, a, 0, 0, 0);
        lemma_ccw_eval(e4.p1, e4.p2, probe.p2, 0, c, a, 0, a, c);
        assert(spec_intersects(e4, probe));
        assert(corner_of(t, p) == TileCorner::TopLeft);
        assert(spec_selected(m, mxv, myv) == (u + s + 2 - 1, u - s));
        assert(u + s + 1 == col && u - s == row);
    }
}

} // verus!

//! Shape tessellation.
//!
//! Each drawing call appends a fixed pattern of vertices and indices to the
//! batch; the contracts state the exact vertices and indices appended. All
//! quads are split into two counter-clockwise triangles in NDC space (see
//! [`crate::winding`] for the orientation lemmas); the permissive cases the
//! drawing API promises — too few circle segments, a zero-length line —
//! append nothing.

use vstd::prelude::*;
use crate::batch::{RendiumDrawHandle, Vertex, plain_vertex, MAX_VERTICES};
use crate::color::Color;
use crate::fx::{SCALE, in_range, trunc_div, trunc_div_i64, rim_cos, rim_sin, rim_unit,
    lemma_trunc_div_shrink, sqrt_floor, is_sqrt_floor, isqrt_u64};
use crate::vector::{Vector2, Vector3, norm2};

verus! {

/// The position of rim vertex `i` of a circle with center `(cx, cy)` and
/// radius `r` tessellated into `n` segments: the center offset by `r`
/// along the fixed-point unit vector at angle `-2 * pi * i / n`.
pub open spec fn rim_point(cx: i64, cy: i64, r: i64, i: int, n: int) -> (i64, i64, i64) {
    (
        (cx + trunc_div(r as int * rim_cos(i, n), SCALE as int)) as i64,
        (cy + trunc_div(r as int * rim_sin(i, n), SCALE as int)) as i64,
        0i64,
    )
}

/// The vertices of a circle tessellated into `n` segments: the center,
/// then the `n` rim vertices in clockwise-negative angle order.
pub open spec fn circle_vertices(cx: i64, cy: i64, r: i64, n: int, c: Color) -> Seq<Vertex> {
    seq![plain_vertex((cx, cy, 0i64), c)]
        + Seq::new(n as nat, |i: int| plain_vertex(rim_point(cx, cy, r, i, n), c))
}

/// The indices of fan triangle `i` over base index `b`: the center, rim
/// vertex `i`, and the next rim vertex, wrapping the last segment back to
/// rim vertex 0.
pub open spec fn fan_triangle(b: int, i: int, n: int) -> Seq<u16> {
    seq![
        b as u16,
        (b + i + 1) as u16,
        (b + (if i + 1 == n { 0int } else { i + 1 }) + 1) as u16,
    ]
}

/// The indices of the first `m` fan triangles of an `n`-segment circle
/// over base index `b`.
pub open spec fn fan_indices(b: int, n: int, m: int) -> Seq<u16>
    decreases m,
{
    if m <= 0 {
        Seq::empty()
    } else {
        fan_indices(b, n, m - 1) + fan_triangle(b, m - 1, n)
    }
}

/// A full `n`-segment fan holds `3 * m` indices.
pub proof fn lemma_fan_indices_len(b: int, n: int, m: int)
    requires
        m >= 0,
    ensures
        fan_indices(b, n, m).len() == 3 * m,
    decreases m,
{
    if m > 0 {
        lemma_fan_indices_len(b, n, m - 1);
    }
}

/// One component of a line quad's offset is at most half the thickness in
/// magnitude, and its intermediate product fits `i64`.
pub(crate) proof fn lemma_line_offset_bound(d: int, t: int, len: int)
    requires
        -len <= d <= len,
        -0x4000_0000 <= t <= 0x4000_0000,
        1 <= len <= 0x1_0000_0000,
    ensures
        -0x4000_0000_0000_0000 <= d * t <= 0x4000_0000_0000_0000,
        -0x2000_0000 <= trunc_div(d * t, 2 * len) <= 0x2000_0000,
{
    let ad = if d >= 0 { d } else { -d };
    let at = if t >= 0 { t } else { -t };
    vstd::arithmetic::mul::lemma_mul_upper_bound(ad, len, at, 0x4000_0000);
    assert(d * t <= ad * at && -(ad * at) <= d * t) by (nonlinear_arith)
        requires
            ad == (if d >= 0 { d } else { -d }),
            at == (if t >= 0 { t } else { -t }),
    ;
    assert(len * 0x4000_0000 == 0x2000_0000 * (2 * len)) by (nonlinear_arith);
    assert(len * 0x4000_0000 <= 0x4000_0000_0000_0000) by (nonlinear_arith)
        requires
            len <= 0x1_0000_0000,
    ;
    lemma_trunc_div_shrink(d * t, 2 * len, 0x2000_0000);
}

/// The perpendicular half-thickness offset of a thick line from `from` to
/// `to`: the left-hand normal of the direction, scaled to half the
/// thickness. `len` below is the fixed-point length of the segment.
pub open spec fn line_offset(from: Vector2, to: Vector2, t: i64) -> (int, int) {
    let dx = to.0 - from.0;
    let dy = to.1 - from.1;
    let len = sqrt_floor(norm2(dx, dy));
    (trunc_div(-dy * t, 2 * len), trunc_div(dx * t, 2 * len))
}

/// The four corners of the quad of a thick line: both endpoints offset to
/// either side of the segment.
pub open spec fn line_vertices(from: Vector2, to: Vector2, t: i64, c: Color) -> Seq<Vertex> {
    let off = line_offset(from, to, t);
    seq![
        plain_vertex(((from.0 + off.0) as i64, (from.1 + off.1) as i64, 0i64), c),
        plain_vertex(((from.0 - off.0) as i64, (from.1 - off.1) as i64, 0i64), c),
        plain_vertex(((to.0 + off.0) as i64, (to.1 + off.1) as i64, 0i64), c),
        plain_vertex(((to.0 - off.0) as i64, (to.1 - off.1) as i64, 0i64), c),
    ]
}

/// The six indices of the line quad's two triangles over a base index `b`.
pub open spec fn line_indices(b: int) -> Seq<u16> {
    seq![
        b as u16,
        (b + 2) as u16,
        (b + 1) as u16,
        (b + 2) as u16,
        (b + 3) as u16,
        (b + 1) as u16,
    ]
}

/// The four corner vertices of an axis-aligned rectangle at `(x, y)` with
/// extents `(w, h)`: top-left, bottom-left, top-right, bottom-right (pixel
/// y grows downward).
pub open spec fn rect_vertices(x: i64, y: i64, w: i64, h: i64, c: Color) -> Seq<Vertex> {
    seq![
        plain_vertex((x, y, 0i64), c),
        plain_vertex((x, (y + h) as i64, 0i64), c),
        plain_vertex(((x + w) as i64, y, 0i64), c),
        plain_vertex(((x + w) as i64, (y + h) as i64, 0i64), c),
    ]
}

/// The six indices of the rectangle's two triangles over a base index `b`:
/// (top-left, bottom-left, top-right) and (top-right, bottom-left,
/// bottom-right), both counter-clockwise in NDC space for positive
/// extents.
pub open spec fn rect_indices(b: int) -> Seq<u16> {
    seq![
        b as u16,
        (b + 1) as u16,
        (b + 2) as u16,
        (b + 2) as u16,
        (b + 1) as u16,
        (b + 3) as u16,
    ]
}

/// The three corner vertices of a triangle.
pub open spec fn triangle_vertices(p1: Vector2, p2: Vector2, p3: Vector2, c: Color) -> Seq<Vertex> {
    seq![
        plain_vertex((p1.0, p1.1, 0i64), c),
        plain_vertex((p2.0, p2.1, 0i64), c),
        plain_vertex((p3.0, p3.1, 0i64), c),
    ]
}

/// The three indices of a triangle over a base index `b`.
pub open spec fn triangle_indices(b: int) -> Seq<u16> {
    seq![b as u16, (b + 1) as u16, (b + 2) as u16]
}

impl RendiumDrawHandle {
    /// Appends an axis-aligned rectangle: exactly 4 vertices and 6
    /// indices forming two triangles. A negative extent mirrors the
    /// rectangle; no validation is performed.
    pub fn draw_rect(&mut self, pos: Vector2, width: i64, height: i64, col: Color)
        requires
            old(self).wf(),
            in_range(pos.0),
            in_range(pos.1),
            in_range(width),
            in_range(height),
            old(self).verts().len() + 4 <= MAX_VERTICES,
        ensures
            final(self).wf(),
            final(self).verts() == old(self).verts()
                + rect_vertices(pos.0, pos.1, width, height, col),
            final(self).idxs() == old(self).idxs()
                + rect_indices(old(self).verts().len() as int),
            final(self).win() == old(self).win(),
            final(self).names() == old(self).names(),
    {
        let base: u16 = self.vertex_count() as u16;
        let x: i64 = pos.0;
        let y: i64 = pos.1;

        self.add_vertex(Vector3(x, y, 0), col);
        self.add_vertex(Vector3(x, y + height, 0), col);
        self.add_vertex(Vector3(x + width, y, 0), col);
        self.add_vertex(Vector3(x + width, y + height, 0), col);

        self.add_index(base);
        self.add_index(base + 1);
        self.add_index(base + 2);

        self.add_index(base + 2);
        self.add_index(base + 1);
        self.add_index(base + 3);

        proof {
            assert(self.verts() =~= old(self).verts()
                + rect_vertices(pos.0, pos.1, width, height, col));
            assert(self.idxs() =~= old(self).idxs()
                + rect_indices(old(self).verts().len() as int));
        }
    }

    /// Appends a rectangular border as four filled strips: top, bottom,
    /// left, right, in that order. The thickness is both the stroke width
    /// and the amount subtracted from the far edges, so a thickness above
    /// half of either extent overlaps itself.
    pub fn draw_rect_lines(
        &mut self,
        pos: Vector2,
        width: i64,
        height: i64,
        thickness: i64,
        col: Color,
    )
        requires
            old(self).wf(),
            in_range(pos.0),
            in_range(pos.1),
            in_range(width),
            in_range(height),
            in_range(thickness),
            -0x4000_0000 <= pos.0 + width - thickness <= 0x4000_0000,
            -0x4000_0000 <= pos.1 + height - thickness <= 0x4000_0000,
            old(self).verts().len() + 16 <= MAX_VERTICES,
        ensures
            final(self).wf(),
            final(self).verts() == old(self).verts()
                + rect_vertices(pos.0, pos.1, width, thickness, col)
                + rect_vertices(pos.0, (pos.1 + height - thickness) as i64, width, thickness, col)
                + rect_vertices(pos.0, pos.1, thickness, height, col)
                + rect_vertices((pos.0 + width - thickness) as i64, pos.1, thickness, height, col),
            final(self).idxs() == old(self).idxs()
                + rect_indices(old(self).verts().len() as int)
                + rect_indices(old(self).verts().len() + 4int)
                + rect_indices(old(self).verts().len() + 8int)
                + rect_indices(old(self).verts().len() + 12int),
            final(self).win() == old(self).win(),
            final(self).names() == old(self).names(),
    {
        let x: i64 = pos.0;
        let y: i64 = pos.1;
        self.draw_rect(pos, width, thickness, col);
        self.draw_rect(Vector2(x, y + height - thickness), width, thickness, col);
        self.draw_rect(pos, thickness, height, col);
        self.draw_rect(Vector2(x + width - thickness, y), thickness, height, col);
    }

    /// Appends a circle as a triangle fan: one center vertex, `segments`
    /// rim vertices, and `3 * segments` indices. Fewer than 3 segments
    /// cannot form a fan, so nothing is appended.
    pub fn draw_circle(&mut self, pos: Vector2, radius: i64, col: Color, segments: usize)
        requires
            old(self).wf(),
            in_range(pos.0),
            in_range(pos.1),
            in_range(radius),
            segments >= 3 ==> old(self).verts().len() + segments + 1 <= MAX_VERTICES,
        ensures
            final(self).wf(),
            final(self).win() == old(self).win(),
            final(self).names() == old(self).names(),
            segments < 3 ==> final(self).verts() == old(self).verts()
                && final(self).idxs() == old(self).idxs(),
            segments >= 3 ==> {
                &&& final(self).verts() == old(self).verts()
                    + circle_vertices(pos.0, pos.1, radius, segments as int, col)
                &&& final(self).idxs() == old(self).idxs()
                    + fan_indices(old(self).verts().len() as int, segments as int, segments as int)
                &&& final(self).verts().len() == old(self).verts().len() + segments + 1
                &&& final(self).idxs().len() == old(self).idxs().len() + 3 * segments
            },
    {
        if segments < 3 {
            return;
        }

        let base: u16 = self.vertex_count() as u16;
        let cx: i64 = pos.0;
        let cy: i64 = pos.1;
        let ghost n = segments as int;

        self.add_vertex(Vector3(cx, cy, 0), col);

        let mut i: usize = 0;
        while i < segments
            invariant
                self.wf(),
                3 <= segments,
                i <= segments,
                base == old(self).verts().len(),
                base + segments + 1 <= MAX_VERTICES,
                in_range(cx),
                in_range(cy),
                in_range(radius),
                n == segments as int,
                self.verts() =~= old(self).verts() + seq![plain_vertex((cx, cy, 0i64), col)]
                    + Seq::new(i as nat, |j: int| plain_vertex(rim_point(cx, cy, radius, j, n), col)),
                self.idxs() == old(self).idxs(),
                self.win() == old(self).win(),
                self.names() == old(self).names(),
            decreases segments - i,
        {
            let cs: (i64, i64) = rim_unit(i, segments);
            proof {
                assert(-(0x4000_0000 * (SCALE as int)) <= radius as int * cs.0 as int
                        <= 0x4000_0000 * (SCALE as int)
                    && -(0x4000_0000 * (SCALE as int)) <= radius as int * cs.1 as int
                        <= 0x4000_0000 * (SCALE as int)
                    && -0x4000_0000_0000 <= radius * cs.0 <= 0x4000_0000_0000
                    && -0x4000_0000_0000 <= radius * cs.1 <= 0x4000_0000_0000)
                    by (nonlinear_arith)
                    requires
                        -0x4000_0000 <= radius <= 0x4000_0000,
                        -4096 <= cs.0 <= 4096,
                        -4096 <= cs.1 <= 4096,
                        SCALE == 4096,
                ;
                lemma_trunc_div_shrink(radius as int * cs.0 as int, SCALE as int, 0x4000_0000);
                lemma_trunc_div_shrink(radius as int * cs.1 as int, SCALE as int, 0x4000_0000);
            }
            let x: i64 = cx + trunc_div_i64(radius * cs.0, SCALE);
            let y: i64 = cy + trunc_div_i64(radius * cs.1, SCALE);
            self.add_vertex(Vector3(x, y, 0), col);
            proof {
                let f = |j: int| plain_vertex(rim_point(cx, cy, radius, j, n), col);
                assert(Seq::new((i + 1) as nat, f) =~= Seq::new(i as nat, f).push(f(i as int)));
                assert(self.verts() =~= old(self).verts() + seq![plain_vertex((cx, cy, 0i64), col)]
                    + Seq::new((i + 1) as nat, f));
            }
            i = i + 1;
        }

        let mut k: usize = 0;
        while k < segments
            invariant
                self.wf(),
                3 <= segments,
                k <= segments,
                base == old(self).verts().len(),
                base + segments + 1 <= MAX_VERTICES,
                n == segments as int,
                self.verts() == old(self).verts()
                    + circle_vertices(cx, cy, radius, n, col),
                self.idxs() =~= old(self).idxs() + fan_indices(base as int, n, k as int),
                self.win() == old(self).win(),
                self.names() == old(self).names(),
            decreases segments - k,
        {
            let next: usize = if k + 1 == segments {
                0
            } else {
                k + 1
            };
            self.add_index(base);
            self.add_index(base + (k as u16) + 1);
            self.add_index(base + (next as u16) + 1);
            proof {
                assert(self.idxs() =~= old(self).idxs()
                    + fan_indices(base as int, n, k + 1));
            }
            k = k + 1;
        }

        proof {
            lemma_fan_indices_len(base as int, n, n);
            assert(self.verts() =~= old(self).verts()
                + circle_vertices(cx, cy, radius, segments as int, col));
            assert(self.idxs() =~= old(self).idxs()
                + fan_indices(old(self).verts().len() as int, segments as int, segments as int));
        }
    }

    /// Appends a triangle: exactly 3 vertices and 3 indices, with no
    /// winding correction — a clockwise triangle in NDC space is culled by
    /// the backend.
    pub fn draw_triangle(&mut self, p1: Vector2, p2: Vector2, p3: Vector2, col: Color)
        requires
            old(self).wf(),
            in_range(p1.0),
            in_range(p1.1),
            in_range(p2.0),
            in_range(p2.1),
            in_range(p3.0),
            in_range(p3.1),
            old(self).verts().len() + 3 <= MAX_VERTICES,
        ensures
            final(self).wf(),
            final(self).verts() == old(self).verts() + triangle_vertices(p1, p2, p3, col),
            final(self).idxs() == old(self).idxs()
                + triangle_indices(old(self).verts().len() as int),
            final(self).win() == old(self).win(),
            final(self).names() == old(self).names(),
    {
        let base: u16 = self.vertex_count() as u16;

        self.add_vertex(Vector3(p1.0, p1.1, 0), col);
        self.add_vertex(Vector3(p2.0, p2.1, 0), col);
        self.add_vertex(Vector3(p3.0, p3.1, 0), col);

        self.add_index(base);
        self.add_index(base + 1);
        self.add_index(base + 2);

        proof {
            assert(self.verts() =~= old(self).verts() + triangle_vertices(p1, p2, p3, col));
            assert(self.idxs() =~= old(self).idxs()
                + triangle_indices(old(self).verts().len() as int));
        }
    }

    /// Appends a thick line as a quad aligned to the segment: 4 vertices
    /// and 6 indices. The endpoints are offset by half the thickness along
    /// the segment's left-hand normal; there are no end caps. A zero-length
    /// line has no direction, so nothing is appended.
    pub fn draw_line(&mut self, from: Vector2, to: Vector2, thickness: i64, col: Color)
        requires
            old(self).wf(),
            in_range(from.0),
            in_range(from.1),
            in_range(to.0),
            in_range(to.1),
            in_range(thickness),
            from != to ==> old(self).verts().len() + 4 <= MAX_VERTICES,
        ensures
            final(self).wf(),
            final(self).win() == old(self).win(),
            final(self).names() == old(self).names(),
            from == to ==> final(self).verts() == old(self).verts()
                && final(self).idxs() == old(self).idxs(),
            from != to ==> {
                &&& final(self).verts() == old(self).verts()
                    + line_vertices(from, to, thickness, col)
                &&& final(self).idxs() == old(self).idxs()
                    + line_indices(old(self).verts().len() as int)
            },
    {
        let dx: i64 = to.0 - from.0;
        let dy: i64 = to.1 - from.1;
        if dx == 0 && dy == 0 {
            proof {
                assert(from == to);
            }
            return;
        }

        proof {
            assert(0 <= dx * dx <= 0x4000_0000_0000_0000
                && 0 <= dy * dy <= 0x4000_0000_0000_0000
                && dx * dx + dy * dy >= 1) by (nonlinear_arith)
                requires
                    -0x8000_0000 <= dx <= 0x8000_0000,
                    -0x8000_0000 <= dy <= 0x8000_0000,
                    dx != 0 || dy != 0,
            ;
        }
        let xx: u64 = (dx * dx) as u64;
        let yy: u64 = (dy * dy) as u64;
        let len_u: u64 = isqrt_u64(xx + yy);
        proof {
            assert(len_u >= 1 && dx <= len_u && -dx <= len_u && dy <= len_u && -dy <= len_u)
                by (nonlinear_arith)
                requires
                    is_sqrt_floor((xx + yy) as int, len_u as int),
                    xx + yy >= 1,
                    xx == dx * dx,
                    yy == dy * dy,
            ;
        }
        let len: i64 = len_u as i64;
        proof {
            lemma_line_offset_bound(-(dy as int), thickness as int, len as int);
            lemma_line_offset_bound(dx as int, thickness as int, len as int);
        }
        let off_x: i64 = trunc_div_i64(-dy * thickness, 2 * len);
        let off_y: i64 = trunc_div_i64(dx * thickness, 2 * len);

        let base: u16 = self.vertex_count() as u16;

        self.add_vertex(Vector3(from.0 + off_x, from.1 + off_y, 0), col);
        self.add_vertex(Vector3(from.0 - off_x, from.1 - off_y, 0), col);
        self.add_vertex(Vector3(to.0 + off_x, to.1 + off_y, 0), col);
        self.add_vertex(Vector3(to.0 - off_x, to.1 - off_y, 0), col);

        self.add_index(base);
        self.add_index(base + 2);
        self.add_index(base + 1);

        self.add_index(base + 2);
        self.add_index(base + 3);
        self.add_index(base + 1);

        proof {
            assert(self.verts() =~= old(self).verts()
                + line_vertices(from, to, thickness, col));
            assert(self.idxs() =~= old(self).idxs()
                + line_indices(old(self).verts().len() as int));
        }
    }
}

} // verus!

//! Laws of the pixel-to-NDC transform and of triangle orientation.
//!
//! The transform maps the window's corners onto the corners of NDC space
//! and is affine; it mirrors the y axis, so it reverses orientation, and a
//! rectangle's two triangles — wound clockwise in pixel space — come out
//! counter-clockwise in NDC space, which is what the backend's front-face
//! setting expects. A thick line's quad is an exact parallelogram whose
//! long edges are the segment itself.

use vstd::prelude::*;
use crate::batch::{Vertex, ndc_num_x, ndc_num_y, ndc_x_fx, ndc_y_fx};
use crate::color::Color;
use crate::fx::{SCALE, in_range, trunc_div, sqrt_floor, is_sqrt_floor,
    lemma_sqrt_floor_props, lemma_sin_landmarks, rim_cos, rim_sin};
use crate::shapes::{circle_vertices, rect_vertices, line_vertices, line_offset,
    lemma_line_offset_bound, rim_point};
use crate::vector::{Vector2, norm2};

verus! {

/// Twice the signed area of the triangle `(a, b, c)`: positive for a
/// counter-clockwise triangle in a y-up space such as NDC, negative for a
/// clockwise one.
pub open spec fn cross2(ax: int, ay: int, bx: int, by: int, cx: int, cy: int) -> int {
    (bx - ax) * (cy - ay) - (by - ay) * (cx - ax)
}

/// The cross product of a triangle of batch vertices after the NDC
/// transform, computed on the transform's numerators (the common positive
/// denominator does not change the sign).
pub open spec fn ndc_cross(a: Vertex, b: Vertex, c: Vertex, w: int, h: int) -> int {
    cross2(
        ndc_num_x(a.position.0 as int, w),
        ndc_num_y(a.position.1 as int, h),
        ndc_num_x(b.position.0 as int, w),
        ndc_num_y(b.position.1 as int, h),
        ndc_num_x(c.position.0 as int, w),
        ndc_num_y(c.position.1 as int, h),
    )
}

/// The transform maps the window's corners to the corners of NDC space:
/// pixel `(0, 0)` to `(-1, 1)` and pixel `(w, h)` to `(1, -1)`, exactly.
/// On the numerators, `-1` and `1` are minus and plus the denominator; on
/// the evaluated fixed-point values they are minus and plus `SCALE`.
pub proof fn lemma_ndc_corners(w: int, h: int)
    requires
        w >= 1,
        h >= 1,
    ensures
        ndc_num_x(0, w) == -(w * SCALE),
        ndc_num_x(w * SCALE, w) == w * SCALE,
        ndc_num_y(0, h) == h * SCALE,
        ndc_num_y(h * SCALE, h) == -(h * SCALE),
        ndc_x_fx(0, w) == -SCALE,
        ndc_x_fx(w * SCALE, w) == SCALE,
        ndc_y_fx(0, h) == SCALE,
        ndc_y_fx(h * SCALE, h) == -SCALE,
{
    lemma_div_exact_multiple(SCALE as int, w * SCALE);
    lemma_div_exact_multiple(SCALE as int, h * SCALE);
    assert(ndc_num_x(0, w) * SCALE == -(SCALE * (w * SCALE))
        && ndc_num_x(w * SCALE, w) * SCALE == SCALE * (w * SCALE)
        && ndc_num_y(0, h) * SCALE == SCALE * (h * SCALE)
        && ndc_num_y(h * SCALE, h) * SCALE == -(SCALE * (h * SCALE))) by (nonlinear_arith)
        requires
            ndc_num_x(0, w) == -(w * SCALE),
            ndc_num_x(w * SCALE, w) == w * SCALE,
            ndc_num_y(0, h) == h * SCALE,
            ndc_num_y(h * SCALE, h) == -(h * SCALE),
    ;
}

/// Dividing an exact multiple of the positive `b` by `b` recovers the
/// factor, in both signs.
proof fn lemma_div_exact_multiple(k: int, b: int)
    requires
        b >= 1,
        k >= 0,
    ensures
        trunc_div(k * b, b) == k,
        trunc_div(-(k * b), b) == -k,
{
    assert(trunc_div(k * b, b) == k && trunc_div(-(k * b), b) == -k) by (nonlinear_arith)
        requires
            b >= 1,
            k >= 0,
            trunc_div(k * b, b) == (k * b) / b,
            trunc_div(-(k * b), b) == (if -(k * b) >= 0 { (-(k * b)) / b } else {
                -((k * b) / b)
            }),
    ;
}

/// Every position inside the window maps into NDC space: a coordinate
/// between `0` and the window extent has its transform numerator between
/// minus and plus the denominator — the NDC value lies in `[-1, 1]`.
pub proof fn lemma_ndc_in_range(x: int, y: int, w: int, h: int)
    requires
        w >= 1,
        h >= 1,
        0 <= x <= w * SCALE,
        0 <= y <= h * SCALE,
    ensures
        -(w * SCALE) <= ndc_num_x(x, w) <= w * SCALE,
        -(h * SCALE) <= ndc_num_y(y, h) <= h * SCALE,
{
}

/// The transform is affine: moving a pixel coordinate by `d` moves the
/// transform's numerator by exactly `2 * d` on the x axis and `-2 * d` on
/// the y axis, whatever the starting point — the transform is linear in
/// each coordinate with a constant slope.
pub proof fn lemma_ndc_affine(x: int, y: int, d: int, e: int, w: int, h: int)
    ensures
        ndc_num_x(x + d, w) - ndc_num_x(x, w) == 2 * d,
        ndc_num_y(y + e, h) - ndc_num_y(y, h) == -2 * e,
{
}

/// The transform reverses orientation: the cross product of a transformed
/// triangle is exactly `-4` times the pixel-space cross product. (The x
/// axis is scaled by a positive factor, the y axis by a negative one.)
pub proof fn lemma_ndc_orientation(
    ax: int, ay: int, bx: int, by: int, cx: int, cy: int, w: int, h: int,
)
    ensures
        cross2(
            ndc_num_x(ax, w), ndc_num_y(ay, h),
            ndc_num_x(bx, w), ndc_num_y(by, h),
            ndc_num_x(cx, w), ndc_num_y(cy, h),
        ) == -4 * cross2(ax, ay, bx, by, cx, cy),
{
    assert(
        (2 * bx - w * SCALE - (2 * ax - w * SCALE)) * ((h * SCALE - 2 * cy) - (h * SCALE - 2 * ay))
            - ((h * SCALE - 2 * by) - (h * SCALE - 2 * ay)) * (2 * cx - w * SCALE - (2 * ax - w
            * SCALE)) == -4 * ((bx - ax) * (cy - ay) - (by - ay) * (cx - ax))
    ) by (nonlinear_arith);
}

/// The rectangle law: for positive extents, both triangles that
/// `draw_rect` emits — vertex triples `(0, 1, 2)` and `(2, 1, 3)` of its
/// four corners, exactly the order its index pattern dictates — are
/// clockwise in pixel space and therefore counter-clockwise in NDC space,
/// for every window size.
pub proof fn lemma_rect_winding_ccw(x: i64, y: i64, w: i64, h: i64, c: Color, ww: int, wh: int)
    requires
        in_range(x),
        in_range(y),
        in_range(w),
        in_range(h),
        w > 0,
        h > 0,
        ww >= 1,
        wh >= 1,
    ensures
        ({
            let vs = rect_vertices(x, y, w, h, c);
            &&& ndc_cross(vs[0], vs[1], vs[2], ww, wh) == 4 * (w as int) * (h as int)
            &&& ndc_cross(vs[2], vs[1], vs[3], ww, wh) == 4 * (w as int) * (h as int)
            &&& ndc_cross(vs[0], vs[1], vs[2], ww, wh) > 0
            &&& ndc_cross(vs[2], vs[1], vs[3], ww, wh) > 0
        }),
{
    let vs = rect_vertices(x, y, w, h, c);
    assert(cross2(x as int, y as int, x as int, y + h, x + w, y as int) == -((w as int) * (h as int))
        && cross2(x + w, y as int, x as int, y + h, x + w, y + h) == -((w as int) * (h as int))
        && 4 * ((w as int) * (h as int)) == 4 * (w as int) * (h as int)
        && (w as int) * (h as int) > 0) by (nonlinear_arith)
        requires
            w > 0,
            h > 0,
    ;
    lemma_ndc_orientation(x as int, y as int, x as int, y + h, x + w, y as int, ww, wh);
    lemma_ndc_orientation(x + w, y as int, x as int, y + h, x + w, y + h, ww, wh);
}

/// The circle fan's anchor: its first rim vertex sits at angle zero,
/// exactly the radius to the right of the center, and the fan's first
/// vertex is the center itself.
pub proof fn lemma_circle_anchor(cx: i64, cy: i64, r: i64, n: int, c: Color)
    requires
        in_range(cx),
        in_range(cy),
        in_range(r),
        n >= 3,
    ensures
        circle_vertices(cx, cy, r, n, c)[0].position == (cx, cy, 0i64),
        circle_vertices(cx, cy, r, n, c)[1].position == ((cx + r) as i64, cy, 0i64),
{
    lemma_sin_landmarks();
    assert((2 * SCALE * 0) / n == 0) by (nonlinear_arith)
        requires
            n >= 1,
    ;
    assert(rim_cos(0, n) == SCALE && rim_sin(0, n) == 0);
    if r >= 0 {
        lemma_div_exact_multiple(r as int, SCALE as int);
        assert(r as int * (SCALE as int) == (r as int) * (SCALE as int));
    } else {
        lemma_div_exact_multiple(-(r as int), SCALE as int);
        assert(r as int * (SCALE as int) == -((-(r as int)) * (SCALE as int))) by (nonlinear_arith);
    }
    assert(trunc_div(r as int * rim_cos(0, n), SCALE as int) == r);
    assert(trunc_div(r as int * rim_sin(0, n), SCALE as int) == 0) by (nonlinear_arith)
        requires
            rim_sin(0, n) == 0,
            trunc_div(r as int * rim_sin(0, n), SCALE as int) == (if r as int * rim_sin(0, n) >= 0 {
                (r as int * rim_sin(0, n)) / (SCALE as int)
            } else {
                -((-(r as int * rim_sin(0, n))) / (SCALE as int))
            }),
    ;
    assert(circle_vertices(cx, cy, r, n, c)[1]
        == crate::batch::plain_vertex(rim_point(cx, cy, r, 0, n), c));
}

/// The thick-line law: the quad `draw_line` emits is an exact
/// parallelogram. Both long edges — first to third vertex and second to
/// fourth — equal the drawn segment exactly, so the quad's long axis is
/// the segment; both short edges are twice the half-thickness offset.
pub proof fn lemma_line_quad_parallelogram(from: Vector2, to: Vector2, t: i64, c: Color)
    requires
        in_range(from.0),
        in_range(from.1),
        in_range(to.0),
        in_range(to.1),
        in_range(t),
        from != to,
    ensures
        ({
            let vs = line_vertices(from, to, t, c);
            let off = line_offset(from, to, t);
            &&& vs[2].position.0 - vs[0].position.0 == to.0 - from.0
            &&& vs[2].position.1 - vs[0].position.1 == to.1 - from.1
            &&& vs[3].position.0 - vs[1].position.0 == to.0 - from.0
            &&& vs[3].position.1 - vs[1].position.1 == to.1 - from.1
            &&& vs[1].position.0 - vs[0].position.0 == -2 * off.0
            &&& vs[1].position.1 - vs[0].position.1 == -2 * off.1
            &&& vs[3].position.0 - vs[2].position.0 == -2 * off.0
            &&& vs[3].position.1 - vs[2].position.1 == -2 * off.1
        }),
{
    let dx = to.0 - from.0;
    let dy = to.1 - from.1;
    let n = norm2(dx, dy);
    assert(n >= 1 && n >= dx * dx && n >= dy * dy) by (nonlinear_arith)
        requires
            n == dx * dx + dy * dy,
            dx != 0 || dy != 0,
    ;
    lemma_sqrt_floor_props(n);
    let len = sqrt_floor(n);
    assert(len >= 1 && dx <= len && -dx <= len && dy <= len && -dy <= len && len <= 0x1_0000_0000)
        by (nonlinear_arith)
        requires
            is_sqrt_floor(n, len),
            n >= 1,
            n == dx * dx + dy * dy,
            -0x8000_0000 <= dx <= 0x8000_0000,
            -0x8000_0000 <= dy <= 0x8000_0000,
    ;
    lemma_line_offset_bound(-dy, t as int, len);
    lemma_line_offset_bound(dx, t as int, len);
}

} // verus!

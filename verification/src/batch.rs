//! The per-frame draw batch.
//!
//! A `RendiumDrawHandle` accumulates one frame's vertices and indices. It
//! is created at the start of a redraw with a snapshot of the window size
//! and of the texture-registry names, filled by the drawing calls, handed
//! to the frame submitter once, and dropped. Positions are stored in
//! fixed-point pixel space together with the window snapshot; the
//! pixel-to-NDC transform that the GPU consumes is the exact rational
//! stated by [`ndc_num_x`] and [`ndc_num_y`], evaluated by [`RendiumDrawHandle::to_ndc`].

use vstd::prelude::*;
use crate::color::Color;
use crate::fx::{SCALE, trunc_div, trunc_div_i64};
use crate::vector::Vector3;

verus! {

/// One vertex of a draw batch: a fixed-point position, a color, and, for
/// textured quads, a texture coordinate pair plus the index of the bound
/// texture. Untextured vertices carry `None` as their "no texture" marker
/// and a zero texture coordinate.
#[derive(Clone, Copy, Debug)]
pub struct Vertex {
    pub position: (i64, i64, i64),
    pub color: Color,
    pub uv: (i64, i64),
    pub tex: Option<u32>,
}

impl Vertex {
    /// Builds an untextured vertex.
    pub fn new(position: (i64, i64, i64), col: Color) -> (v: Vertex)
        ensures
            v == plain_vertex(position, col),
    {
        Vertex { position, color: col, uv: (0, 0), tex: None }
    }
}

/// An untextured vertex at `p` with color `c`.
pub open spec fn plain_vertex(p: (i64, i64, i64), c: Color) -> Vertex {
    Vertex { position: p, color: c, uv: (0i64, 0i64), tex: None }
}

/// A textured vertex at `p` with color `c`, texture coordinates `uv` (in
/// fixed-point units: `SCALE` is 1.0) and texture table index `t`.
pub open spec fn textured_vertex(p: (i64, i64, i64), c: Color, uv: (i64, i64), t: u32) -> Vertex {
    Vertex { position: p, color: c, uv, tex: Some(t) }
}

/// A coordinate a stored vertex may hold: one bit wider than the range the
/// drawing API accepts, since tessellation offsets a position by at most
/// one more in-range value.
pub open spec fn coord_ok(c: i64) -> bool {
    -0x8000_0000 <= c <= 0x8000_0000
}

/// All three coordinates of a stored vertex are in range.
pub open spec fn vertex_ok(v: Vertex) -> bool {
    coord_ok(v.position.0) && coord_ok(v.position.1) && coord_ok(v.position.2)
}

/// The most vertices a batch may hold: its indices are 16-bit wide.
pub const MAX_VERTICES: usize = 0x1_0000;

/// The numerator of the exact pixel-to-NDC transform of the x axis over
/// the denominator `w * SCALE`: the rational `2 * x / (w * SCALE) - 1`,
/// mapping pixel `0` to `-1` and pixel `w` (scaled) to `1`.
pub open spec fn ndc_num_x(x: int, w: int) -> int {
    2 * x - w * SCALE
}

/// The numerator of the exact pixel-to-NDC transform of the y axis over
/// the denominator `h * SCALE`: the rational `1 - 2 * y / (h * SCALE)`,
/// mapping pixel `0` to `1` and pixel `h` (scaled) to `-1` (NDC y points
/// up, pixel y points down).
pub open spec fn ndc_num_y(y: int, h: int) -> int {
    h * SCALE - 2 * y
}

/// The NDC value of coordinate `x`, in fixed-point units and rounded
/// toward zero: `ndc_num_x` over its denominator, times `SCALE`.
pub open spec fn ndc_x_fx(x: int, w: int) -> int {
    trunc_div(ndc_num_x(x, w) * SCALE, w * SCALE)
}

/// The NDC value of coordinate `y`, in fixed-point units and rounded
/// toward zero.
pub open spec fn ndc_y_fx(y: int, h: int) -> int {
    trunc_div(ndc_num_y(y, h) * SCALE, h * SCALE)
}

/// One frame's draw batch: the vertex and index lists under construction,
/// the window-size snapshot used by the NDC transform, and the snapshot of
/// the texture-registry names used to resolve texture draws.
pub struct RendiumDrawHandle {
    pub(crate) vertices: Vec<Vertex>,
    pub(crate) indices: Vec<u16>,
    pub(crate) width: u32,
    pub(crate) height: u32,
    pub(crate) texture_names: Vec<String>,
}

impl RendiumDrawHandle {
    /// The vertices emitted so far, in insertion order (= render order).
    pub closed spec fn verts(&self) -> Seq<Vertex> {
        self.vertices@
    }

    /// The indices emitted so far.
    pub closed spec fn idxs(&self) -> Seq<u16> {
        self.indices@
    }

    /// The window-size snapshot, in pixels.
    pub closed spec fn win(&self) -> (u32, u32) {
        (self.width, self.height)
    }

    /// The texture-name snapshot, in registry insertion order.
    pub closed spec fn names(&self) -> Seq<Seq<char>> {
        self.texture_names.deep_view()
    }

    /// The batch is well formed: it has no more vertices than 16-bit
    /// indices can address, every stored coordinate is in range, the
    /// window snapshot has no zero side, and a resolved texture index
    /// fits `u32`.
    pub open spec fn wf(&self) -> bool {
        &&& self.verts().len() <= MAX_VERTICES
        &&& forall|i: int| 0 <= i < self.verts().len() ==> vertex_ok(#[trigger] self.verts()[i])
        &&& self.win().0 >= 1
        &&& self.win().1 >= 1
        &&& self.names().len() <= 0xFFFF_FFFF
    }

    /// Crate-internal bridge: the name snapshot seen by contracts is the
    /// view of the stored name vector.
    pub(crate) proof fn names_agree(&self)
        ensures
            self.names() == self.texture_names.deep_view(),
    {
    }

    /// Starts an empty batch against a window-size snapshot and a
    /// texture-name snapshot.
    pub fn new(window_size: (u32, u32), texture_names: Vec<String>) -> (d: RendiumDrawHandle)
        requires
            window_size.0 >= 1,
            window_size.1 >= 1,
            texture_names@.len() <= 0xFFFF_FFFF,
        ensures
            d.wf(),
            d.verts() == Seq::<Vertex>::empty(),
            d.idxs() == Seq::<u16>::empty(),
            d.win() == window_size,
            d.names() == texture_names.deep_view(),
    {
        RendiumDrawHandle {
            vertices: Vec::new(),
            indices: Vec::new(),
            width: window_size.0,
            height: window_size.1,
            texture_names,
        }
    }

    /// Appends one untextured vertex and returns its index in the batch.
    pub fn add_vertex(&mut self, pos: Vector3, col: Color) -> (idx: u16)
        requires
            old(self).wf(),
            old(self).verts().len() < MAX_VERTICES,
            coord_ok(pos.0),
            coord_ok(pos.1),
            coord_ok(pos.2),
        ensures
            final(self).wf(),
            final(self).verts() == old(self).verts().push(
                plain_vertex((pos.0, pos.1, pos.2), col),
            ),
            final(self).idxs() == old(self).idxs(),
            final(self).win() == old(self).win(),
            final(self).names() == old(self).names(),
            idx as int == old(self).verts().len(),
    {
        let idx: u16 = self.vertices.len() as u16;
        self.vertices.push(Vertex {
            position: (pos.0, pos.1, pos.2),
            color: col,
            uv: (0, 0),
            tex: None,
        });
        idx
    }

    /// Appends one textured vertex and returns its index in the batch.
    pub fn add_vertex_textured(&mut self, pos: Vector3, col: Color, uv: (i64, i64), tex: u32)
        -> (idx: u16)
        requires
            old(self).wf(),
            old(self).verts().len() < MAX_VERTICES,
            coord_ok(pos.0),
            coord_ok(pos.1),
            coord_ok(pos.2),
        ensures
            final(self).wf(),
            final(self).verts() == old(self).verts().push(
                textured_vertex((pos.0, pos.1, pos.2), col, uv, tex),
            ),
            final(self).idxs() == old(self).idxs(),
            final(self).win() == old(self).win(),
            final(self).names() == old(self).names(),
            idx as int == old(self).verts().len(),
    {
        let idx: u16 = self.vertices.len() as u16;
        self.vertices.push(Vertex { position: (pos.0, pos.1, pos.2), color: col, uv, tex: Some(tex) });
        idx
    }

    /// Appends one index. Indices are not checked against the vertex
    /// count: the batch is permissive, exactly like the rest of the
    /// drawing API.
    pub fn add_index(&mut self, i: u16)
        requires
            old(self).wf(),
        ensures
            final(self).wf(),
            final(self).idxs() == old(self).idxs().push(i),
            final(self).verts() == old(self).verts(),
            final(self).win() == old(self).win(),
            final(self).names() == old(self).names(),
    {
        self.indices.push(i);
    }

    /// The number of vertices emitted so far.
    pub fn vertex_count(&self) -> (n: usize)
        ensures
            n == self.verts().len(),
    {
        self.vertices.len()
    }

    /// The number of indices emitted so far.
    pub fn index_count(&self) -> (n: usize)
        ensures
            n == self.idxs().len(),
    {
        self.indices.len()
    }

    /// The vertices emitted so far.
    pub fn vertices(&self) -> (v: &Vec<Vertex>)
        ensures
            v@ == self.verts(),
    {
        &self.vertices
    }

    /// The indices emitted so far.
    pub fn indices(&self) -> (v: &Vec<u16>)
        ensures
            v@ == self.idxs(),
    {
        &self.indices
    }

    /// The window-size snapshot.
    pub fn window_size(&self) -> (s: (u32, u32))
        ensures
            s == self.win(),
    {
        (self.width, self.height)
    }

    /// Applies the pixel-to-NDC transform to every stored vertex position,
    /// yielding NDC coordinates in fixed-point units; the z value passes
    /// through unchanged.
    pub fn to_ndc(&self) -> (out: Vec<(i64, i64, i64)>)
        requires
            self.wf(),
        ensures
            out@.len() == self.verts().len(),
            forall|i: int| 0 <= i < out@.len() ==> out@[i] == (
                ndc_x_fx(self.verts()[i].position.0 as int, self.win().0 as int) as i64,
                ndc_y_fx(self.verts()[i].position.1 as int, self.win().1 as int) as i64,
                self.verts()[i].position.2,
            ),
    {
        let mut out: Vec<(i64, i64, i64)> = Vec::new();
        let n: usize = self.vertices.len();
        let mut k: usize = 0;
        while k < n
            invariant
                self.wf(),
                n == self.verts().len(),
                k <= n,
                out@.len() == k,
                forall|i: int| 0 <= i < k ==> out@[i] == (
                    ndc_x_fx(self.verts()[i].position.0 as int, self.win().0 as int) as i64,
                    ndc_y_fx(self.verts()[i].position.1 as int, self.win().1 as int) as i64,
                    self.verts()[i].position.2,
                ),
            decreases n - k,
        {
            let v = &self.vertices[k];
            let x: i64 = ndc_coord_x(v.position.0, self.width);
            let y: i64 = ndc_coord_y(v.position.1, self.height);
            out.push((x, y, v.position.2));
            k = k + 1;
        }
        out
    }
}

/// Evaluates the x-axis NDC transform on one in-range coordinate.
pub fn ndc_coord_x(x: i64, w: u32) -> (r: i64)
    requires
        coord_ok(x),
        w >= 1,
    ensures
        r == ndc_x_fx(x as int, w as int),
{
    proof {
        lemma_ndc_bounds(x as int, w as int);
    }
    let den: i64 = (w as i64) * SCALE;
    trunc_div_i64((2 * x - den) * SCALE, den)
}

/// Evaluates the y-axis NDC transform on one in-range coordinate.
pub fn ndc_coord_y(y: i64, h: u32) -> (r: i64)
    requires
        coord_ok(y),
        h >= 1,
    ensures
        r == ndc_y_fx(y as int, h as int),
{
    proof {
        lemma_ndc_bounds(y as int, h as int);
    }
    let den: i64 = (h as i64) * SCALE;
    trunc_div_i64((den - 2 * y) * SCALE, den)
}

/// The intermediate values of the NDC transform stay inside `i64`.
proof fn lemma_ndc_bounds(c: int, w: int)
    requires
        -0x8000_0000 <= c <= 0x8000_0000,
        1 <= w <= 0xFFFF_FFFF,
    ensures
        0 < w * SCALE <= 0xFFFF_FFFF_000,
        -0x2000_0000_0000_0000 < (2 * c - w * SCALE) * SCALE < 0x2000_0000_0000_0000,
        -0x2000_0000_0000_0000 < (w * SCALE - 2 * c) * SCALE < 0x2000_0000_0000_0000,
{
    assert(0 < w * SCALE <= 0xFFFF_FFFF_000
        && -0x2000_0000_0000_0000 < (2 * c - w * SCALE) * SCALE < 0x2000_0000_0000_0000
        && -0x2000_0000_0000_0000 < (w * SCALE - 2 * c) * SCALE < 0x2000_0000_0000_0000)
        by (nonlinear_arith)
        requires
            -0x8000_0000 <= c <= 0x8000_0000,
            1 <= w <= 0xFFFF_FFFF,
            SCALE == 4096,
    ;
}

} // verus!

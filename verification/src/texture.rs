//! CPU-side textures and textured drawing.
//!
//! A [`Texture`] holds decoded RGBA8 pixel data together with its
//! dimensions; the invariant ties the byte count to the dimensions, which
//! is what the GPU upload's row layout depends on. Decoding image files and
//! uploading to the GPU happen outside the verified core; the core
//! validates the decoded data and, for textured quads, resolves texture
//! names against the batch's registry snapshot.

use vstd::prelude::*;
use crate::batch::{RendiumDrawHandle, Vertex, textured_vertex, MAX_VERTICES};
use crate::color::Color;
use crate::fx::{SCALE, in_range};
use crate::registry::{first_match, lemma_first_match_skip};
use crate::vector::{Vector2, Vector3};

verus! {

/// Why loading a texture failed. Missing files and undecodable files are
/// reported separately; `SizeMismatch` is returned when the pixel data
/// handed in does not match the announced dimensions.
#[derive(Clone, Copy, Debug, PartialEq, Eq, Structural)]
pub enum TextureLoadError {
    FileNotFound,
    DecodeFailed,
    SizeMismatch,
}

/// Loads an image file into the GPU and registers it under a name; the
/// backend that owns the GPU device implements this.
pub trait TextureLoad {
    /// Decodes the file at `filename` and stores the resulting texture
    /// under `tex_name`, replacing any texture already registered under
    /// that name.
    fn load_texture(&mut self, filename: &str, tex_name: &str) -> Result<(), TextureLoadError>;
}

/// The RGBA expansion of 8-bit RGB pixel data: every third byte triple is
/// kept and an opaque alpha byte is appended to it.
pub open spec fn rgba_of_rgb(d: Seq<u8>) -> Seq<u8> {
    Seq::new(
        (d.len() / 3 * 4) as nat,
        |k: int| if k % 4 == 3 {
            255u8
        } else {
            d[k / 4 * 3 + k % 4]
        },
    )
}

/// Decoded pixel data in RGBA8 form, four bytes per pixel, rows in order.
#[derive(Clone, Debug)]
pub struct Texture {
    data: Vec<u8>,
    width: u32,
    height: u32,
}

impl Texture {
    /// The pixel bytes, row by row, four per pixel.
    pub closed spec fn pixels(&self) -> Seq<u8> {
        self.data@
    }

    /// Width and height in pixels.
    pub closed spec fn size(&self) -> (u32, u32) {
        (self.width, self.height)
    }

    /// The byte count matches the dimensions: four bytes per pixel.
    pub open spec fn wf(&self) -> bool {
        self.pixels().len() == 4 * self.size().0 * self.size().1
    }

    /// Wraps RGBA8 pixel data, rejecting data whose length does not match
    /// the dimensions.
    pub fn from_rgba(data: Vec<u8>, width: u32, height: u32) -> (r: Result<Texture, TextureLoadError>)
        ensures
            match r {
                Ok(t) => {
                    &&& data@.len() == 4 * width * height
                    &&& t.wf()
                    &&& t.pixels() == data@
                    &&& t.size() == (width, height)
                },
                Err(e) => {
                    &&& e == TextureLoadError::SizeMismatch
                    &&& data@.len() != 4 * width * height
                },
            },
    {
        proof {
            assert(4 * (width as u128) * (height as u128) < 0x1_0000_0000_0000_0000_0000
                && 4 * (width as int) * (height as int) == 4 * ((width as int) * (height as int)))
                by (nonlinear_arith)
                requires
                    width <= 0xFFFF_FFFFu32,
                    height <= 0xFFFF_FFFFu32,
            ;
        }
        if (data.len() as u128) == 4 * (width as u128) * (height as u128) {
            Ok(Texture { data, width, height })
        } else {
            Err(TextureLoadError::SizeMismatch)
        }
    }

    /// Wraps RGB8 pixel data, expanding it to RGBA8 with an opaque alpha
    /// channel; data whose length does not match the dimensions is
    /// rejected.
    pub fn from_rgb(data: Vec<u8>, width: u32, height: u32) -> (r: Result<Texture, TextureLoadError>)
        ensures
            match r {
                Ok(t) => {
                    &&& data@.len() == 3 * width * height
                    &&& t.wf()
                    &&& t.pixels() == rgba_of_rgb(data@)
                    &&& t.size() == (width, height)
                },
                Err(e) => {
                    &&& e == TextureLoadError::SizeMismatch
                    &&& data@.len() != 3 * width * height
                },
            },
    {
        proof {
            assert(3 * (width as u128) * (height as u128) < 0x1_0000_0000_0000_0000_0000
                && 3 * (width as int) * (height as int) == 3 * ((width as int) * (height as int)))
                by (nonlinear_arith)
                requires
                    width <= 0xFFFF_FFFFu32,
                    height <= 0xFFFF_FFFFu32,
            ;
        }
        if (data.len() as u128) != 3 * (width as u128) * (height as u128) {
            return Err(TextureLoadError::SizeMismatch);
        }
        let pixel_count: usize = data.len() / 3;
        proof {
            let m = (width as int) * (height as int);
            vstd::arithmetic::div_mod::lemma_div_multiples_vanish(m, 3);
            assert(3 * m == m * 3) by (nonlinear_arith);
            assert(pixel_count == m);
        }
        let mut out: Vec<u8> = Vec::new();
        let mut i: usize = 0;
        while i < pixel_count
            invariant
                pixel_count == data@.len() / 3,
                data@.len() == 3 * pixel_count,
                data@.len() <= usize::MAX,
                i <= pixel_count,
                out@.len() == 4 * i,
                forall|k: int| 0 <= k < 4 * i ==> out@[k] == rgba_of_rgb(data@)[k],
            decreases pixel_count - i,
        {
            out.push(data[3 * i]);
            out.push(data[3 * i + 1]);
            out.push(data[3 * i + 2]);
            out.push(255);
            proof {
                lemma_rgb_pixel_indices(data@, i as int);
            }
            i = i + 1;
        }
        proof {
            assert(data@.len() / 3 * 4 == 4 * pixel_count) by (nonlinear_arith)
                requires
                    pixel_count == data@.len() / 3,
            ;
            assert(out@ =~= rgba_of_rgb(data@));
            assert(4 * ((width as int) * (height as int))
                == 4 * (width as int) * (height as int)) by (nonlinear_arith);
        }
        Ok(Texture { data: out, width, height })
    }

    /// Width in pixels.
    pub fn width(&self) -> (w: u32)
        ensures
            w == self.size().0,
    {
        self.width
    }

    /// Height in pixels.
    pub fn height(&self) -> (h: u32)
        ensures
            h == self.size().1,
    {
        self.height
    }

    /// The pixel bytes.
    pub fn data(&self) -> (d: &Vec<u8>)
        ensures
            d@ == self.pixels(),
    {
        &self.data
    }
}

/// The positions `4 * i .. 4 * i + 4` of the RGBA expansion hold the
/// bytes of RGB pixel `i` plus an opaque alpha byte.
proof fn lemma_rgb_pixel_indices(d: Seq<u8>, i: int)
    requires
        0 <= i,
        3 * i + 3 <= d.len(),
    ensures
        forall|j: int| 0 <= j < 3 ==> #[trigger] rgba_of_rgb(d)[4 * i + j] == d[3 * i + j],
        rgba_of_rgb(d)[4 * i + 3] == 255u8,
        4 * i + 4 <= rgba_of_rgb(d).len(),
{
    assert(d.len() / 3 * 4 >= 4 * i + 4 && d.len() / 3 * 3 <= d.len()) by (nonlinear_arith)
        requires
            0 <= i,
            3 * i + 3 <= d.len(),
    ;
    assert forall|j: int| 0 <= j < 3 implies #[trigger] rgba_of_rgb(d)[4 * i + j] == d[3 * i + j] by {
        assert((4 * i + j) % 4 == j && (4 * i + j) / 4 == i) by (nonlinear_arith)
            requires
                0 <= j < 4,
                0 <= i,
        ;
    }
    assert((4 * i + 3) % 4 == 3) by (nonlinear_arith)
        requires
            0 <= i,
    ;
}

/// The vertices of a textured quad at `(x, y)` with extents `(w, h)`:
/// top-left, top-right, bottom-right, bottom-left, with texture
/// coordinates (0,0), (1,0), (1,1), (0,1) in fixed-point units and the
/// resolved texture index `t` on every vertex.
pub open spec fn texture_quad_vertices(x: i64, y: i64, w: i64, h: i64, c: Color, t: u32)
    -> Seq<Vertex> {
    seq![
        textured_vertex((x, y, 0i64), c, (0i64, 0i64), t),
        textured_vertex(((x + w) as i64, y, 0i64), c, (SCALE, 0i64), t),
        textured_vertex(((x + w) as i64, (y + h) as i64, 0i64), c, (SCALE, SCALE), t),
        textured_vertex((x, (y + h) as i64, 0i64), c, (0i64, SCALE), t),
    ]
}

/// The six indices of the textured quad's two triangles over base `b`:
/// (0, 1, 2) and (0, 2, 3).
pub open spec fn texture_quad_indices(b: int) -> Seq<u16> {
    seq![
        b as u16,
        (b + 1) as u16,
        (b + 2) as u16,
        b as u16,
        (b + 2) as u16,
        (b + 3) as u16,
    ]
}

impl RendiumDrawHandle {
    /// Resolves a texture name against the batch's registry snapshot: the
    /// position of the first matching name, or `None` when the name is
    /// unknown.
    pub fn get_texture_index(&self, name: &str) -> (r: Option<u32>)
        requires
            self.wf(),
        ensures
            match r {
                Some(i) => first_match(self.names(), name@) == i as int
                    && (i as int) < self.names().len(),
                None => first_match(self.names(), name@) == self.names().len(),
            },
    {
        proof {
            self.names_agree();
        }
        let key: String = name.to_owned();
        let n: usize = self.texture_names.len();
        let mut i: usize = 0;
        while i < n
            invariant
                self.names() == self.texture_names.deep_view(),
                n == self.names().len(),
                n <= 0xFFFF_FFFF,
                i <= n,
                key@ == name@,
                forall|j: int| 0 <= j < i ==> self.names()[j] != name@,
            decreases n - i,
        {
            if self.texture_names[i] == key {
                proof {
                    lemma_first_match_skip(self.names(), name@, i as int);
                }
                return Some(i as u32);
            }
            i = i + 1;
        }
        proof {
            lemma_first_match_skip(self.names(), name@, n as int);
        }
        None
    }

    /// Appends a textured quad sampling the texture registered under
    /// `name`: 4 vertices and 6 indices, with `col` as a per-vertex tint.
    /// An unregistered name appends nothing — a lenient no-op, like the
    /// rest of the drawing API.
    pub fn draw_texture(&mut self, name: &str, pos: Vector2, size: Vector2, col: Color)
        requires
            old(self).wf(),
            in_range(pos.0),
            in_range(pos.1),
            in_range(size.0),
            in_range(size.1),
            first_match(old(self).names(), name@) < old(self).names().len()
                ==> old(self).verts().len() + 4 <= MAX_VERTICES,
        ensures
            final(self).wf(),
            final(self).win() == old(self).win(),
            final(self).names() == old(self).names(),
            first_match(old(self).names(), name@) == old(self).names().len()
                ==> final(self).verts() == old(self).verts()
                    && final(self).idxs() == old(self).idxs(),
            first_match(old(self).names(), name@) < old(self).names().len() ==> {
                &&& final(self).verts() == old(self).verts() + texture_quad_vertices(
                    pos.0,
                    pos.1,
                    size.0,
                    size.1,
                    col,
                    first_match(old(self).names(), name@) as u32,
                )
                &&& final(self).idxs() == old(self).idxs()
                    + texture_quad_indices(old(self).verts().len() as int)
            },
    {
        let tex_index: u32 = match self.get_texture_index(name) {
            Some(i) => i,
            None => {
                return;
            },
        };

        let x: i64 = pos.0;
        let y: i64 = pos.1;
        let w: i64 = size.0;
        let h: i64 = size.1;

        let base: u16 = self.vertex_count() as u16;

        self.add_vertex_textured(Vector3(x, y, 0), col, (0, 0), tex_index);
        self.add_vertex_textured(Vector3(x + w, y, 0), col, (SCALE, 0), tex_index);
        self.add_vertex_textured(Vector3(x + w, y + h, 0), col, (SCALE, SCALE), tex_index);
        self.add_vertex_textured(Vector3(x, y + h, 0), col, (0, SCALE), tex_index);

        self.add_index(base);
        self.add_index(base + 1);
        self.add_index(base + 2);

        self.add_index(base);
        self.add_index(base + 2);
        self.add_index(base + 3);

        proof {
            assert(self.verts() =~= old(self).verts() + texture_quad_vertices(
                pos.0,
                pos.1,
                size.0,
                size.1,
                col,
                first_match(old(self).names(), name@) as u32,
            ));
            assert(self.idxs() =~= old(self).idxs()
                + texture_quad_indices(old(self).verts().len() as int));
        }
    }
}

} // verus!

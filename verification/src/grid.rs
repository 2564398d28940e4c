//! The grid configuration and the geometry it derives.
//!
//! `FontConfig` holds the pixel sizes of the screen, the texture atlas and
//! a single glyph, plus an integer scale factor. Everything else — the
//! terminal grid in cells, the atlas grid in cells, the vertex and UV
//! lattices, and the glyph quads — is recomputed from those fields on
//! every query, so a resize needs no invalidation bookkeeping.

use vstd::prelude::*;
use vstd::arithmetic::div_mod::lemma_fundamental_div_mod_converse;

use crate::mesh::Mesh;

verus! {

/// Sizing configuration of the character grid.
///
/// Glyphs are laid out at half-glyph-width horizontal granularity so that
/// a double-width character can span exactly two cells of a single-width
/// character's quantum.
pub struct FontConfig {
    /// Integer scale factor applied to the glyph size on screen.
    pub scaler: i32,
    /// Pixel size of one glyph in the atlas, `[width, height]`.
    pub font_size: [u32; 2],
    /// Pixel size of the screen, `[width, height]`; the one field a
    /// resize updates.
    pub screen_size: [u32; 2],
    /// Pixel size of the texture atlas, `[width, height]`.
    pub texture_size: [u32; 2],
}

impl FontConfig {
    /// What the derived-size arithmetic needs of the fields: a positive
    /// scale, a glyph at least two pixels wide (half of it must be a
    /// positive cell width) and at least one pixel high, and scaled glyph
    /// sizes that fit the machine word.
    pub open spec fn wf(self) -> bool {
        &&& self.scaler >= 1
        &&& self.font_size[0] >= 2
        &&& self.font_size[1] >= 1
        &&& self.font_size[0] as int * self.scaler as int <= u32::MAX as int
        &&& self.font_size[1] as int * self.scaler as int <= u32::MAX as int
    }

    /// Width in pixels of one terminal cell: half the glyph width, scaled.
    pub open spec fn cell_width(self) -> int {
        (self.font_size[0] as int / 2) * self.scaler as int
    }

    /// Height in pixels of one terminal cell: the glyph height, scaled.
    pub open spec fn cell_height(self) -> int {
        self.font_size[1] as int * self.scaler as int
    }

    /// Scaled glyph width as reported to the renderer: the scaled glyph
    /// width, halved after scaling (for an odd glyph width this differs
    /// from `cell_width`, which halves before scaling).
    pub open spec fn scaled_width(self) -> int {
        self.font_size[0] as int * self.scaler as int / 2
    }

    /// Scaled glyph height as reported to the renderer.
    pub open spec fn scaled_height(self) -> int {
        self.font_size[1] as int * self.scaler as int
    }

    /// Columns of the terminal grid: how many cells fit the screen width.
    pub open spec fn term_cols(self) -> int {
        self.screen_size[0] as int / self.cell_width()
    }

    /// Rows of the terminal grid: how many cells fit the screen height.
    pub open spec fn term_rows(self) -> int {
        self.screen_size[1] as int / self.cell_height()
    }

    /// Columns of the atlas grid: how many glyphs fit the texture width.
    pub open spec fn atlas_cols(self) -> int {
        self.texture_size[0] as int / self.font_size[0] as int
    }

    /// Rows of the atlas grid: how many glyphs fit the texture height.
    pub open spec fn atlas_rows(self) -> int {
        self.texture_size[1] as int / self.font_size[1] as int
    }

    /// A configuration with the given sizes and a scale factor of one.
    pub fn new(screen_size: [u32; 2], texture_size: [u32; 2], font_size: [u32; 2]) -> (r: Self)
        ensures
            r.scaler == 1,
            r.font_size == font_size,
            r.screen_size == screen_size,
            r.texture_size == texture_size,
    {
        Self { scaler: 1, font_size, texture_size, screen_size }
    }

    /// The same configuration with the scale factor replaced.
    pub fn with_scaler(self, scaler: i32) -> (r: Self)
        ensures
            r.scaler == scaler,
            r.font_size == self.font_size,
            r.screen_size == self.screen_size,
            r.texture_size == self.texture_size,
    {
        let mut next = self;
        next.scaler = scaler;
        next
    }

    /// Replaces the screen size; every other field is kept, and no derived
    /// value is cached, so the next query reflects the new size alone.
    pub fn resize_screen(&mut self, new_size: [u32; 2])
        ensures
            final(self).screen_size == new_size,
            final(self).scaler == old(self).scaler,
            final(self).font_size == old(self).font_size,
            final(self).texture_size == old(self).texture_size,
    {
        self.screen_size = new_size;
    }

    /// The glyph size on screen: width halved (after scaling) to the cell
    /// quantum, height scaled.
    pub fn get_scaled_font_size(&self) -> (r: [u32; 2])
        requires
            self.wf(),
        ensures
            r[0] == self.scaled_width(),
            r[1] == self.scaled_height(),
    {
        [self.font_size[0] * (self.scaler as u32) / 2, self.font_size[1] * (self.scaler as u32)]
    }

    /// The unscaled glyph size in atlas pixels.
    pub fn get_font_size(&self) -> (r: [u32; 2])
        ensures
            r == self.font_size,
    {
        self.font_size
    }

    /// The terminal grid size in cells, `[columns, rows]`: the screen size
    /// divided by the cell size, truncating.
    pub fn get_terminal_size_in_char(&self) -> (r: [u32; 2])
        requires
            self.wf(),
        ensures
            r[0] == self.term_cols(),
            r[1] == self.term_rows(),
    {
        proof {
            lemma_cell_sizes_fit(*self);
        }
        [
            self.screen_size[0] / (self.font_size[0] / 2 * (self.scaler as u32)),
            self.screen_size[1] / (self.font_size[1] * (self.scaler as u32)),
        ]
    }

    /// The atlas grid size in glyphs, `[columns, rows]`: the texture size
    /// divided by the glyph size, truncating.
    pub fn get_texture_size_in_char(&self) -> (r: [u32; 2])
        requires
            self.wf(),
        ensures
            r[0] == self.atlas_cols(),
            r[1] == self.atlas_rows(),
    {
        [self.texture_size[0] / self.font_size[0], self.texture_size[1] / self.font_size[1]]
    }

    /// The vertex-lattice point with flat index `i`: the lattice is
    /// row-major over `(term_cols + 1) x (term_rows + 1)` grid points, and
    /// a point's screen position is its grid position times the scaled
    /// glyph size.
    pub open spec fn vertex_point(self, i: int) -> [u64; 2] {
        [
            ((i % (self.term_cols() + 1)) * self.scaled_width()) as u64,
            ((i / (self.term_cols() + 1)) * self.scaled_height()) as u64,
        ]
    }

    /// The vertex lattice in full: one point per flat index, row-major.
    pub open spec fn vertex_lattice_ok(self, s: Seq<[u64; 2]>) -> bool {
        &&& s.len() == (self.term_cols() + 1) * (self.term_rows() + 1)
        &&& forall|i: int| 0 <= i < s.len() ==> #[trigger] s[i] == self.vertex_point(i)
    }

    /// The UV-lattice point with flat index `i`, in half-cell units: the
    /// lattice holds two points per atlas grid point, row-major over
    /// `(atlas_cols + 1) x (atlas_rows + 1)` grid points — one on the cell
    /// corner and one half a cell to the right, so that a double-width
    /// glyph's right edge lands on the half-cell boundary.
    pub open spec fn uv_point(self, i: int) -> [u64; 2] {
        [
            (2 * ((i / 2) % (self.atlas_cols() + 1)) + i % 2) as u64,
            (2 * ((i / 2) / (self.atlas_cols() + 1))) as u64,
        ]
    }

    /// The UV lattice in full: two points per atlas grid point, row-major.
    pub open spec fn uv_lattice_ok(self, s: Seq<[u64; 2]>) -> bool {
        &&& s.len() == 2 * (self.atlas_cols() + 1) * (self.atlas_rows() + 1)
        &&& forall|i: int| 0 <= i < s.len() ==> #[trigger] s[i] == self.uv_point(i)
    }

    /// Builds the shared vertex lattice: `(term_cols + 1) x (term_rows + 1)`
    /// screen-space points, row-major, one more point than cells in each
    /// axis so that neighboring cells share their corner points.
    fn generate_vs(&self) -> (r: Vec<[u64; 2]>)
        requires
            self.wf(),
        ensures
            self.vertex_lattice_ok(r@),
    {
        let ts = self.get_terminal_size_in_char();
        let sf = self.get_scaled_font_size();
        let xx = ts[0] as u64;
        let yy = ts[1] as u64;
        let col = sf[0] as u64;
        let row = sf[1] as u64;
        let mut vs: Vec<[u64; 2]> = Vec::new();
        let mut y: u64 = 0;
        while y <= yy
            invariant
                self.wf(),
                xx == self.term_cols(),
                yy == self.term_rows(),
                col == self.scaled_width(),
                row == self.scaled_height(),
                xx <= u32::MAX,
                yy <= u32::MAX,
                col <= u32::MAX,
                row <= u32::MAX,
                0 <= y <= yy + 1,
                vs@.len() == y * (xx + 1),
                forall|i: int| 0 <= i < vs@.len() ==> #[trigger] vs@[i] == self.vertex_point(i),
            decreases yy + 1 - y,
        {
            let mut x: u64 = 0;
            while x <= xx
                invariant
                    self.wf(),
                    xx == self.term_cols(),
                    yy == self.term_rows(),
                    col == self.scaled_width(),
                    row == self.scaled_height(),
                    xx <= u32::MAX,
                    yy <= u32::MAX,
                    col <= u32::MAX,
                    row <= u32::MAX,
                    0 <= y <= yy,
                    0 <= x <= xx + 1,
                    vs@.len() == y * (xx + 1) + x,
                    forall|i: int| 0 <= i < vs@.len() ==> #[trigger] vs@[i] == self.vertex_point(
                        i,
                    ),
                decreases xx + 1 - x,
            {
                proof {
                    lemma_fundamental_div_mod_converse(
                        y * (xx + 1) + x,
                        xx as int + 1,
                        y as int,
                        x as int,
                    );
                    assert(x * col <= 0xFFFF_FFFFu64 * 0xFFFF_FFFFu64) by (nonlinear_arith)
                        requires
                            0 <= x <= 0xFFFF_FFFFu64,
                            0 <= col <= 0xFFFF_FFFFu64,
                    ;
                    assert(y * row <= 0xFFFF_FFFFu64 * 0xFFFF_FFFFu64) by (nonlinear_arith)
                        requires
                            0 <= y <= 0xFFFF_FFFFu64,
                            0 <= row <= 0xFFFF_FFFFu64,
                    ;
                }
                vs.push([x * col, y * row]);
                x = x + 1;
            }
            proof {
                assert((y + 1) * (xx + 1) == y * (xx + 1) + (xx + 1)) by (nonlinear_arith);
            }
            y = y + 1;
        }
        proof {
            assert((yy as int + 1) * (xx as int + 1) == (xx as int + 1) * (yy as int + 1))
                by (nonlinear_arith);
        }
        vs
    }

    /// Builds the UV lattice: two atlas-space points per grid point of a
    /// `(atlas_cols + 1) x (atlas_rows + 1)` grid, row-major, in half-cell
    /// units.
    fn generate_uvs(&self) -> (r: Vec<[u64; 2]>)
        requires
            self.wf(),
        ensures
            self.uv_lattice_ok(r@),
    {
        let txs = self.get_texture_size_in_char();
        let xx = txs[0] as u64;
        let yy = txs[1] as u64;
        let mut uvs: Vec<[u64; 2]> = Vec::new();
        let mut y: u64 = 0;
        while y <= yy
            invariant
                self.wf(),
                xx == self.atlas_cols(),
                yy == self.atlas_rows(),
                xx <= u32::MAX,
                yy <= u32::MAX,
                0 <= y <= yy + 1,
                uvs@.len() == 2 * (y * (xx + 1)),
                forall|i: int| 0 <= i < uvs@.len() ==> #[trigger] uvs@[i] == self.uv_point(i),
            decreases yy + 1 - y,
        {
            let mut x: u64 = 0;
            while x <= xx
                invariant
                    self.wf(),
                    xx == self.atlas_cols(),
                    yy == self.atlas_rows(),
                    xx <= u32::MAX,
                    yy <= u32::MAX,
                    0 <= y <= yy,
                    0 <= x <= xx + 1,
                    uvs@.len() == 2 * (y * (xx + 1) + x),
                    forall|i: int| 0 <= i < uvs@.len() ==> #[trigger] uvs@[i] == self.uv_point(
                        i,
                    ),
                decreases xx + 1 - x,
            {
                proof {
                    lemma_fundamental_div_mod_converse(
                        y * (xx + 1) + x,
                        xx as int + 1,
                        y as int,
                        x as int,
                    );
                }
                uvs.push([2 * x, 2 * y]);
                uvs.push([2 * x + 1, 2 * y]);
                x = x + 1;
            }
            proof {
                assert((y + 1) * (xx + 1) == y * (xx + 1) + (xx + 1)) by (nonlinear_arith);
            }
            y = y + 1;
        }
        proof {
            assert(2 * ((yy as int + 1) * (xx as int + 1)) == 2 * (xx as int + 1) * (yy as int
                + 1)) by (nonlinear_arith);
        }
        uvs
    }

    /// Builds the two meshes the renderer consumes: a foreground mesh
    /// holding the vertex lattice and the UV lattice, and a background
    /// mesh holding the same vertex lattice (drawn at the background
    /// depth) with no UVs. Both face lists start empty; glyph placement
    /// fills them. A pure function of the configuration: no geometry is
    /// cached between calls.
    pub fn generate_models<C>(&self) -> (r: [Mesh<C>; 2])
        requires
            self.wf(),
        ensures
            self.vertex_lattice_ok(r[0].vs@),
            self.uv_lattice_ok(r[0].uvs@),
            r[0].faces@.len() == 0,
            self.vertex_lattice_ok(r[1].vs@),
            r[1].uvs@.len() == 0,
            r[1].faces@.len() == 0,
    {
        let vs = self.generate_vs();
        let bvs = self.generate_vs();
        let uvs = self.generate_uvs();
        [
            Mesh { vs, uvs, faces: Vec::new() },
            Mesh { vs: bvs, uvs: Vec::new(), faces: Vec::new() },
        ]
    }
}

/// For a well-formed configuration the cell width and height are positive
/// and fit a `u32`.
pub proof fn lemma_cell_sizes_fit(cfg: FontConfig)
    requires
        cfg.wf(),
    ensures
        1 <= cfg.cell_width() <= u32::MAX,
        1 <= cfg.cell_height() <= u32::MAX,
{
    assert(1 <= cfg.cell_width() <= u32::MAX) by (nonlinear_arith)
        requires
            cfg.scaler >= 1,
            cfg.font_size[0] >= 2,
            cfg.font_size[0] as int * cfg.scaler as int <= u32::MAX as int,
            cfg.cell_width() == (cfg.font_size[0] as int / 2) * cfg.scaler as int;
    assert(1 <= cfg.cell_height() <= u32::MAX) by (nonlinear_arith)
        requires
            cfg.scaler >= 1,
            cfg.font_size[1] >= 1,
            cfg.font_size[1] as int * cfg.scaler as int <= u32::MAX as int,
            cfg.cell_height() == cfg.font_size[1] as int * cfg.scaler as int;
}

} // verus!

//! Glyph placement: turning a codepoint at a terminal cell into the
//! triangles of its quad, and flowing a whole text across cells.
//!
//! Both entry points share one algorithm. The cell offset becomes a linear
//! cell index; the glyph's width class decides whether it spans one or two
//! cells; a placement that would leave the grid, or a double-width glyph
//! on the last column of a row, overflows. On success the quad's corners
//! are the four vertex-lattice points of the destination cell (the right
//! edge two points over for a double-width glyph) and the four UV-lattice
//! points of the codepoint's atlas cell.
//!
//! The two entry points treat overflow differently, on purpose: the
//! single-glyph call fails loudly so its caller can make a layout
//! decision; the bulk-text call drops the offending codepoint, keeps the
//! cursor advance, and flows the rest of the text.

use vstd::prelude::*;
use vstd::arithmetic::div_mod::lemma_fundamental_div_mod;
use vstd::arithmetic::div_mod::lemma_mod_division_less_than_divisor;

use crate::grid::FontConfig;
use crate::mesh::Face;
use crate::mesh::MeshError;
use crate::width::glyph_step;
use crate::width::wide_spec;
use crate::width::wide_test;

verus! {

broadcast use vstd::array::group_array_axioms;

impl FontConfig {
    /// The linear cell index of a cell offset: column plus row times the
    /// terminal column count.
    pub open spec fn cursor_index(self, offset: [u32; 2]) -> int {
        offset[0] as int + offset[1] as int * self.term_cols()
    }

    /// Whether placing a glyph of the given width class at linear cell
    /// `idx` overflows: the cell's column or row lies outside the grid,
    /// or a double-width glyph sits on the last column of a row.
    pub open spec fn glyph_overflows(self, idx: int, wide: bool) -> bool {
        let x1 = self.term_cols();
        ||| idx % x1 >= x1
        ||| idx / x1 >= self.term_rows()
        ||| (idx % x1 == x1 - 1 && wide)
    }

    /// The vertex-lattice index of the top-left corner of cell `idx`.
    pub open spec fn screen_top_left(self, idx: int) -> int {
        let x1 = self.term_cols();
        (idx / x1) * (x1 + 1) + idx % x1
    }

    /// The vertex-lattice index of the bottom-left corner of cell `idx`:
    /// one lattice row (of `term_cols + 1` points) further down.
    pub open spec fn screen_bottom_left(self, idx: int) -> int {
        let x1 = self.term_cols();
        (idx / x1 + 1) * (x1 + 1) + idx % x1
    }

    /// The UV-lattice index of the top-left corner of the atlas cell of
    /// codepoint `ch`: the atlas cell is `(ch mod atlas_cols,
    /// ch div atlas_cols)`, and each atlas grid point owns two UV points.
    pub open spec fn uv_top_left(self, ch: u32) -> int {
        let x2 = self.atlas_cols();
        ((ch as int / x2) * (x2 + 1) + ch as int % x2) * 2
    }

    /// The UV-lattice index of the bottom-left corner of the atlas cell
    /// of codepoint `ch`.
    pub open spec fn uv_bottom_left(self, ch: u32) -> int {
        let x2 = self.atlas_cols();
        ((ch as int / x2 + 1) * (x2 + 1) + ch as int % x2) * 2
    }

    /// The two foreground triangles of the glyph quad for `ch` at linear
    /// cell `idx`, carrying the given color and atlas layer.
    pub open spec fn glyph_quad<C>(self, idx: int, ch: u32, color: C, layer: i32) -> Seq<
        Face<C>,
    > {
        let n = glyph_step(wide_spec(ch));
        let tl = self.screen_top_left(idx);
        let bl = self.screen_bottom_left(idx);
        let utl = self.uv_top_left(ch);
        let ubl = self.uv_bottom_left(ch);
        seq![
            Face {
                vid: [tl as u64, (tl + n) as u64, bl as u64],
                uvid: [utl as u64, (utl + n) as u64, ubl as u64],
                color,
                layer,
            },
            Face {
                vid: [(tl + n) as u64, bl as u64, (bl + n) as u64],
                uvid: [(utl + n) as u64, ubl as u64, (ubl + n) as u64],
                color,
                layer,
            },
        ]
    }

    /// The two background triangles under a glyph quad: the same
    /// screen-vertex indices, no texture (UV indices zero), the
    /// background color, and the fixed background layer tag.
    pub open spec fn background_quad<C>(self, idx: int, wide: bool, color: C) -> Seq<Face<C>> {
        let n = glyph_step(wide);
        let tl = self.screen_top_left(idx);
        let bl = self.screen_bottom_left(idx);
        seq![
            Face {
                vid: [tl as u64, (tl + n) as u64, bl as u64],
                uvid: [0u64, 0u64, 0u64],
                color,
                layer: -2i32,
            },
            Face {
                vid: [(tl + n) as u64, bl as u64, (bl + n) as u64],
                uvid: [0u64, 0u64, 0u64],
                color,
                layer: -2i32,
            },
        ]
    }

    /// Computes the foreground quad of `ch` at linear cell `idx`, or
    /// `None` exactly when the placement overflows.
    fn glyph_quad_at<C: Copy>(
        &self,
        idx: u64,
        ch: u32,
        wide: bool,
        color: C,
        tex_layer: i32,
    ) -> (r: Option<(Face<C>, Face<C>)>)
        requires
            self.wf(),
            self.term_cols() >= 1,
            self.atlas_cols() >= 1,
            wide == wide_spec(ch),
        ensures
            r is Some <==> !self.glyph_overflows(idx as int, wide_spec(ch)),
            (r matches Some(fs) ==> seq![fs.0, fs.1] == self.glyph_quad(
                idx as int,
                ch,
                color,
                tex_layer,
            )),
    {
        let ts = self.get_terminal_size_in_char();
        let x1 = ts[0] as u64;
        let y1 = ts[1] as u64;
        let txs = self.get_texture_size_in_char();
        let x2 = txs[0] as u64;
        let pos_x = idx % x1;
        let pos_y = idx / x1;
        if pos_x >= x1 || pos_y >= y1 || (pos_x == x1 - 1 && wide) {
            return None;
        }
        let stride = x1 + 1;
        proof {
            assert((pos_y + 1) * (x1 + 1) == pos_y * (x1 + 1) + (x1 + 1)) by (nonlinear_arith);
            assert((pos_y + 1) * (x1 + 1) + x1 <= u64::MAX) by (nonlinear_arith)
                requires
                    pos_y < y1,
                    y1 <= 0xFFFF_FFFFu64,
                    x1 <= 0xFFFF_FFFFu64,
            ;
        }
        let screen_leftup = pos_y * stride + pos_x;
        let screen_leftdown = (pos_y + 1) * stride + pos_x;
        let ch64 = ch as u64;
        let t_x = ch64 % x2;
        let t_y = ch64 / x2;
        proof {
            lemma_fundamental_div_mod(ch64 as int, x2 as int);
            lemma_mod_division_less_than_divisor(ch64 as int, x2 as int);
            assert(t_y * (x2 + 1) + t_x <= 2 * ch64 + x2) by (nonlinear_arith)
                requires
                    x2 >= 1,
                    ch64 == x2 * t_y + t_x,
                    0 <= t_x < x2,
                    t_y >= 0,
            ;
            assert((t_y + 1) * (x2 + 1) + t_x <= 2 * ch64 + 2 * x2 + 1) by (nonlinear_arith)
                requires
                    x2 >= 1,
                    ch64 == x2 * t_y + t_x,
                    0 <= t_x < x2,
                    t_y >= 0,
            ;
        }
        let texture_leftup = (t_y * (x2 + 1) + t_x) * 2;
        let texture_leftdown = ((t_y + 1) * (x2 + 1) + t_x) * 2;
        let n: u64 = if wide {
            2
        } else {
            1
        };
        assert(pos_x + n <= x1);
        let f0 = Face {
            vid: [screen_leftup, screen_leftup + n, screen_leftdown],
            uvid: [texture_leftup, texture_leftup + n, texture_leftdown],
            color,
            layer: tex_layer,
        };
        let f1 = Face {
            vid: [screen_leftup + n, screen_leftdown, screen_leftdown + n],
            uvid: [texture_leftup + n, texture_leftdown, texture_leftdown + n],
            color,
            layer: tex_layer,
        };
        proof {
            assert(seq![f0, f1] =~= self.glyph_quad(idx as int, ch, color, tex_layer)) by {
                assert(f0.vid =~= self.glyph_quad(idx as int, ch, color, tex_layer)[0].vid);
                assert(f0.uvid =~= self.glyph_quad(idx as int, ch, color, tex_layer)[0].uvid);
                assert(f1.vid =~= self.glyph_quad(idx as int, ch, color, tex_layer)[1].vid);
                assert(f1.uvid =~= self.glyph_quad(idx as int, ch, color, tex_layer)[1].uvid);
            }
        }
        Some((f0, f1))
    }

    /// Places a single glyph at a cell offset: two textured triangles in
    /// the foreground color on the given atlas layer, plus two untextured
    /// triangles in the background color on the background layer.
    ///
    /// Fails with `Overflow` exactly when the destination cell lies
    /// outside the terminal grid or a double-width glyph would straddle
    /// the last column of a row; the caller decides the recovery (wrap,
    /// truncate, scroll).
    pub fn char<C: Copy>(
        &self,
        offset: [u32; 2],
        ch: u32,
        fg_color: C,
        bg_color: C,
        tex_layer: i32,
    ) -> (r: Result<[Face<C>; 4], MeshError>)
        requires
            self.wf(),
            self.term_cols() >= 1,
            self.atlas_cols() >= 1,
        ensures
            r is Ok <==> !self.glyph_overflows(self.cursor_index(offset), wide_spec(ch)),
            (r matches Ok(fs) ==> fs@ == self.glyph_quad(
                self.cursor_index(offset),
                ch,
                fg_color,
                tex_layer,
            ) + self.background_quad(self.cursor_index(offset), wide_spec(ch), bg_color)),
            (r matches Err(e) ==> e == MeshError::Overflow),
    {
        let ts = self.get_terminal_size_in_char();
        let x1 = ts[0] as u64;
        proof {
            assert(offset[1] as u64 * x1 <= 0xFFFF_FFFFu64 * 0xFFFF_FFFFu64) by (
            nonlinear_arith)
                requires
                    offset[1] as u64 <= 0xFFFF_FFFFu64,
                    x1 <= 0xFFFF_FFFFu64,
            ;
        }
        let idx: u64 = offset[0] as u64 + offset[1] as u64 * x1;
        let wide = wide_test(ch);
        match self.glyph_quad_at(idx, ch, wide, fg_color, tex_layer) {
            Some((f0, f1)) => {
                let f2 = Face { vid: f0.vid, uvid: [0u64, 0u64, 0u64], color: bg_color, layer: -2 };
                let f3 = Face { vid: f1.vid, uvid: [0u64, 0u64, 0u64], color: bg_color, layer: -2 };
                let fs = [f0, f1, f2, f3];
                proof {
                    let want = self.glyph_quad(idx as int, ch, fg_color, tex_layer)
                        + self.background_quad(idx as int, wide, bg_color);
                    assert(fs@ =~= want) by {
                        assert(fs@[0] == f0);
                        assert(fs@[1] == f1);
                        assert(fs@[2] == f2);
                        assert(fs@[3] == f3);
                        assert(f2.uvid =~= want[2].uvid);
                        assert(f3.uvid =~= want[3].uvid);
                    }
                }
                Ok(fs)
            },
            None => Err(MeshError::Overflow),
        }
    }

    /// The faces a glyph contributes when a text flows over it: its
    /// foreground quad, or nothing when the placement overflows.
    pub open spec fn glyph_faces<C>(self, idx: int, ch: u32, color: C, layer: i32) -> Seq<
        Face<C>,
    > {
        if self.glyph_overflows(idx, wide_spec(ch)) {
            Seq::empty()
        } else {
            self.glyph_quad(idx, ch, color, layer)
        }
    }

    /// The faces of a whole text laid out from linear cell `idx`: each
    /// codepoint contributes its quad (or nothing, on overflow) and
    /// advances the cursor by its cell count either way.
    pub open spec fn text_faces<C>(self, idx: int, text: Seq<u32>, color: C, layer: i32) -> Seq<
        Face<C>,
    >
        decreases text.len(),
    {
        if text.len() == 0 {
            Seq::empty()
        } else {
            self.glyph_faces(idx, text[0], color, layer) + self.text_faces(
                idx + glyph_step(wide_spec(text[0])),
                text.skip(1),
                color,
                layer,
            )
        }
    }

    /// Places a text from a cell offset: the quads of its codepoints in
    /// order, all in one color on one atlas layer, with no background
    /// plane. Each codepoint advances the cursor by its cell count (one
    /// for narrow, two for double-width). A codepoint whose placement
    /// would overflow is dropped — the cursor still advances — and the
    /// rest of the text flows on; an empty text yields no faces.
    pub fn place_text<C: Copy>(
        &self,
        offset: [u32; 2],
        text: &Vec<u32>,
        color: C,
        tex_layer: i32,
    ) -> (r: Vec<Face<C>>)
        requires
            self.wf(),
            self.term_cols() >= 1,
            self.atlas_cols() >= 1,
            self.cursor_index(offset) + 2 * text@.len() <= u64::MAX,
        ensures
            r@ == self.text_faces(self.cursor_index(offset), text@, color, tex_layer),
            text@.len() == 0 ==> r@ == Seq::<Face<C>>::empty(),
    {
        let ts = self.get_terminal_size_in_char();
        let x1 = ts[0] as u64;
        proof {
            assert(offset[1] as u64 * x1 <= 0xFFFF_FFFFu64 * 0xFFFF_FFFFu64) by (
            nonlinear_arith)
                requires
                    offset[1] as u64 <= 0xFFFF_FFFFu64,
                    x1 <= 0xFFFF_FFFFu64,
            ;
        }
        let idx0: u64 = offset[0] as u64 + offset[1] as u64 * x1;
        let ghost start = idx0 as int;
        let mut cursor: u64 = idx0;
        let mut faces: Vec<Face<C>> = Vec::new();
        let mut i: usize = 0;
        while i < text.len()
            invariant
                self.wf(),
                self.term_cols() >= 1,
                self.atlas_cols() >= 1,
                start == self.cursor_index(offset),
                start + 2 * text@.len() <= u64::MAX,
                0 <= i <= text@.len(),
                cursor as int == start + text_cells(text@.take(i as int)),
                cursor as int <= start + 2 * i,
                faces@ == self.text_faces(start, text@.take(i as int), color, tex_layer),
            decreases text@.len() - i,
        {
            let ch = text[i];
            let wide = wide_test(ch);
            let n: u64 = if wide {
                2
            } else {
                1
            };
            proof {
                lemma_text_cells_snoc(text@.take(i as int), ch);
                lemma_text_faces_snoc(
                    *self,
                    start,
                    text@.take(i as int),
                    ch,
                    color,
                    tex_layer,
                );
                assert(text@.take(i as int).push(ch) =~= text@.take(i as int + 1));
            }
            match self.glyph_quad_at(cursor, ch, wide, color, tex_layer) {
                Some((f0, f1)) => {
                    faces.push(f0);
                    faces.push(f1);
                    proof {
                        assert(faces@ =~= self.text_faces(
                            start,
                            text@.take(i as int + 1),
                            color,
                            tex_layer,
                        ));
                    }
                },
                None => {
                    proof {
                        assert(faces@ =~= self.text_faces(
                            start,
                            text@.take(i as int + 1),
                            color,
                            tex_layer,
                        ));
                    }
                },
            }
            cursor = cursor + n;
            i = i + 1;
        }
        proof {
            assert(text@.take(text@.len() as int) =~= text@);
        }
        faces
    }
}

/// How many terminal cells a text occupies: the sum of its codepoints'
/// cell counts, one for narrow and two for double-width.
pub open spec fn text_cells(text: Seq<u32>) -> int
    decreases text.len(),
{
    if text.len() == 0 {
        0
    } else {
        glyph_step(wide_spec(text[0])) + text_cells(text.skip(1))
    }
}

/// Appending a codepoint to a text adds that codepoint's cell count to
/// the cells the text occupies.
pub proof fn lemma_text_cells_snoc(t: Seq<u32>, ch: u32)
    ensures
        text_cells(t.push(ch)) == text_cells(t) + glyph_step(wide_spec(ch)),
    decreases t.len(),
{
    if t.len() == 0 {
        assert(t.push(ch)[0] == ch);
        assert(t.push(ch).skip(1) =~= Seq::<u32>::empty());
        assert(text_cells(Seq::<u32>::empty()) == 0);
        assert(text_cells(t.push(ch)) == glyph_step(wide_spec(ch)) + text_cells(
            t.push(ch).skip(1),
        ));
    } else {
        assert(t.push(ch)[0] == t[0]);
        assert(t.push(ch).skip(1) =~= t.skip(1).push(ch));
        lemma_text_cells_snoc(t.skip(1), ch);
        assert(text_cells(t.push(ch)) == glyph_step(wide_spec(t[0])) + text_cells(
            t.skip(1).push(ch),
        ));
        assert(text_cells(t) == glyph_step(wide_spec(t[0])) + text_cells(t.skip(1)));
    }
}

/// Appending a codepoint to a text appends that codepoint's contribution
/// to the text's faces, placed at the cursor the text has advanced to.
pub proof fn lemma_text_faces_snoc<C>(
    cfg: FontConfig,
    idx: int,
    t: Seq<u32>,
    ch: u32,
    color: C,
    layer: i32,
)
    ensures
        cfg.text_faces(idx, t.push(ch), color, layer) == cfg.text_faces(idx, t, color, layer)
            + cfg.glyph_faces(idx + text_cells(t), ch, color, layer),
    decreases t.len(),
{
    if t.len() == 0 {
        assert(t.push(ch)[0] == ch);
        assert(t.push(ch).skip(1) =~= Seq::<u32>::empty());
        assert(text_cells(t) == 0);
        assert(cfg.text_faces(idx + glyph_step(wide_spec(ch)), Seq::<u32>::empty(), color, layer)
            == Seq::<Face<C>>::empty());
        assert(cfg.text_faces(idx, t.push(ch), color, layer) == cfg.glyph_faces(
            idx,
            ch,
            color,
            layer,
        ) + cfg.text_faces(idx + glyph_step(wide_spec(ch)), t.push(ch).skip(1), color, layer));
        assert(cfg.text_faces(idx, t.push(ch), color, layer) =~= cfg.text_faces(
            idx,
            t,
            color,
            layer,
        ) + cfg.glyph_faces(idx + text_cells(t), ch, color, layer));
    } else {
        assert(t.push(ch)[0] == t[0]);
        assert(t.push(ch).skip(1) =~= t.skip(1).push(ch));
        lemma_text_faces_snoc(
            cfg,
            idx + glyph_step(wide_spec(t[0])),
            t.skip(1),
            ch,
            color,
            layer,
        );
        lemma_text_cells_snoc(t.skip(1), ch);
        assert(cfg.text_faces(idx, t.push(ch), color, layer) == cfg.glyph_faces(
            idx,
            t[0],
            color,
            layer,
        ) + cfg.text_faces(
            idx + glyph_step(wide_spec(t[0])),
            t.skip(1).push(ch),
            color,
            layer,
        ));
        assert(cfg.text_faces(idx, t, color, layer) == cfg.glyph_faces(idx, t[0], color, layer)
            + cfg.text_faces(idx + glyph_step(wide_spec(t[0])), t.skip(1), color, layer));
        assert(text_cells(t) == glyph_step(wide_spec(t[0])) + text_cells(t.skip(1)));
        assert(cfg.text_faces(idx, t.push(ch), color, layer) =~= cfg.text_faces(
            idx,
            t,
            color,
            layer,
        ) + cfg.glyph_faces(idx + text_cells(t), ch, color, layer));
    }
}

} // verus!

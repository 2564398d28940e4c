//! Properties of the grid geometry stated on their own, over the same
//! spec model that the methods' contracts use.

use vstd::prelude::*;
use vstd::arithmetic::div_mod::lemma_fundamental_div_mod_converse;

use crate::grid::FontConfig;
use crate::place::text_cells;
use crate::width::glyph_step;
use crate::width::wide_spec;

verus! {

/// Law: a double-width glyph on the last column of a row never fits,
/// whatever the codepoint: the single-glyph path reports overflow for
/// every such placement.
pub proof fn lemma_wide_last_column_overflows(cfg: FontConfig, idx: int, ch: u32)
    ensures
        idx % cfg.term_cols() == cfg.term_cols() - 1 && wide_spec(ch) ==> cfg.glyph_overflows(
            idx,
            wide_spec(ch),
        ),
{
}

/// Law: the bulk-text path skips an overflowing codepoint and flows on:
/// the faces are exactly those of the rest of the text, laid out from the
/// cursor advanced past the dropped codepoint.
pub proof fn lemma_text_skips_overflow<C>(
    cfg: FontConfig,
    idx: int,
    text: Seq<u32>,
    color: C,
    layer: i32,
)
    requires
        text.len() > 0,
        cfg.glyph_overflows(idx, wide_spec(text[0])),
    ensures
        cfg.text_faces(idx, text, color, layer) == cfg.text_faces(
            idx + glyph_step(wide_spec(text[0])),
            text.skip(1),
            color,
            layer,
        ),
{
    assert(cfg.text_faces(idx, text, color, layer) =~= cfg.text_faces(
        idx + glyph_step(wide_spec(text[0])),
        text.skip(1),
        color,
        layer,
    ));
}

/// Law: a text advances the cursor by the sum of its codepoints' cell
/// counts — laying out the concatenation of two texts is laying out the
/// first, then the second starting from the initial cursor plus the cells
/// the first consumed.
pub proof fn lemma_text_cursor_advance<C>(
    cfg: FontConfig,
    idx: int,
    t1: Seq<u32>,
    t2: Seq<u32>,
    color: C,
    layer: i32,
)
    ensures
        cfg.text_faces(idx, t1 + t2, color, layer) == cfg.text_faces(idx, t1, color, layer)
            + cfg.text_faces(idx + text_cells(t1), t2, color, layer),
    decreases t1.len(),
{
    if t1.len() == 0 {
        assert(t1 + t2 =~= t2);
        assert(text_cells(t1) == 0);
        assert(cfg.text_faces(idx, t1 + t2, color, layer) =~= cfg.text_faces(
            idx,
            t1,
            color,
            layer,
        ) + cfg.text_faces(idx + text_cells(t1), t2, color, layer));
    } else {
        assert((t1 + t2)[0] == t1[0]);
        assert((t1 + t2).skip(1) =~= t1.skip(1) + t2);
        lemma_text_cursor_advance(
            cfg,
            idx + glyph_step(wide_spec(t1[0])),
            t1.skip(1),
            t2,
            color,
            layer,
        );
        assert(text_cells(t1) == glyph_step(wide_spec(t1[0])) + text_cells(t1.skip(1)));
        assert(cfg.text_faces(idx, t1 + t2, color, layer) == cfg.glyph_faces(
            idx,
            t1[0],
            color,
            layer,
        ) + cfg.text_faces(
            idx + glyph_step(wide_spec(t1[0])),
            t1.skip(1) + t2,
            color,
            layer,
        ));
        assert(cfg.text_faces(idx, t1 + t2, color, layer) =~= cfg.text_faces(
            idx,
            t1,
            color,
            layer,
        ) + cfg.text_faces(idx + text_cells(t1), t2, color, layer));
    }
}

/// Law: the terminal grid size is a pure function of the configuration:
/// after a resize it follows the truncating division of the new screen
/// size by the cell size, with nothing carried over from any earlier
/// geometry query.
pub proof fn lemma_resize_determines_grid(cfg: FontConfig, new_size: [u32; 2])
    ensures
        ({
            let resized = FontConfig { screen_size: new_size, ..cfg };
            resized.term_cols() == new_size[0] as int / cfg.cell_width() && resized.term_rows()
                == new_size[1] as int / cfg.cell_height()
        }),
{
}

/// Law: decoding an emitted top-left vertex index recovers the cell. A
/// glyph placed at cell `(c, r)` of the grid has the top-left vertex
/// index `r * (cols + 1) + c`, and mod and div by the lattice stride
/// `cols + 1` give the cell back.
pub proof fn lemma_top_left_round_trip(cfg: FontConfig, c: int, r: int)
    requires
        1 <= cfg.term_cols(),
        0 <= c < cfg.term_cols(),
        0 <= r,
    ensures
        cfg.screen_top_left(r * cfg.term_cols() + c) == r * (cfg.term_cols() + 1) + c,
        (r * (cfg.term_cols() + 1) + c) % (cfg.term_cols() + 1) == c,
        (r * (cfg.term_cols() + 1) + c) / (cfg.term_cols() + 1) == r,
{
    lemma_fundamental_div_mod_converse(r * cfg.term_cols() + c, cfg.term_cols(), r, c);
    lemma_fundamental_div_mod_converse(
        r * (cfg.term_cols() + 1) + c,
        cfg.term_cols() + 1,
        r,
        c,
    );
}

} // verus!

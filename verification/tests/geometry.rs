use bmtext::Face;
use bmtext::FontConfig;
use bmtext::Mesh;
use bmtext::MeshError;
use bmtext::wide_test;

/// A 10 x 5 terminal grid at 1x scale: 2x2-pixel glyphs on a 10x10-pixel
/// screen give cells of 1x2 pixels; a 256x256 atlas of 2x2 glyphs gives a
/// 128 x 128 atlas grid.
fn grid_10x5() -> FontConfig {
    FontConfig::new([10, 10], [256, 256], [2, 2])
}

#[test]
fn terminal_and_atlas_grid_sizes() {
    let cfg = grid_10x5();
    assert_eq!(cfg.get_terminal_size_in_char(), [10, 5]);
    assert_eq!(cfg.get_texture_size_in_char(), [128, 128]);
    assert_eq!(cfg.get_font_size(), [2, 2]);
    assert_eq!(cfg.get_scaled_font_size(), [1, 2]);
}

#[test]
fn scaled_sizes_with_scaler() {
    let cfg = FontConfig::new([10, 10], [256, 256], [2, 2]).with_scaler(2);
    assert_eq!(cfg.get_scaled_font_size(), [2, 4]);
    assert_eq!(cfg.get_terminal_size_in_char(), [5, 2]);
}

#[test]
fn odd_font_width_halves_differently() {
    // The reported scaled width halves after scaling; the terminal grid
    // divides by the half-width scaled: for a 3-pixel glyph at 3x these
    // differ (4 vs a 3-pixel cell).
    let cfg = FontConfig::new([30, 30], [30, 30], [3, 5]).with_scaler(3);
    assert_eq!(cfg.get_scaled_font_size(), [4, 15]);
    assert_eq!(cfg.get_terminal_size_in_char(), [30 / 3, 30 / 15]);
    assert_eq!(cfg.get_texture_size_in_char(), [10, 6]);
}

#[test]
fn lattice_point_counts() {
    let cfg = grid_10x5();
    let [fg, bg]: [Mesh<[f32; 4]>; 2] = cfg.generate_models();
    // (cols + 1) x (rows + 1) vertex points.
    assert_eq!(fg.vs.len(), 11 * 6);
    // 2 x (atlas_cols + 1) x (atlas_rows + 1) UV points.
    assert_eq!(fg.uvs.len(), 2 * 129 * 129);
    assert_eq!(fg.faces.len(), 0);
    // The background mesh shares the vertex lattice and has no UVs.
    assert_eq!(bg.vs.len(), 11 * 6);
    assert_eq!(bg.uvs.len(), 0);
    assert_eq!(bg.faces.len(), 0);
    assert_eq!(fg.vs, bg.vs);
}

#[test]
fn lattice_point_values() {
    let cfg = grid_10x5();
    let [fg, _bg]: [Mesh<u8>; 2] = cfg.generate_models();
    // Row-major vertex points, cell size 1 x 2.
    assert_eq!(fg.vs[0], [0, 0]);
    assert_eq!(fg.vs[1], [1, 0]);
    assert_eq!(fg.vs[10], [10, 0]);
    assert_eq!(fg.vs[11], [0, 2]);
    assert_eq!(fg.vs[11 * 5 + 10], [10, 10]);
    // Two UV points per atlas grid point, in half-cell units.
    assert_eq!(fg.uvs[0], [0, 0]);
    assert_eq!(fg.uvs[1], [1, 0]);
    assert_eq!(fg.uvs[2], [2, 0]);
    assert_eq!(fg.uvs[3], [3, 0]);
    assert_eq!(fg.uvs[2 * 129], [0, 2]);
    assert_eq!(fg.uvs[2 * 129 + 1], [1, 2]);
}

#[test]
fn narrow_glyph_at_origin() {
    let cfg = grid_10x5();
    let fg = [1.0f32, 1.0, 1.0, 1.0];
    let bg = [0.0f32, 0.0, 0.0, 1.0];
    let faces = cfg.char([0, 0], 'A' as u32, fg, bg, 0).unwrap();
    // The quad's four vertex indices are {0, 1, cols + 1, cols + 2}.
    assert_eq!(faces[0].vid, [0, 1, 11]);
    assert_eq!(faces[1].vid, [1, 11, 12]);
    // Atlas cell of codepoint 65 on a 128-wide atlas: (65, 0); the UV
    // stride per lattice row is (128 + 1) * 2.
    assert_eq!(faces[0].uvid, [130, 131, 258 + 130]);
    assert_eq!(faces[1].uvid, [131, 388, 389]);
    // Foreground triangles carry the color and layer, background
    // triangles the background color, no texture, and the -2 layer tag.
    assert_eq!(faces[0].layer, 0);
    assert_eq!(faces[1].layer, 0);
    assert_eq!(faces[0].color, fg);
    assert_eq!(faces[2].vid, faces[0].vid);
    assert_eq!(faces[3].vid, faces[1].vid);
    assert_eq!(faces[2].uvid, [0, 0, 0]);
    assert_eq!(faces[3].uvid, [0, 0, 0]);
    assert_eq!(faces[2].layer, -2);
    assert_eq!(faces[3].layer, -2);
    assert_eq!(faces[2].color, bg);
}

#[test]
fn wide_glyph_spans_two_cells() {
    let cfg = grid_10x5();
    let faces = cfg.char([3, 1], 0x3042, 1u8, 0u8, 5).unwrap();
    // Cell (3, 1): top-left = 1 * 11 + 3 = 14; the right edge sits two
    // lattice points over.
    assert_eq!(faces[0].vid, [14, 16, 25]);
    assert_eq!(faces[1].vid, [16, 25, 27]);
    assert_eq!(faces[0].layer, 5);
}

#[test]
fn wide_glyph_at_last_column_overflows() {
    let cfg = grid_10x5();
    // A double-width glyph may never straddle the line wrap, whatever
    // the codepoint; a narrow one still fits there.
    assert_eq!(cfg.char([9, 0], 0x3042, 1u8, 0u8, 0).err(), Some(MeshError::Overflow));
    assert_eq!(cfg.char([9, 2], 0xFF21, 1u8, 0u8, 0).err(), Some(MeshError::Overflow));
    assert!(cfg.char([9, 0], 'A' as u32, 1u8, 0u8, 0).is_ok());
}

#[test]
fn out_of_grid_overflows() {
    let cfg = grid_10x5();
    // Row 5 lies below a 5-row grid.
    assert_eq!(cfg.char([0, 5], 'A' as u32, 1u8, 0u8, 0).err(), Some(MeshError::Overflow));
    // A column offset past the row's end wraps to the next row first.
    let wrapped = cfg.char([10, 0], 'A' as u32, 1u8, 0u8, 0).unwrap();
    let direct = cfg.char([0, 1], 'A' as u32, 1u8, 0u8, 0).unwrap();
    assert_eq!(wrapped[0].vid, direct[0].vid);
}

#[test]
fn text_skips_overflowing_glyph() {
    let cfg = grid_10x5();
    // The wide glyph at the last column is dropped, but its cursor
    // advance is kept: 'B' lands at linear cell 11, i.e. cell (1, 1).
    let text: Vec<u32> = vec![0x3042, 'B' as u32];
    let faces = cfg.place_text([9, 0], &text, 7u8, 0);
    assert_eq!(faces.len(), 2);
    assert_eq!(faces[0].vid, [12, 13, 23]);
}

#[test]
fn text_cursor_advances_by_cells() {
    let cfg = grid_10x5();
    // 'A' takes one cell, the wide glyph two, so 'B' lands at cell 3.
    let text: Vec<u32> = vec!['A' as u32, 0x3042, 'B' as u32];
    let faces = cfg.place_text([0, 0], &text, 7u8, 0);
    assert_eq!(faces.len(), 6);
    assert_eq!(faces[0].vid, [0, 1, 11]);
    assert_eq!(faces[2].vid, [1, 3, 12]);
    assert_eq!(faces[4].vid, [3, 4, 14]);
}

#[test]
fn empty_text_yields_no_faces() {
    let cfg = grid_10x5();
    let before = cfg.get_terminal_size_in_char();
    let text: Vec<u32> = Vec::new();
    let faces: Vec<Face<u8>> = cfg.place_text([4, 2], &text, 7u8, 0);
    assert_eq!(faces.len(), 0);
    assert_eq!(cfg.get_terminal_size_in_char(), before);
}

#[test]
fn resize_recomputes_grid() {
    let mut cfg = grid_10x5();
    let [fg, _bg]: [Mesh<u8>; 2] = cfg.generate_models();
    assert_eq!(fg.vs.len(), 11 * 6);
    cfg.resize_screen([30, 8]);
    // 30 / 1 columns, 8 / 2 rows — per the division formula, with no
    // residue of the earlier geometry call.
    assert_eq!(cfg.get_terminal_size_in_char(), [30, 4]);
    let [fg2, _bg2]: [Mesh<u8>; 2] = cfg.generate_models();
    assert_eq!(fg2.vs.len(), 31 * 5);
    cfg.resize_screen([10, 10]);
    assert_eq!(cfg.get_terminal_size_in_char(), [10, 5]);
}

#[test]
fn top_left_index_round_trip() {
    let cfg = grid_10x5();
    let faces = cfg.char([3, 2], 'A' as u32, 1u8, 0u8, 0).unwrap();
    // Decoding the emitted top-left vertex index by the lattice stride
    // recovers the cell.
    let tl = faces[0].vid[0];
    assert_eq!(tl, 2 * 11 + 3);
    assert_eq!(tl % 11, 3);
    assert_eq!(tl / 11, 2);
}

#[test]
fn width_classes() {
    // Narrow letters.
    assert!(!wide_test('A' as u32));
    assert!(!wide_test('z' as u32));
    // East Asian wide and fullwidth forms.
    assert!(wide_test(0x3042));
    assert!(wide_test(0xFF21));
    // Control characters have no width and count as wide on purpose.
    assert!(wide_test(0x07));
    assert!(wide_test('\n' as u32));
    // Codes that name no character are narrow.
    assert!(!wide_test(0xD800));
    assert!(!wide_test(0x110000));
}

#[test]
fn width_matches_the_tables() {
    // The same classification the width tables give, checked directly.
    for ch in ['A', '\u{3042}', '\u{6F22}', '\u{FF21}', '~'] {
        let wide = match unicode_width::UnicodeWidthChar::width(ch) {
            Some(w) => w >= 2,
            None => true,
        };
        assert_eq!(wide_test(ch as u32), wide);
    }
}

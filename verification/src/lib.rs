//! Mesh geometry for a monospaced character grid.
//!
//! A terminal-like text surface is turned into renderable mesh data: a
//! shared vertex lattice for the character cells, a UV lattice over a
//! bitmap-font texture atlas, and triangulated glyph quads that index into
//! both lattices, with support for double-width characters.

mod grid;
mod laws;
mod mesh;
mod place;
mod width;

pub use grid::FontConfig;
pub use grid::lemma_cell_sizes_fit;
pub use laws::lemma_resize_determines_grid;
pub use laws::lemma_text_cursor_advance;
pub use laws::lemma_text_skips_overflow;
pub use laws::lemma_top_left_round_trip;
pub use laws::lemma_wide_last_column_overflows;
pub use mesh::Face;
pub use mesh::Mesh;
pub use mesh::MeshError;
pub use place::text_cells;
pub use width::display_width;
pub use width::glyph_step;
pub use width::is_scalar_value;
pub use width::wide_spec;
pub use width::wide_test;

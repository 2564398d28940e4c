//! The mesh data that the renderer consumes: lattice points, triangles, and
//! the error a failed glyph placement reports.

use vstd::prelude::*;

verus! {

/// A triangle of a glyph quad: three vertex-lattice indices, three
/// UV-lattice indices, a color, and a depth/layer tag used for draw
/// ordering (`-2` marks the untextured background layer, values `>= 0`
/// name foreground atlas layers).
///
/// The color type is left generic: this library never inspects a color, it
/// only carries the caller's value into the emitted triangles.
pub struct Face<C> {
    pub vid: [u64; 3],
    pub uvid: [u64; 3],
    pub color: C,
    pub layer: i32,
}

/// A mesh as handed to the rendering collaborator: a vertex lattice, a UV
/// lattice, and a face list.
///
/// Lattice points are kept as exact integers. A vertex entry `[x, y]` is a
/// screen position in pixels (the renderer adds the constant depth of the
/// mesh: `0` for the foreground plane, `1/2` for the background plane, and
/// a unit fourth component). A UV entry `[u, v]` is an atlas position in
/// half-cell units: the renderer divides by twice the atlas grid size to
/// reach normalized texture coordinates.
pub struct Mesh<C> {
    pub vs: Vec<[u64; 2]>,
    pub uvs: Vec<[u64; 2]>,
    pub faces: Vec<Face<C>>,
}

/// Why a single-glyph placement failed.
#[derive(Clone, Copy, Debug, PartialEq, Eq, Structural)]
pub enum MeshError {
    /// The destination cell lies outside the terminal grid, or a
    /// double-width glyph would straddle the last column of a row.
    Overflow,
}

} // verus!

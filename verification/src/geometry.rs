//! The one piece of static scene geometry: a unit quad.
//!
//! Every drawing component renders a full-screen (or full-dial) textured
//! surface, so they all share a single quad of four vertices and six indices
//! forming two triangles. Positions are the corners of `[-1, 1] × [-1, 1]`;
//! texture coordinates run from `(0, 0)` at the top-left corner to `(1, 1)`
//! at the bottom-right. The shell widens these to `f32` vertex buffers.

use vstd::prelude::*;

verus! {

/// One corner of the shared unit quad: a position with each coordinate in
/// `{-1, 1}`, and a texture coordinate with each component in `{0, 1}`.
#[derive(Clone, Copy, Debug, PartialEq, Eq, Structural)]
pub struct QuadVertex {
    pub x: i8,
    pub y: i8,
    pub u: u8,
    pub v: u8,
}

/// The four corners of the unit quad, in the fixed order top-right,
/// top-left, bottom-left, bottom-right.
pub fn unit_quad_vertices() -> (r: Vec<QuadVertex>)
    ensures
        r@ =~= seq![
            QuadVertex { x: 1i8, y: 1i8, u: 1, v: 0 },
            QuadVertex { x: -1i8, y: 1i8, u: 0, v: 0 },
            QuadVertex { x: -1i8, y: -1i8, u: 0, v: 1 },
            QuadVertex { x: 1i8, y: -1i8, u: 1, v: 1 },
        ],
{
    vec![
        QuadVertex { x: 1, y: 1, u: 1, v: 0 },
        QuadVertex { x: -1, y: 1, u: 0, v: 0 },
        QuadVertex { x: -1, y: -1, u: 0, v: 1 },
        QuadVertex { x: 1, y: -1, u: 1, v: 1 },
    ]
}

/// The six indices forming the quad's two clockwise triangles.
pub fn unit_quad_indices() -> (r: Vec<u16>)
    ensures
        r@ =~= seq![0u16, 1, 2, 2, 3, 0],
{
    vec![0, 1, 2, 2, 3, 0]
}

} // verus!

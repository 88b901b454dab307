//! The quad that every cell instance is drawn with, and the layout of its
//! vertex buffer.

use vstd::prelude::*;

verus! {

/// Coordinates of one vertex: x and y.
pub const COMPONENTS: u32 = 2;

/// Bytes of one coordinate in the vertex buffer, a 32-bit float.
pub const COMPONENT_BYTES: u64 = 4;

/// The quad's coordinates are held as whole numbers of `1 / SCALE` of the
/// clip-space unit.
pub const SCALE: i8 = 10;

/// Slot at which the vertex buffer is bound for the draw call.
pub const VERTEX_SLOT: u32 = 0;

/// The quad as x, y pairs in tenths of the clip-space unit: two triangles
/// that share the diagonal from the lower left to the upper right corner.
pub const QUAD: [i8; 12] = [-8, -8, 8, -8, 8, 8, -8, -8, 8, 8, -8, 8];

/// How the vertex stage reads the vertex buffer.
#[derive(Clone, Copy, Debug, PartialEq, Eq, Structural)]
pub struct VertexLayout {
    /// Bytes from one vertex to the next.
    pub stride: u64,
    /// Bytes from the start of a vertex to its one attribute.
    pub offset: u64,
    /// Location of the attribute in the vertex shader.
    pub location: u32,
    /// Number of 32-bit floats of the attribute.
    pub components: u32,
}

/// The layout of a tightly packed buffer of x, y pairs: stride 8, the one
/// attribute at offset 0 and location 0.
pub open spec fn packed_pairs() -> VertexLayout {
    VertexLayout { stride: 8, offset: 0, location: 0, components: 2 }
}

/// The layout of the quad's vertex buffer.
pub fn vertex_layout() -> (layout: VertexLayout)
    ensures
        layout == packed_pairs(),
        layout.stride == layout.components * COMPONENT_BYTES,
{
    VertexLayout {
        stride: (COMPONENTS as u64) * COMPONENT_BYTES,
        offset: 0,
        location: 0,
        components: COMPONENTS,
    }
}

/// The number of vertices of the quad: one for each x, y pair.
pub fn vertex_count() -> (count: u32)
    ensures
        count == 6,
        count * COMPONENTS == QUAD@.len(),
{
    (QUAD.len() as u32) / COMPONENTS
}

/// The quad's coordinates, x before y, vertex after vertex.
pub fn quad() -> (coordinates: Vec<i8>)
    ensures
        coordinates@ == QUAD@,
{
    let mut coordinates: Vec<i8> = Vec::new();
    let mut i: usize = 0;
    while i < 12
        invariant
            i <= 12,
            coordinates@.len() == i,
            forall|k: int| 0 <= k < i ==> coordinates@[k] == QUAD@[k],
        decreases 12 - i,
    {
        coordinates.push(QUAD[i]);
        i = i + 1;
    }
    assert(coordinates@ =~= QUAD@);
    coordinates
}

} // verus!

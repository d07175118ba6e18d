//! The fixed full-viewport quad and the memory layouts shared with the GPU.
use vstd::prelude::*;

verus! {

/// Float components in a vertex position.
pub const POSITION_COMPONENTS: u64 = 3;

/// Bytes in one `f32`.
pub const FLOAT_BYTES: u64 = 4;

/// Distance in bytes between two vertices: the position, tightly packed.
pub const VERTEX_STRIDE: u64 = 12;

/// Bytes in the camera uniform: `offset.x, offset.y, scale, aspect_ratio`.
pub const UNIFORM_FLOATS: u64 = 4;

pub const UNIFORM_BYTES: u64 = 16;

/// Corners of the quad in normalised device coordinates, `(x, y)`; every
/// corner lies in the plane `z = 0`.
pub open spec fn quad_corner_seq() -> Seq<(i32, i32)> {
    seq![(1i32, 1i32), (-1i32, 1i32), (-1i32, -1i32), (1i32, -1i32)]
}

/// The two triangles of the quad, as a triangle list.
pub open spec fn quad_index_seq() -> Seq<u32> {
    seq![0u32, 1u32, 2u32, 0u32, 2u32, 3u32]
}

pub fn quad_corners() -> (r: Vec<(i32, i32)>)
    ensures
        r@ == quad_corner_seq(),
{
    let r = vec![(1i32, 1i32), (-1i32, 1i32), (-1i32, -1i32), (1i32, -1i32)];
    assert(r@ =~= quad_corner_seq());
    r
}

pub fn quad_indices() -> (r: Vec<u32>)
    ensures
        r@ == quad_index_seq(),
{
    let r = vec![0u32, 1u32, 2u32, 0u32, 2u32, 3u32];
    assert(r@ =~= quad_index_seq());
    r
}

/// Every index names a corner of the quad, every corner is used, and the
/// layouts have the sizes that the shading stage reads.
pub proof fn lemma_quad_well_formed()
    ensures
        quad_index_seq().len() == 6,
        forall|i: int| 0 <= i < quad_index_seq().len() ==> quad_index_seq()[i] < quad_corner_seq().len(),
        forall|k: u32| k < quad_corner_seq().len() ==> quad_index_seq().contains(k),
        VERTEX_STRIDE == POSITION_COMPONENTS * FLOAT_BYTES,
        UNIFORM_BYTES == UNIFORM_FLOATS * FLOAT_BYTES,
{
    assert(quad_index_seq()[0] == 0u32);
    assert(quad_index_seq()[1] == 1u32);
    assert(quad_index_seq()[2] == 2u32);
    assert(quad_index_seq()[5] == 3u32);
}

} // verus!

//! The one piece of geometry that is ever drawn: a quad that covers the screen.

use vstd::prelude::*;

verus! {

/// A corner of the quad, in whole units of normalized device coordinates.
#[derive(Clone, Copy, Debug, PartialEq, Eq, Structural)]
pub struct Corner {
    pub x: i8,
    pub y: i8,
}

/// How many indices one draw of the quad takes.
pub const QUAD_INDEX_COUNT: u32 = 6;

/// The four corners of the square from -1 to 1 on both axes.
pub open spec fn quad_corners() -> Seq<Corner> {
    seq![
        Corner { x: -1i8, y: -1i8 },
        Corner { x: -1i8, y: 1 },
        Corner { x: 1, y: -1i8 },
        Corner { x: 1, y: 1 },
    ]
}

/// The two triangles of the quad, as indices into its corners.
pub open spec fn quad_index_list() -> Seq<u32> {
    seq![0u32, 1u32, 2u32, 1u32, 2u32, 3u32]
}

/// The vertices of the quad.
pub fn quad_vertices() -> (vertices: Vec<Corner>)
    ensures
        vertices@ == quad_corners(),
{
    let vertices = vec![
        Corner { x: -1, y: -1 },
        Corner { x: -1, y: 1 },
        Corner { x: 1, y: -1 },
        Corner { x: 1, y: 1 },
    ];
    assert(vertices@ =~= quad_corners());
    vertices
}

/// The indices of the quad.
pub fn quad_indices() -> (indices: Vec<u32>)
    ensures
        indices@ == quad_index_list(),
        indices@.len() == QUAD_INDEX_COUNT,
{
    let indices = vec![0u32, 1u32, 2u32, 1u32, 2u32, 3u32];
    assert(indices@ =~= quad_index_list());
    indices
}

/// Every index names a corner, every corner is named, and the two triangles
/// meet along the edge between the second and the third corner.
pub proof fn quad_is_well_formed()
    ensures
        quad_index_list().len() == QUAD_INDEX_COUNT,
        forall|i: int| 0 <= i < quad_index_list().len() ==> quad_index_list()[i] < quad_corners().len(),
        forall|c: int|
            #![trigger quad_corners()[c]]
            0 <= c < quad_corners().len() ==> exists|i: int|
                0 <= i < quad_index_list().len() && #[trigger] quad_index_list()[i] == c,
        quad_index_list()[1] == quad_index_list()[3],
        quad_index_list()[2] == quad_index_list()[4],
{
    let list = quad_index_list();
    assert(list[0] == 0 && list[1] == 1 && list[2] == 2 && list[5] == 3);
}

} // verus!

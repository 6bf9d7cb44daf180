//! The fixed triangle geometry: three vertices of three position components
//! each, independent of the window size.

use vstd::prelude::*;

verus! {

/// Number of vertices in the one static triangle.
pub const TRIANGLE_VERTEX_COUNT: u32 = 3;

/// Position components (x, y, z) per vertex.
pub const COMPONENTS_PER_VERTEX: u32 = 3;

/// The triangle's corner positions, flattened vertex by vertex, in half
/// units: a component of 1 stands for one half of the unit square, so the
/// corners are (0.5, 1, 0), (0, 0, 0) and (1, 0, 0) once divided by two.
pub open spec fn spec_triangle_half_units() -> Seq<i32> {
    seq![1i32, 2i32, 0i32, 0i32, 0i32, 0i32, 2i32, 0i32, 0i32]
}

/// The data uploaded to the vertex buffer: exactly nine components, three
/// vertices of three components each, in half units.
pub fn triangle_vertex_components() -> (components: Vec<i32>)
    ensures
        components@ == spec_triangle_half_units(),
        components@.len() == TRIANGLE_VERTEX_COUNT * COMPONENTS_PER_VERTEX,
{
    let mut components: Vec<i32> = Vec::new();
    components.push(1);
    components.push(2);
    components.push(0);
    components.push(0);
    components.push(0);
    components.push(0);
    components.push(2);
    components.push(0);
    components.push(0);
    proof {
        assert(components@ =~= spec_triangle_half_units());
    }
    components
}

} // verus!

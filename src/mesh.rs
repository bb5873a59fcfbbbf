use vstd::prelude::*;

verus! {

/// The number of vertices of a mesh given as flat arrays of positions (three
/// numbers a vertex), normals (three) and texture coordinates (two), where
/// the normal and texture-coordinate arrays cover every vertex.
pub open spec fn spec_vertex_count(positions: nat, normals: nat, tex_coords: nat) -> Option<nat> {
    let n = positions / 3;
    if normals >= 3 * n && tex_coords >= 2 * n {
        Some(n)
    } else {
        None
    }
}

/// How many vertices a mesh holds, from the lengths of its flat position,
/// normal and texture-coordinate arrays; `None` where the normals or texture
/// coordinates stop short of the last vertex.
pub fn vertex_count(positions: usize, normals: usize, tex_coords: usize) -> (r: Option<usize>)
    ensures
        match spec_vertex_count(positions as nat, normals as nat, tex_coords as nat) {
            Some(n) => r == Some(n as usize),
            None => r is None,
        },
{
    let n = positions / 3;
    if normals / 3 >= n && tex_coords / 2 >= n {
        Some(n)
    } else {
        None
    }
}

/// One attribute of the interleaved vertex layout: the shader location it
/// feeds, how many `f32` components it has, and how many `f32`s precede it
/// within a vertex.
#[derive(Clone, Copy, Debug, PartialEq, Eq, Structural)]
pub struct VertexAttribute {
    pub location: u32,
    pub components: i32,
    pub offset: usize,
}

/// Components of each vertex attribute, in layout order: position, normal,
/// texture coordinates, tangent, bitangent.
pub open spec fn attribute_sizes() -> Seq<int> {
    seq![3, 3, 2, 3, 3]
}

/// Sum of the first `n` attribute sizes.
pub open spec fn size_before(n: int) -> int
    decreases n,
{
    if n <= 0 {
        0
    } else {
        size_before(n - 1) + attribute_sizes()[n - 1]
    }
}

/// The number of `f32`s in one vertex, which is the stride between vertices.
pub const FLOATS_PER_VERTEX: usize = 14;

/// The attributes of the vertex layout, each packed right after the one
/// before it, at shader locations 0 to 4.
pub fn vertex_attributes() -> (r: Vec<VertexAttribute>)
    ensures
        r@.len() == attribute_sizes().len(),
        forall|i: int|
            0 <= i < r@.len() ==> (#[trigger] r@[i]).location == i && r@[i].components
                == attribute_sizes()[i] && r@[i].offset == size_before(i),
        size_before(attribute_sizes().len() as int) == FLOATS_PER_VERTEX,
{
    let r = vec![
        VertexAttribute { location: 0, components: 3, offset: 0 },
        VertexAttribute { location: 1, components: 3, offset: 3 },
        VertexAttribute { location: 2, components: 2, offset: 6 },
        VertexAttribute { location: 3, components: 3, offset: 8 },
        VertexAttribute { location: 4, components: 3, offset: 11 },
    ];
    proof {
        reveal_with_fuel(size_before, 6);
    }
    r
}

} // verus!

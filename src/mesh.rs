//! Interleaving of a loaded mesh's flat attribute arrays into vertices.
use vstd::prelude::*;

verus! {

/// One mesh vertex: position, texture coordinates and normal, over a scalar
/// type chosen by the caller.
#[derive(Clone, Copy)]
pub struct MeshVertex<T> {
    pub position: [T; 3],
    pub tex_coords: [T; 2],
    pub normal: [T; 3],
}

/// Vertices in a mesh whose flat position array has `positions_len` scalars.
pub open spec fn vertex_count(positions_len: nat) -> nat {
    positions_len / 3
}

/// The attribute arrays hold what `vertex_count` vertices need.
pub open spec fn arrays_cover<T>(positions: Seq<T>, tex_coords: Seq<T>, normals: Seq<T>) -> bool {
    let n = vertex_count(positions.len());
    &&& tex_coords.len() >= 2 * n
    &&& normals.len() >= 3 * n
}

/// Vertex `i` is made of scalars `3i..3i+3` of the positions, `2i..2i+2` of
/// the texture coordinates and `3i..3i+3` of the normals.
pub open spec fn vertex_matches<T>(
    v: MeshVertex<T>,
    positions: Seq<T>,
    tex_coords: Seq<T>,
    normals: Seq<T>,
    i: int,
) -> bool {
    &&& v.position@ == seq![positions[3 * i], positions[3 * i + 1], positions[3 * i + 2]]
    &&& v.tex_coords@ == seq![tex_coords[2 * i], tex_coords[2 * i + 1]]
    &&& v.normal@ == seq![normals[3 * i], normals[3 * i + 1], normals[3 * i + 2]]
}

/// Interleaves flat attribute arrays into vertices, one per whole triple of
/// position scalars (a trailing partial triple is ignored). Fails when the
/// texture coordinates or normals are too short for that many vertices.
pub fn assemble_vertices<T: Copy>(positions: &Vec<T>, tex_coords: &Vec<T>, normals: &Vec<T>) -> (r:
    Option<Vec<MeshVertex<T>>>)
    ensures
        r is Some <==> arrays_cover(positions@, tex_coords@, normals@),
        r matches Some(vs) ==> {
            &&& vs@.len() == vertex_count(positions@.len())
            &&& forall|i: int|
                0 <= i < vs@.len() ==> vertex_matches(
                    #[trigger] vs@[i],
                    positions@,
                    tex_coords@,
                    normals@,
                    i,
                )
        },
{
    let n: usize = positions.len() / 3;
    if tex_coords.len() / 2 < n || normals.len() / 3 < n {
        return None;
    }
    let mut vs: Vec<MeshVertex<T>> = Vec::new();
    let mut i: usize = 0;
    while i < n
        invariant
            n == vertex_count(positions@.len()),
            positions@.len() <= usize::MAX,
            arrays_cover(positions@, tex_coords@, normals@),
            i <= n,
            vs@.len() == i,
            forall|j: int|
                0 <= j < vs@.len() ==> vertex_matches(
                    #[trigger] vs@[j],
                    positions@,
                    tex_coords@,
                    normals@,
                    j,
                ),
        decreases n - i,
    {
        proof {
            let len = positions@.len() as int;
            let m = i as int;
            assert(3 * m + 2 < len && 3 * m + 2 < normals@.len() && 2 * m + 1 < tex_coords@.len())
                by (nonlinear_arith)
                requires
                    m < n as int,
                    n as int == len / 3,
                    tex_coords@.len() >= 2 * n,
                    normals@.len() >= 3 * n,
                    len >= 0,
            ;
        }
        let p: usize = 3 * i;
        let t: usize = 2 * i;
        let v = MeshVertex {
            position: [positions[p], positions[p + 1], positions[p + 2]],
            tex_coords: [tex_coords[t], tex_coords[t + 1]],
            normal: [normals[p], normals[p + 1], normals[p + 2]],
        };
        assert(v.position@ =~= seq![positions@[p as int], positions@[p + 1], positions@[p + 2]]);
        assert(v.tex_coords@ =~= seq![tex_coords@[t as int], tex_coords@[t + 1]]);
        assert(v.normal@ =~= seq![normals@[p as int], normals@[p + 1], normals@[p + 2]]);
        vs.push(v);
        i = i + 1;
    }
    Some(vs)
}

} // verus!

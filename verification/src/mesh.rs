//! Building a convex polytope from a triangle mesh: each face normal gives
//! a bounding plane, anchored at the first vertex of the face with the same
//! index.

use vstd::prelude::*;

verus! {

/// For each of the first `n_normals` faces, the index of the vertex that
/// anchors its plane: the face's first vertex.
pub fn plane_anchor_vertices(faces: &[[usize; 3]], n_normals: usize, n_vertices: usize) -> (r:
    Vec<usize>)
    requires
        n_normals <= faces@.len(),
        forall|i: int| 0 <= i < n_normals ==> (#[trigger] faces@[i])@[0] < n_vertices,
    ensures
        r@.len() == n_normals,
        forall|i: int| 0 <= i < n_normals ==> #[trigger] r@[i] == faces@[i]@[0],
        forall|i: int| 0 <= i < n_normals ==> #[trigger] r@[i] < n_vertices,
{
    let mut r: Vec<usize> = Vec::new();
    let mut i: usize = 0;
    while i < n_normals
        invariant
            i <= n_normals,
            n_normals <= faces@.len(),
            forall|k: int| 0 <= k < n_normals ==> (#[trigger] faces@[k])@[0] < n_vertices,
            r@.len() == i,
            forall|k: int| 0 <= k < i ==> #[trigger] r@[k] == faces@[k]@[0],
        decreases n_normals - i,
    {
        let face = faces[i];
        r.push(face[0]);
        i += 1;
    }
    r
}

} // verus!

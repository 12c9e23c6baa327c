use vstd::prelude::*;

verus! {

/// Corner offsets of the two triangles of segment `i` of an arc strip, relative to the
/// segment's first vertex `2 * i` (vertices alternate inner, outer along the arc).
pub open spec fn arc_corner(k: int) -> int {
    if k == 0 {
        0
    } else if k == 1 {
        2
    } else if k == 2 {
        1
    } else if k == 3 {
        1
    } else if k == 4 {
        2
    } else {
        3
    }
}

/// Corner offsets of the two triangles of a quad, relative to its first vertex
/// (vertices listed around the quad).
pub open spec fn quad_corner(k: int) -> int {
    if k == 0 {
        0
    } else if k == 1 {
        1
    } else if k == 2 {
        2
    } else if k == 3 {
        0
    } else if k == 4 {
        2
    } else {
        3
    }
}

/// Triangle-list indices of an arc (annular sector) mesh made of `segments` segments,
/// whose vertices are `segments + 1` inner/outer pairs: segment `i` is drawn as the
/// triangles (2i, 2i+2, 2i+1) and (2i+1, 2i+2, 2i+3).
pub fn arc_mesh_indices(segments: u32) -> (r: Vec<u32>)
    requires
        2 * segments + 1 <= u32::MAX,
    ensures
        r@.len() == 6 * segments,
        forall|i: int, k: int|
            0 <= i < segments && 0 <= k < 6 ==> #[trigger] r@[6 * i + k] == 2 * i + arc_corner(k),
{
    let mut indices: Vec<u32> = Vec::new();
    let mut i: u32 = 0;
    while i < segments
        invariant
            i <= segments,
            2 * segments + 1 <= u32::MAX,
            indices@.len() == 6 * i,
            forall|j: int, k: int|
                0 <= j < i && 0 <= k < 6 ==> #[trigger] indices@[6 * j + k] == 2 * j + arc_corner(k),
        decreases segments - i,
    {
        let base = i * 2;
        let ghost prev = indices@;
        indices.push(base);
        indices.push(base + 2);
        indices.push(base + 1);
        indices.push(base + 1);
        indices.push(base + 2);
        indices.push(base + 3);
        proof {
            assert forall|j: int, k: int|
                0 <= j < i + 1 && 0 <= k < 6 implies #[trigger] indices@[6 * j + k] == 2 * j + arc_corner(k) by {
                if j < i {
                    assert(6 * j + k < 6 * i) by (nonlinear_arith)
                        requires
                            j < i,
                            k < 6,
                    ;
                    assert(indices@[6 * j + k] == prev[6 * j + k]);
                } else {
                    assert(6 * j + k == 6 * i + k);
                }
            }
        }
        i += 1;
    }
    indices
}

/// Triangle-list indices of `quads` separate quads, each drawn from its own four
/// vertices `4q .. 4q+3` as the triangles (4q, 4q+1, 4q+2) and (4q, 4q+2, 4q+3).
pub fn quad_mesh_indices(quads: u32) -> (r: Vec<u32>)
    requires
        4 * quads <= u32::MAX + 1,
    ensures
        r@.len() == 6 * quads,
        forall|q: int, k: int|
            0 <= q < quads && 0 <= k < 6 ==> #[trigger] r@[6 * q + k] == 4 * q + quad_corner(k),
{
    let mut indices: Vec<u32> = Vec::new();
    let mut q: u32 = 0;
    while q < quads
        invariant
            q <= quads,
            4 * quads <= u32::MAX + 1,
            indices@.len() == 6 * q,
            forall|j: int, k: int|
                0 <= j < q && 0 <= k < 6 ==> #[trigger] indices@[6 * j + k] == 4 * j + quad_corner(k),
        decreases quads - q,
    {
        let base_idx = q * 4;
        let ghost prev = indices@;
        indices.push(base_idx);
        indices.push(base_idx + 1);
        indices.push(base_idx + 2);
        indices.push(base_idx);
        indices.push(base_idx + 2);
        indices.push(base_idx + 3);
        proof {
            assert forall|j: int, k: int|
                0 <= j < q + 1 && 0 <= k < 6 implies #[trigger] indices@[6 * j + k] == 4 * j + quad_corner(k) by {
                if j < q {
                    assert(6 * j + k < 6 * q) by (nonlinear_arith)
                        requires
                            j < q,
                            k < 6,
                    ;
                    assert(indices@[6 * j + k] == prev[6 * j + k]);
                } else {
                    assert(6 * j + k == 6 * q + k);
                }
            }
        }
        q += 1;
    }
    indices
}

/// Every index of an arc mesh names one of its `2 * (segments + 1)` vertices.
pub proof fn lemma_arc_indices_in_bounds(segments: nat, i: int, k: int)
    requires
        0 <= i < segments,
        0 <= k < 6,
    ensures
        0 <= 2 * i + arc_corner(k) < 2 * (segments + 1),
{
}

/// Every index of a quad mesh names one of its `4 * quads` vertices, and each triangle
/// uses three distinct vertices of its own quad.
pub proof fn lemma_quad_indices_in_bounds(quads: nat, q: int, k: int)
    requires
        0 <= q < quads,
        0 <= k < 6,
    ensures
        4 * q <= 4 * q + quad_corner(k) < 4 * quads,
        quad_corner(0) != quad_corner(1) && quad_corner(1) != quad_corner(2) && quad_corner(0) != quad_corner(2),
        quad_corner(3) != quad_corner(4) && quad_corner(4) != quad_corner(5) && quad_corner(3) != quad_corner(5),
{
}

} // verus!

//! The latitude/longitude sphere mesh.
//!
//! The sphere is a grid of `stacks + 1` rings of constant latitude, each of
//! `slices + 1` vertices; the seam vertex of every ring is stored twice, at
//! slice `0` and at slice `slices`. Vertices are listed ring by ring. Every
//! cell of the grid (a "quad") is drawn as two triangles, six indices per
//! quad, quads listed in the same ring-by-ring order.
//!
//! The vertex positions are floating point and are computed by the caller
//! from the grid points returned here.

use vstd::prelude::*;

verus! {

/// One vertex of the sphere grid: its ring (`stack`, from the north pole)
/// and its position along the ring (`slice`).
#[derive(Clone, Copy, Debug, PartialEq, Eq, Structural)]
pub struct GridPoint {
    pub stack: u32,
    pub slice: u32,
}

/// Number of vertices of the grid.
pub open spec fn vertex_count(stacks: int, slices: int) -> int {
    (stacks + 1) * (slices + 1)
}

/// Number of indices of the grid: two triangles per quad.
pub open spec fn index_count(stacks: int, slices: int) -> int {
    6 * (stacks * slices)
}

/// Position in the vertex list of the grid point (`stack`, `slice`).
pub open spec fn vertex_index(slices: int, stack: int, slice: int) -> int {
    stack * (slices + 1) + slice
}

/// Position in the index list of corner `corner` (0 to 5) of the quad whose
/// upper left grid point is (`stack`, `slice`).
pub open spec fn quad_slot(slices: int, stack: int, slice: int, corner: int) -> int {
    6 * (stack * slices + slice) + corner
}

/// How many rings below the quad's upper left point corner `corner` lies.
/// The six corners are the triangles (upper left, upper right, lower left)
/// and (upper right, lower right, lower left).
pub open spec fn corner_stack(corner: int) -> int {
    if corner == 2 || corner == 4 || corner == 5 {
        1
    } else {
        0
    }
}

/// How many slices to the right of the quad's upper left point corner
/// `corner` lies.
pub open spec fn corner_slice(corner: int) -> int {
    if corner == 1 || corner == 3 || corner == 4 {
        1
    } else {
        0
    }
}

/// The vertex that corner `corner` of the quad (`stack`, `slice`) refers to.
pub open spec fn quad_corner_vertex(slices: int, stack: int, slice: int, corner: int) -> int {
    vertex_index(slices, stack + corner_stack(corner), slice + corner_slice(corner))
}

/// `grid` lists the grid points of the sphere ring by ring.
pub open spec fn is_sphere_grid(stacks: int, slices: int, grid: Seq<GridPoint>) -> bool {
    &&& grid.len() == vertex_count(stacks, slices)
    &&& forall|a: int, b: int|
        0 <= a <= stacks && 0 <= b <= slices ==> {
            &&& (#[trigger] grid[vertex_index(slices, a, b)]).stack == a
            &&& grid[vertex_index(slices, a, b)].slice == b
        }
}

/// `idx` lists the six indices of every quad of the sphere, quads ring by
/// ring.
pub open spec fn is_sphere_index_list(stacks: int, slices: int, idx: Seq<u32>) -> bool {
    &&& idx.len() == index_count(stacks, slices)
    &&& forall|a: int, b: int, c: int|
        0 <= a < stacks && 0 <= b < slices && 0 <= c < 6 ==> #[trigger] idx[quad_slot(
            slices,
            a,
            b,
            c,
        )] == quad_corner_vertex(slices, a, b, c)
}

/// The indices fit in `u32`: the largest one is `vertex_count - 1`. When the
/// grid has no quad no index is computed.
pub open spec fn indices_fit_u32(stacks: int, slices: int) -> bool {
    stacks == 0 || slices == 0 || vertex_count(stacks, slices) <= u32::MAX + 1
}

/// What `create_sphere` needs: indices that fit in `u32`, and lists whose
/// lengths fit in `usize`.
pub open spec fn sphere_fits(stacks: int, slices: int) -> bool {
    &&& indices_fit_u32(stacks, slices)
    &&& vertex_count(stacks, slices) <= usize::MAX
    &&& index_count(stacks, slices) <= usize::MAX
}

/// Row-major order: a point before (`i`, `j`) has a smaller position.
proof fn lemma_row_major_before(w: int, a: int, b: int, i: int, j: int)
    requires
        w > 0,
        0 <= a,
        0 <= b < w,
        0 <= j <= w,
        a < i || (a == i && b < j),
    ensures
        a * w + b < i * w + j,
{
    if a < i {
        assert(a * w + b < i * w + j) by (nonlinear_arith)
            requires
                w > 0,
                0 <= a < i,
                0 <= b < w,
                0 <= j,
        {
            assert(a * w + w <= i * w);
        }
    }
}

/// The arithmetic of one quad stays within `u32`.
proof fn lemma_quad_fits(stacks: int, slices: int, i: int, j: int)
    requires
        0 <= i < stacks,
        0 <= j < slices,
        vertex_count(stacks, slices) <= u32::MAX + 1,
    ensures
        i * (slices + 1) + j + slices + 2 <= u32::MAX,
        (i + 1) * (slices + 1) == i * (slices + 1) + slices + 1,
{
    assert(i * (slices + 1) + j + slices + 2 <= (stacks + 1) * (slices + 1) - 1) by (nonlinear_arith)
        requires
            0 <= i < stacks,
            0 <= j < slices,
    {
        assert(i * (slices + 1) <= (stacks - 1) * (slices + 1));
    }
    assert((i + 1) * (slices + 1) == i * (slices + 1) + slices + 1) by (nonlinear_arith);
}

/// The index list of the sphere.
fn sphere_indices(stacks: u32, slices: u32) -> (idx: Vec<u32>)
    requires
        indices_fit_u32(stacks as int, slices as int),
        index_count(stacks as int, slices as int) <= usize::MAX,
    ensures
        is_sphere_index_list(stacks as int, slices as int, idx@),
{
    let ghost s = slices as int;
    let mut indices: Vec<u32> = Vec::new();
    let mut i: u32 = 0;
    while i < stacks
        invariant
            i <= stacks,
            indices_fit_u32(stacks as int, s),
            s == slices,
            indices@.len() == 6 * (i * s),
            forall|a: int, b: int, c: int|
                0 <= a < i && 0 <= b < s && 0 <= c < 6 ==> #[trigger] indices@[quad_slot(
                    s,
                    a,
                    b,
                    c,
                )] == quad_corner_vertex(s, a, b, c),
        decreases stacks - i,
    {
        let mut j: u32 = 0;
        while j < slices
            invariant
                i < stacks,
                j <= slices,
                indices_fit_u32(stacks as int, s),
                s == slices,
                indices@.len() == 6 * (i * s + j),
                forall|a: int, b: int, c: int|
                    0 <= a && 0 <= b < s && 0 <= c < 6 && (a < i || (a == i && b < j))
                        ==> #[trigger] indices@[quad_slot(s, a, b, c)] == quad_corner_vertex(
                        s,
                        a,
                        b,
                        c,
                    ),
            decreases slices - j,
        {
            proof {
                lemma_quad_fits(stacks as int, s, i as int, j as int);
            }
            let ghost before = indices@;
            let first = i * (slices + 1) + j;
            indices.push(first);
            indices.push(first + 1);
            indices.push(first + slices + 1);
            indices.push(first + 1);
            indices.push(first + slices + 2);
            indices.push(first + slices + 1);
            proof {
                assert forall|a: int, b: int, c: int|
                    0 <= a && 0 <= b < s && 0 <= c < 6 && (a < i || (a == i && b < j + 1))
                        implies #[trigger] indices@[quad_slot(s, a, b, c)] == quad_corner_vertex(
                        s,
                        a,
                        b,
                        c,
                    ) by {
                    if a == i && b == j {
                        assert(quad_slot(s, a, b, c) == before.len() + c);
                    } else {
                        lemma_row_major_before(s, a, b, i as int, j as int);
                        assert(indices@[quad_slot(s, a, b, c)] == before[quad_slot(s, a, b, c)]);
                    }
                }
            }
            j += 1;
        }
        proof {
            assert(i * s + s == (i + 1) * s) by (nonlinear_arith);
        }
        i += 1;
    }
    indices
}

/// The grid points of the sphere, ring by ring.
fn sphere_grid(stacks: u32, slices: u32) -> (grid: Vec<GridPoint>)
    requires
        vertex_count(stacks as int, slices as int) <= usize::MAX,
    ensures
        is_sphere_grid(stacks as int, slices as int, grid@),
{
    let ghost w = slices + 1;
    let mut grid: Vec<GridPoint> = Vec::new();
    let mut i: u64 = 0;
    while i <= stacks as u64
        invariant
            i <= stacks + 1,
            w == slices + 1,
            grid@.len() == i * w,
            forall|a: int, b: int|
                0 <= a < i && 0 <= b <= slices ==> {
                    &&& (#[trigger] grid@[vertex_index(slices as int, a, b)]).stack == a
                    &&& grid@[vertex_index(slices as int, a, b)].slice == b
                },
        decreases stacks + 1 - i,
    {
        let mut j: u64 = 0;
        while j <= slices as u64
            invariant
                i <= stacks,
                j <= slices + 1,
                w == slices + 1,
                grid@.len() == i * w + j,
                forall|a: int, b: int|
                    0 <= a && 0 <= b <= slices && (a < i || (a == i && b < j)) ==> {
                        &&& (#[trigger] grid@[vertex_index(slices as int, a, b)]).stack == a
                        &&& grid@[vertex_index(slices as int, a, b)].slice == b
                    },
            decreases slices + 1 - j,
        {
            let ghost before = grid@;
            grid.push(GridPoint { stack: i as u32, slice: j as u32 });
            proof {
                assert forall|a: int, b: int|
                    0 <= a && 0 <= b <= slices && (a < i || (a == i && b < j + 1)) implies {
                        &&& (#[trigger] grid@[vertex_index(slices as int, a, b)]).stack == a
                        &&& grid@[vertex_index(slices as int, a, b)].slice == b
                    } by {
                    if a == i && b == j {
                        assert(vertex_index(slices as int, a, b) == before.len());
                    } else {
                        lemma_row_major_before(w, a, b, i as int, j as int);
                        assert(grid@[vertex_index(slices as int, a, b)] == before[vertex_index(
                            slices as int,
                            a,
                            b,
                        )]);
                    }
                }
            }
            j += 1;
        }
        proof {
            assert(i * w + w == (i + 1) * w) by (nonlinear_arith);
        }
        i += 1;
    }
    grid
}

/// Splits a position of the index list into its quad and corner.
proof fn lemma_slot_split(stacks: int, slices: int, k: int) -> (abc: (int, int, int))
    requires
        0 <= k < index_count(stacks, slices),
        0 <= stacks,
        0 <= slices,
    ensures
        0 <= abc.0 < stacks,
        0 <= abc.1 < slices,
        0 <= abc.2 < 6,
        k == quad_slot(slices, abc.0, abc.1, abc.2),
{
    let q = k / 6;
    let c = k % 6;
    assert(k == 6 * q + c && 0 <= c < 6) by {
        vstd::arithmetic::div_mod::lemma_fundamental_div_mod(k, 6);
    }
    assert(q < stacks * slices);
    assert(slices > 0) by (nonlinear_arith)
        requires
            0 <= q < stacks * slices,
            0 <= stacks,
            0 <= slices,
    ;
    let a = q / slices;
    let b = q % slices;
    assert(q == slices * a + b && 0 <= b < slices) by {
        vstd::arithmetic::div_mod::lemma_fundamental_div_mod(q, slices);
    }
    assert(0 <= a < stacks) by (nonlinear_arith)
        requires
            q == slices * a + b,
            0 <= b < slices,
            0 <= q < stacks * slices,
    ;
    assert(q == a * slices + b) by (nonlinear_arith)
        requires
            q == slices * a + b,
    ;
    (a, b, c)
}

/// Every corner of a quad refers to a vertex of the grid.
proof fn lemma_corner_in_grid(stacks: int, slices: int, a: int, b: int, c: int)
    requires
        0 <= a < stacks,
        0 <= b < slices,
        0 <= c < 6,
    ensures
        0 <= quad_corner_vertex(slices, a, b, c) < vertex_count(stacks, slices),
{
    assert(0 <= quad_corner_vertex(slices, a, b, c) < vertex_count(stacks, slices)) by (nonlinear_arith)
        requires
            0 <= a < stacks,
            0 <= b < slices,
            0 <= c < 6,
            quad_corner_vertex(slices, a, b, c) == (a + corner_stack(c)) * (slices + 1) + b
                + corner_slice(c),
            0 <= corner_stack(c) <= 1,
            0 <= corner_slice(c) <= 1,
    {
        assert((a + corner_stack(c)) * (slices + 1) <= stacks * (slices + 1));
    }
}

/// Law: every index of the sphere's index list refers to a vertex of its
/// grid.
pub proof fn lemma_indices_in_range(stacks: int, slices: int, idx: Seq<u32>)
    requires
        0 <= stacks,
        0 <= slices,
        is_sphere_index_list(stacks, slices, idx),
    ensures
        forall|k: int| 0 <= k < idx.len() ==> #[trigger] idx[k] < vertex_count(stacks, slices),
{
    assert forall|k: int| 0 <= k < idx.len() implies #[trigger] idx[k] < vertex_count(
        stacks,
        slices,
    ) by {
        let (a, b, c) = lemma_slot_split(stacks, slices, k);
        lemma_corner_in_grid(stacks, slices, a, b, c);
    }
}

/// The sphere mesh with `stacks` rings of quads between the poles and
/// `slices` quads around each ring: its grid points, ring by ring, and its
/// triangle list, six indices into the grid per quad.
pub fn create_sphere(stacks: u32, slices: u32) -> (mesh: (Vec<GridPoint>, Vec<u32>))
    requires
        sphere_fits(stacks as int, slices as int),
    ensures
        is_sphere_grid(stacks as int, slices as int, mesh.0@),
        is_sphere_index_list(stacks as int, slices as int, mesh.1@),
        forall|k: int|
            0 <= k < mesh.1@.len() ==> #[trigger] mesh.1@[k] < vertex_count(
                stacks as int,
                slices as int,
            ),
{
    let grid = sphere_grid(stacks, slices);
    let indices = sphere_indices(stacks, slices);
    proof {
        lemma_indices_in_range(stacks as int, slices as int, indices@);
    }
    (grid, indices)
}

/// Twice the signed area of the triangle `p`, `q`, `r` in the plane of the
/// grid, with the slice as first and the ring as second coordinate.
pub open spec fn orientation(p: GridPoint, q: GridPoint, r: GridPoint) -> int {
    (q.slice - p.slice) * (r.stack - p.stack) - (q.stack - p.stack) * (r.slice - p.slice)
}

/// Splits a position of the vertex list into its grid point.
proof fn lemma_vertex_split(stacks: int, slices: int, v: int) -> (ab: (int, int))
    requires
        0 <= stacks,
        0 <= slices,
        0 <= v < vertex_count(stacks, slices),
    ensures
        0 <= ab.0 <= stacks,
        0 <= ab.1 <= slices,
        v == vertex_index(slices, ab.0, ab.1),
        ab.0 == v / (slices + 1),
        ab.1 == v % (slices + 1),
{
    let w = slices + 1;
    let a = v / w;
    let b = v % w;
    assert(v == w * a + b && 0 <= b < w) by {
        vstd::arithmetic::div_mod::lemma_fundamental_div_mod(v, w);
    }
    assert(0 <= a <= stacks && v == a * w + b) by (nonlinear_arith)
        requires
            v == w * a + b,
            0 <= b < w,
            0 <= v < (stacks + 1) * w,
            w > 0,
    ;
    (a, b)
}

/// Law: the grid lists its points ring by ring; the point at position `k`
/// is on ring `k / (slices + 1)` at slice `k % (slices + 1)`.
pub proof fn lemma_grid_position(stacks: int, slices: int, grid: Seq<GridPoint>)
    requires
        0 <= stacks,
        0 <= slices,
        is_sphere_grid(stacks, slices, grid),
    ensures
        forall|k: int|
            0 <= k < grid.len() ==> {
                &&& (#[trigger] grid[k]).stack == k / (slices + 1)
                &&& grid[k].slice == k % (slices + 1)
            },
{
    assert forall|k: int| 0 <= k < grid.len() implies {
        &&& (#[trigger] grid[k]).stack == k / (slices + 1)
        &&& grid[k].slice == k % (slices + 1)
    } by {
        let (a, b) = lemma_vertex_split(stacks, slices, k);
        assert(grid[vertex_index(slices, a, b)].stack == a);
    }
}

/// Law: the two triangles of a quad share its diagonal, from the upper
/// right to the lower left grid point.
pub proof fn lemma_quad_shares_diagonal(stacks: int, slices: int, idx: Seq<u32>, a: int, b: int)
    requires
        is_sphere_index_list(stacks, slices, idx),
        0 <= a < stacks,
        0 <= b < slices,
    ensures
        idx[quad_slot(slices, a, b, 1)] == idx[quad_slot(slices, a, b, 3)],
        idx[quad_slot(slices, a, b, 2)] == idx[quad_slot(slices, a, b, 5)],
        idx[quad_slot(slices, a, b, 1)] == vertex_index(slices, a, b + 1),
        idx[quad_slot(slices, a, b, 2)] == vertex_index(slices, a + 1, b),
{
    assert(idx[quad_slot(slices, a, b, 1)] == quad_corner_vertex(slices, a, b, 1));
    assert(idx[quad_slot(slices, a, b, 2)] == quad_corner_vertex(slices, a, b, 2));
    assert(idx[quad_slot(slices, a, b, 3)] == quad_corner_vertex(slices, a, b, 3));
    assert(idx[quad_slot(slices, a, b, 5)] == quad_corner_vertex(slices, a, b, 5));
}

/// Law: every triangle of the sphere joins three grid points with the same
/// orientation (twice its signed area in the grid is 1), so all triangles
/// wind the same way and none is degenerate.
pub proof fn lemma_triangles_wind_alike(
    stacks: int,
    slices: int,
    grid: Seq<GridPoint>,
    idx: Seq<u32>,
)
    requires
        0 <= stacks,
        0 <= slices,
        is_sphere_grid(stacks, slices, grid),
        is_sphere_index_list(stacks, slices, idx),
    ensures
        forall|t: int|
            0 <= t < 2 * (stacks * slices) ==> orientation(
                #[trigger] grid[idx[3 * t] as int],
                grid[idx[3 * t + 1] as int],
                grid[idx[3 * t + 2] as int],
            ) == 1,
{
    assert forall|t: int| 0 <= t < 2 * (stacks * slices) implies orientation(
        #[trigger] grid[idx[3 * t] as int],
        grid[idx[3 * t + 1] as int],
        grid[idx[3 * t + 2] as int],
    ) == 1 by {
        let (a, b, c) = lemma_slot_split(stacks, slices, 3 * t);
        assert(c == 0 || c == 3);
        let p = grid[idx[3 * t] as int];
        let q = grid[idx[3 * t + 1] as int];
        let r = grid[idx[3 * t + 2] as int];
        assert(3 * t + 1 == quad_slot(slices, a, b, c + 1));
        assert(3 * t + 2 == quad_slot(slices, a, b, c + 2));
        assert(idx[quad_slot(slices, a, b, c)] == quad_corner_vertex(slices, a, b, c));
        assert(idx[quad_slot(slices, a, b, c + 1)] == quad_corner_vertex(slices, a, b, c + 1));
        assert(idx[quad_slot(slices, a, b, c + 2)] == quad_corner_vertex(slices, a, b, c + 2));
        assert(grid[vertex_index(slices, a, b)].stack == a);
        assert(grid[vertex_index(slices, a, b + 1)].stack == a);
        assert(grid[vertex_index(slices, a + 1, b)].stack == a + 1);
        assert(grid[vertex_index(slices, a + 1, b + 1)].stack == a + 1);
        if c == 0 {
            assert(p.stack == a && p.slice == b);
            assert(q.stack == a && q.slice == b + 1);
            assert(r.stack == a + 1 && r.slice == b);
            assert(orientation(p, q, r) == 1 * 1 - 0 * 0);
        } else {
            assert(p.stack == a && p.slice == b + 1);
            assert(q.stack == a + 1 && q.slice == b + 1);
            assert(r.stack == a + 1 && r.slice == b);
            assert(orientation(p, q, r) == 0 * 1 - 1 * (-1));
        }
    }
}

/// Some entry of the index list `idx` is `v`.
pub open spec fn uses_vertex(idx: Seq<u32>, v: int) -> bool {
    exists|k: int| 0 <= k < idx.len() && idx[k] == v
}

/// Law: when the grid has at least one quad, every grid point is a corner
/// of some triangle.
pub proof fn lemma_every_vertex_used(stacks: int, slices: int, idx: Seq<u32>)
    requires
        0 < stacks,
        0 < slices,
        is_sphere_index_list(stacks, slices, idx),
    ensures
        forall|v: int| 0 <= v < vertex_count(stacks, slices) ==> #[trigger] uses_vertex(idx, v),
{
    assert forall|v: int| 0 <= v < vertex_count(stacks, slices) implies #[trigger] uses_vertex(
        idx,
        v,
    ) by {
        let (a, b) = lemma_vertex_split(stacks, slices, v);
        let qa = if a < stacks {
            a
        } else {
            stacks - 1
        };
        let qb = if b < slices {
            b
        } else {
            slices - 1
        };
        let c = if a == qa && b == qb {
            0
        } else if a == qa {
            1
        } else if b == qb {
            2
        } else {
            4
        };
        let k = quad_slot(slices, qa, qb, c);
        assert(idx[quad_slot(slices, qa, qb, c)] == quad_corner_vertex(slices, qa, qb, c));
        assert(0 <= k < idx.len()) by {
            lemma_row_major_before(slices, qa, qb, stacks, 0);
        }
        assert(idx[k] == v);
    }
}

} // verus!

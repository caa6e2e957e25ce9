//! The demo's geometry, over plain integers.
//!
//! The ground plane's coordinates are whole numbers, so its six vertices
//! are stated here exactly.  The icosahedron comes from a mesh file whose
//! positions and normals the library never sees; what the demo computes
//! from that file is the flattening of its polygon indices into one vertex
//! list, three corners per triangle, and that is verified here over the
//! indices alone.

use vstd::prelude::*;

verus! {

/// An integer 3-vector; the fixed geometry has whole-number coordinates.
#[derive(Copy, Clone, PartialEq, Eq, Debug)]
pub struct Vec3i {
    pub x: i32,
    pub y: i32,
    pub z: i32,
}

/// One vertex of the fixed geometry: position, outward normal and colour,
/// each channel a whole number.
#[derive(Copy, Clone, PartialEq, Eq, Debug)]
pub struct Vertex {
    pub position: Vec3i,
    pub normal: Vec3i,
    pub color: Vec3i,
}

/// The ground-quad corner at (x, y, 0), facing +z, coloured white.
pub open spec fn plane_corner(x: i32, y: i32) -> Vertex {
    Vertex {
        position: Vec3i { x: x, y: y, z: 0 },
        normal: Vec3i { x: 0, y: 0, z: 1 },
        color: Vec3i { x: 1, y: 1, z: 1 },
    }
}

/// Build one ground-quad corner.
fn make_plane_corner(x: i32, y: i32) -> (v: Vertex)
    ensures
        v == plane_corner(x, y),
{
    Vertex {
        position: Vec3i { x: x, y: y, z: 0 },
        normal: Vec3i { x: 0, y: 0, z: 1 },
        color: Vec3i { x: 1, y: 1, z: 1 },
    }
}

/// The six vertices of the ground plane: the unit quad in the xy plane,
/// split into the two triangles (top-right, top-left, bottom-left) and
/// (top-right, bottom-left, bottom-right).
pub fn plane_vertices() -> (r: Vec<Vertex>)
    ensures
        r@ =~= seq![
            plane_corner(1i32, 1i32),
            plane_corner(-1i32, 1i32),
            plane_corner(-1i32, -1i32),
            plane_corner(1i32, 1i32),
            plane_corner(-1i32, -1i32),
            plane_corner(1i32, -1i32),
        ],
{
    let mut out: Vec<Vertex> = Vec::new();
    out.push(make_plane_corner(1, 1));
    out.push(make_plane_corner(-1, 1));
    out.push(make_plane_corner(-1, -1));
    out.push(make_plane_corner(1, 1));
    out.push(make_plane_corner(-1, -1));
    out.push(make_plane_corner(1, -1));
    out
}

/// One polygon corner as the mesh file gives it: an index into the
/// position table and, when the file supplies one, an index into the
/// normal table.
#[derive(Copy, Clone, PartialEq, Eq, Debug)]
pub struct Corner {
    pub position: usize,
    pub normal: Option<usize>,
}

/// One triangle of the loaded mesh, by its three corners.
#[derive(Copy, Clone, PartialEq, Eq, Debug)]
pub struct Triangle {
    pub a: Corner,
    pub b: Corner,
    pub c: Corner,
}

/// One polygon group of the loaded mesh, already triangulated.
#[derive(Clone, PartialEq, Eq, Debug)]
pub struct Group {
    pub triangles: Vec<Triangle>,
}

/// A resolved corner: indices into the position and normal tables, both
/// known to be in range.
#[derive(Copy, Clone, PartialEq, Eq, Debug)]
pub struct VertexRef {
    pub position: usize,
    pub normal: usize,
}

/// Why a mesh could not be flattened: the first triangle, counting from
/// zero over the whole mesh, with a position index out of range or a
/// missing or out-of-range normal index.
#[derive(Copy, Clone, PartialEq, Eq, Debug)]
pub struct MeshError {
    pub triangle: usize,
}

/// A corner is valid against tables of `n_positions` positions and
/// `n_normals` normals when its position index is in range and it carries
/// a normal index that is in range.
pub open spec fn corner_valid(c: Corner, n_positions: int, n_normals: int) -> bool {
    &&& c.position < n_positions
    &&& c.normal is Some
    &&& c.normal->0 < n_normals
}

/// A triangle is valid when all three corners are.
pub open spec fn triangle_valid(t: Triangle, n_positions: int, n_normals: int) -> bool {
    &&& corner_valid(t.a, n_positions, n_normals)
    &&& corner_valid(t.b, n_positions, n_normals)
    &&& corner_valid(t.c, n_positions, n_normals)
}

/// What a valid corner resolves to.
pub open spec fn resolve_corner(c: Corner) -> VertexRef {
    VertexRef { position: c.position, normal: c.normal->0 }
}

/// The three resolved corners of a triangle, in order.
pub open spec fn triangle_refs(t: Triangle) -> Seq<VertexRef> {
    seq![resolve_corner(t.a), resolve_corner(t.b), resolve_corner(t.c)]
}

/// The resolved corners of a run of triangles, three per triangle, in
/// triangle order.
pub open spec fn refs_of(tris: Seq<Triangle>) -> Seq<VertexRef>
    decreases tris.len(),
{
    if tris.len() == 0 {
        Seq::empty()
    } else {
        refs_of(tris.drop_last()) + triangle_refs(tris.last())
    }
}

/// The triangles of a run of groups, in group order.
pub open spec fn group_triangles(groups: Seq<Group>) -> Seq<Triangle>
    decreases groups.len(),
{
    if groups.len() == 0 {
        Seq::empty()
    } else {
        group_triangles(groups.drop_last()) + groups.last().triangles@
    }
}

/// Resolve one corner, or report that it cannot be.
fn resolve_corner_checked(c: Corner, n_positions: usize, n_normals: usize) -> (r: Option<
    VertexRef,
>)
    ensures
        (r is Some) <==> corner_valid(c, n_positions as int, n_normals as int),
        r is Some ==> r->0 == resolve_corner(c),
{
    if c.position >= n_positions {
        return None;
    }
    match c.normal {
        Some(n) => if n < n_normals {
            Some(VertexRef { position: c.position, normal: n })
        } else {
            None
        },
        None => None,
    }
}

/// Resolve every triangle's corners against tables of `n_positions`
/// positions and `n_normals` normals, three vertices per triangle in
/// triangle order.  Succeeds exactly when every triangle is valid; fails
/// naming the first triangle that is not.
pub fn resolve_triangles(tris: &Vec<Triangle>, n_positions: usize, n_normals: usize) -> (r: Result<
    Vec<VertexRef>,
    MeshError,
>)
    ensures
        (r is Ok) <==> (forall|i: int|
            0 <= i < tris@.len() ==> triangle_valid(tris@[i], n_positions as int, n_normals as int)),
        r is Ok ==> r->Ok_0@ == refs_of(tris@),
        r is Err ==> {
            &&& r->Err_0.triangle < tris@.len()
            &&& !triangle_valid(tris@[r->Err_0.triangle as int], n_positions as int, n_normals as int)
            &&& forall|i: int|
                0 <= i < r->Err_0.triangle ==> triangle_valid(
                    tris@[i],
                    n_positions as int,
                    n_normals as int,
                )
        },
{
    let mut out: Vec<VertexRef> = Vec::new();
    let mut i: usize = 0;
    while i < tris.len()
        invariant
            i <= tris@.len(),
            out@ == refs_of(tris@.take(i as int)),
            forall|k: int|
                0 <= k < i ==> triangle_valid(tris@[k], n_positions as int, n_normals as int),
        decreases tris@.len() - i,
    {
        let t = tris[i];
        let ra = resolve_corner_checked(t.a, n_positions, n_normals);
        let rb = resolve_corner_checked(t.b, n_positions, n_normals);
        let rc = resolve_corner_checked(t.c, n_positions, n_normals);
        match (ra, rb, rc) {
            (Some(va), Some(vb), Some(vc)) => {
                out.push(va);
                out.push(vb);
                out.push(vc);
                proof {
                    assert(tris@.take(i + 1).drop_last() =~= tris@.take(i as int));
                    assert(tris@.take(i + 1).last() == tris@[i as int]);
                    assert(out@ =~= refs_of(tris@.take(i + 1)));
                }
            },
            _ => {
                return Err(MeshError { triangle: i });
            },
        }
        i = i + 1;
    }
    proof {
        assert(tris@.take(i as int) =~= tris@);
    }
    Ok(out)
}

/// Gather the triangles of every group, in group order.
pub fn collect_triangles(groups: &Vec<Group>) -> (r: Vec<Triangle>)
    ensures
        r@ == group_triangles(groups@),
{
    let mut out: Vec<Triangle> = Vec::new();
    let mut i: usize = 0;
    while i < groups.len()
        invariant
            i <= groups@.len(),
            out@ == group_triangles(groups@.take(i as int)),
        decreases groups@.len() - i,
    {
        let mut j: usize = 0;
        while j < groups[i].triangles.len()
            invariant
                i < groups@.len(),
                j <= groups@[i as int].triangles@.len(),
                out@ == group_triangles(groups@.take(i as int)) + groups@[i as int].triangles@.take(
                    j as int,
                ),
            decreases groups@[i as int].triangles@.len() - j,
        {
            out.push(groups[i].triangles[j]);
            proof {
                assert(groups@[i as int].triangles@.take(j + 1) =~= groups@[
                    i as int
                ].triangles@.take(j as int).push(groups@[i as int].triangles@[j as int]));
            }
            j = j + 1;
        }
        proof {
            assert(groups@.take(i + 1).drop_last() =~= groups@.take(i as int));
            assert(groups@.take(i + 1).last() == groups@[i as int]);
            assert(groups@[i as int].triangles@.take(j as int) =~= groups@[i as int].triangles@);
        }
        i = i + 1;
    }
    proof {
        assert(groups@.take(i as int) =~= groups@);
    }
    out
}

/// The compute part of loading the icosahedron: gather every group's
/// triangles and resolve their corners against the loaded tables.  The
/// caller then looks each resolved index up in the real position and
/// normal tables, whose entries the library never sees.
pub fn flatten_mesh(groups: &Vec<Group>, n_positions: usize, n_normals: usize) -> (r: Result<
    Vec<VertexRef>,
    MeshError,
>)
    ensures
        (r is Ok) <==> (forall|i: int|
            0 <= i < group_triangles(groups@).len() ==> triangle_valid(
                group_triangles(groups@)[i],
                n_positions as int,
                n_normals as int,
            )),
        r is Ok ==> r->Ok_0@ == refs_of(group_triangles(groups@)),
        r is Err ==> {
            &&& r->Err_0.triangle < group_triangles(groups@).len()
            &&& !triangle_valid(
                group_triangles(groups@)[r->Err_0.triangle as int],
                n_positions as int,
                n_normals as int,
            )
            &&& forall|i: int|
                0 <= i < r->Err_0.triangle ==> triangle_valid(
                    group_triangles(groups@)[i],
                    n_positions as int,
                    n_normals as int,
                )
        },
{
    let tris = collect_triangles(groups);
    resolve_triangles(&tris, n_positions, n_normals)
}

} // verus!

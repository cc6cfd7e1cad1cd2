use vstd::prelude::*;

use crate::vertex::{Vec2, Vec3, Vertex};

verus! {

/// No vertex occurs twice in `vs`.
pub open spec fn all_distinct(vs: Seq<Vertex>) -> bool {
    forall|i: int, j: int| 0 <= i < j < vs.len() ==> vs[i] != vs[j]
}

/// The distinct vertices of `corners`, each where it first occurs.
pub open spec fn unique_vertices(corners: Seq<Vertex>) -> Seq<Vertex>
    decreases corners.len(),
{
    if corners.len() == 0 {
        Seq::empty()
    } else {
        let prev = unique_vertices(corners.drop_last());
        if prev.contains(corners.last()) {
            prev
        } else {
            prev.push(corners.last())
        }
    }
}

/// `indices` holds one index per corner, and each selects that corner's vertex.
pub open spec fn indexes_corners(vertices: Seq<Vertex>, indices: Seq<u32>, corners: Seq<Vertex>) -> bool {
    &&& indices.len() == corners.len()
    &&& forall|k: int|
        0 <= k < indices.len() ==> (#[trigger] indices[k] as int) < vertices.len()
            && vertices[indices[k] as int] == corners[k]
}

/// The distinct vertices of a corner list hold no duplicate, are no more than
/// the corners, and include every corner.
pub proof fn lemma_unique_vertices(corners: Seq<Vertex>)
    ensures
        all_distinct(unique_vertices(corners)),
        unique_vertices(corners).len() <= corners.len(),
        forall|k: int| 0 <= k < corners.len() ==> unique_vertices(corners).contains(#[trigger] corners[k]),
    decreases corners.len(),
{
    if corners.len() > 0 {
        let prev = corners.drop_last();
        lemma_unique_vertices(prev);
        assert forall|k: int| 0 <= k < corners.len() implies unique_vertices(corners).contains(
            #[trigger] corners[k],
        ) by {
            if k < corners.len() - 1 {
                assert(prev[k] == corners[k]);
                let u = unique_vertices(prev);
                let j = choose|j: int| 0 <= j < u.len() && u[j] == prev[k];
                if !u.contains(corners.last()) {
                    assert(u.push(corners.last())[j] == corners[k]);
                }
            } else {
                let u = unique_vertices(prev);
                if !u.contains(corners.last()) {
                    assert(u.push(corners.last())[u.len() as int] == corners[k]);
                }
            }
        }
    }
}

/// Deduplication law: a mesh built by the deduplication helper holds no two
/// bit-identical vertices, and has exactly one index per corner that the
/// generator handed in.
pub proof fn lemma_dedup_law(corners: Seq<Vertex>, vertices: Seq<Vertex>, indices: Seq<u32>)
    requires
        vertices == unique_vertices(corners),
        indexes_corners(vertices, indices, corners),
    ensures
        all_distinct(vertices),
        indices.len() == corners.len(),
{
    lemma_unique_vertices(corners);
}

/// The position of `vertex` in `vertices`, if it occurs there.
pub fn find_vertex(vertices: &Vec<Vertex>, vertex: &Vertex) -> (r: Option<usize>)
    ensures
        match r {
            Some(i) => i < vertices@.len() && vertices@[i as int] == *vertex,
            None => !vertices@.contains(*vertex),
        },
{
    let mut i: usize = 0;
    while i < vertices.len()
        invariant
            i <= vertices@.len(),
            forall|j: int| 0 <= j < i ==> vertices@[j] != *vertex,
        decreases vertices@.len() - i,
    {
        if vertices[i] == *vertex {
            return Some(i);
        }
        i = i + 1;
    }
    None
}

/// Appends the index of `vertex` to `indices`, first appending `vertex` to
/// `vertices` if it is not there yet.
pub fn add_unique_vertex(vertices: &mut Vec<Vertex>, indices: &mut Vec<u32>, vertex: Vertex)
    requires
        old(vertices)@.len() <= u32::MAX,
    ensures
        final(vertices)@ == if old(vertices)@.contains(vertex) {
            old(vertices)@
        } else {
            old(vertices)@.push(vertex)
        },
        final(indices)@.len() == old(indices)@.len() + 1,
        final(indices)@.drop_last() == old(indices)@,
        (final(indices)@.last() as int) < final(vertices)@.len(),
        final(vertices)@[final(indices)@.last() as int] == vertex,
{
    let index: u32 = match find_vertex(vertices, &vertex) {
        Some(i) => i as u32,
        None => {
            let i = vertices.len() as u32;
            vertices.push(vertex);
            i
        },
    };
    indices.push(index);
    assert(indices@.drop_last() =~= old(indices)@);
}

/// Deduplicates a corner list: the distinct vertices in order of first
/// occurrence, and one index per corner into them.
pub fn dedup_vertices(corners: &Vec<Vertex>) -> (r: (Vec<Vertex>, Vec<u32>))
    requires
        corners@.len() <= u32::MAX,
    ensures
        r.0@ == unique_vertices(corners@),
        indexes_corners(r.0@, r.1@, corners@),
{
    let mut vertices: Vec<Vertex> = Vec::new();
    let mut indices: Vec<u32> = Vec::new();
    let mut i: usize = 0;
    while i < corners.len()
        invariant
            i <= corners@.len() <= u32::MAX,
            vertices@ == unique_vertices(corners@.subrange(0, i as int)),
            indexes_corners(vertices@, indices@, corners@.subrange(0, i as int)),
        decreases corners@.len() - i,
    {
        let ghost old_vertices = vertices@;
        let ghost old_indices = indices@;
        proof {
            lemma_unique_vertices(corners@.subrange(0, i as int));
            assert(indexes_corners(old_vertices, old_indices, corners@.subrange(0, i as int)));
        }
        add_unique_vertex(&mut vertices, &mut indices, corners[i]);
        proof {
            let next = corners@.subrange(0, i + 1);
            assert(next.drop_last() =~= corners@.subrange(0, i as int));
            assert(next.last() == corners@[i as int]);
            assert forall|k: int| 0 <= k < indices@.len() implies (#[trigger] indices@[k] as int) < vertices@.len()
                && vertices@[indices@[k] as int] == next[k] by {
                if k < i {
                    let prev = corners@.subrange(0, i as int);
                    assert(indices@.drop_last()[k] == old_indices[k]);
                    assert(indices@[k] == old_indices[k]);
                    assert(0 <= k < old_indices.len());
                    assert((old_indices[k] as int) < old_vertices.len());
                    assert(old_vertices[old_indices[k] as int] == prev[k]);
                    assert(prev[k] == next[k]);
                    assert(old_vertices.len() <= vertices@.len());
                    assert(vertices@[indices@[k] as int] == old_vertices[indices@[k] as int]);
                } else {
                    assert(k == i);
                    assert(indices@[k] == indices@.last());
                    assert(next[k] == corners@[i as int]);
                }
            }
            assert(next.len() == i + 1);
            assert(old_indices.len() == i);
            assert(indices@.len() == i + 1);
            assert(indexes_corners(vertices@, indices@, next));
            assert(vertices@ == unique_vertices(next));
        }
        i = i + 1;
    }
    assert(corners@.subrange(0, corners@.len() as int) =~= corners@);
    (vertices, indices)
}

/// Bit pattern of the single-precision value 1.0.
pub const ONE_BITS: u32 = 0x3f80_0000;

/// White, the color given to every vertex of an imported mesh.
pub open spec fn white() -> Vec3 {
    Vec3 { x: ONE_BITS, y: ONE_BITS, z: ONE_BITS }
}

/// One mesh of a parsed OBJ file, as single-precision bit patterns: three
/// position components and two texture components per vertex (the vertical
/// texture component already flipped to the image's top-down rows), and one
/// index per corner.
pub struct ObjMesh {
    pub positions: Vec<u32>,
    pub texcoords: Vec<u32>,
    pub indices: Vec<u32>,
}

/// Why corners could not be read from a parsed mesh.
#[derive(Clone, Copy, Debug, PartialEq, Eq, Structural)]
pub enum MeshError {
    /// An index selects a position or texture coordinate that the mesh lacks.
    IndexOutOfRange,
}

/// Vertex `i` of the mesh exists in both attribute arrays.
pub open spec fn obj_index_in_range(positions: Seq<u32>, texcoords: Seq<u32>, i: u32) -> bool {
    3 * (i as int) + 2 < positions.len() && 2 * (i as int) + 1 < texcoords.len()
}

/// The vertex that index `i` selects, colored white.
pub open spec fn obj_corner(positions: Seq<u32>, texcoords: Seq<u32>, i: u32) -> Vertex {
    let p = 3 * (i as int);
    let t = 2 * (i as int);
    Vertex {
        pos: Vec3 { x: positions[p], y: positions[p + 1], z: positions[p + 2] },
        color: white(),
        tex_coord: Vec2 { x: texcoords[t], y: texcoords[t + 1] },
    }
}

/// Every index of the mesh is in range.
pub open spec fn obj_mesh_valid(m: ObjMesh) -> bool {
    forall|k: int|
        0 <= k < m.indices@.len() ==> obj_index_in_range(
            m.positions@,
            m.texcoords@,
            #[trigger] m.indices@[k],
        )
}

/// The corners of one mesh, in index order.
pub open spec fn obj_mesh_corners(m: ObjMesh) -> Seq<Vertex> {
    Seq::new(m.indices@.len(), |k: int| obj_corner(m.positions@, m.texcoords@, m.indices@[k]))
}

/// The corners of all meshes, mesh after mesh.
pub open spec fn obj_corners(meshes: Seq<ObjMesh>) -> Seq<Vertex>
    decreases meshes.len(),
{
    if meshes.len() == 0 {
        Seq::empty()
    } else {
        obj_corners(meshes.drop_last()) + obj_mesh_corners(meshes.last())
    }
}

proof fn lemma_in_range_div(len: int, i: int, n: int)
    requires
        0 <= len,
        0 <= i,
        1 <= n <= 3,
    ensures
        (i < len / n) <==> (n * i + n - 1 < len),
{
    assert((i < len / n) <==> (n * i + n - 1 < len)) by (nonlinear_arith)
        requires
            0 <= len,
            0 <= i,
            1 <= n <= 3,
    ;
}

/// Reads the corners of every mesh of a parsed OBJ file and deduplicates them
/// into one vertex list and one index list, sharing vertices across meshes.
pub fn mesh_from_obj(meshes: &Vec<ObjMesh>) -> (r: Result<(Vec<Vertex>, Vec<u32>), MeshError>)
    requires
        obj_corners(meshes@).len() <= u32::MAX,
    ensures
        match r {
            Ok((vertices, indices)) => {
                &&& forall|j: int| 0 <= j < meshes@.len() ==> obj_mesh_valid(#[trigger] meshes@[j])
                &&& vertices@ == unique_vertices(obj_corners(meshes@))
                &&& indexes_corners(vertices@, indices@, obj_corners(meshes@))
            },
            Err(e) => {
                &&& e == MeshError::IndexOutOfRange
                &&& exists|j: int| 0 <= j < meshes@.len() && !obj_mesh_valid(#[trigger] meshes@[j])
            },
        },
{
    let mut corners: Vec<Vertex> = Vec::new();
    let mut j: usize = 0;
    while j < meshes.len()
        invariant
            j <= meshes@.len(),
            corners@ == obj_corners(meshes@.subrange(0, j as int)),
            forall|jj: int| 0 <= jj < j ==> obj_mesh_valid(#[trigger] meshes@[jj]),
        decreases meshes@.len() - j,
    {
        let mesh = &meshes[j];
        let ghost before = corners@;
        let mut k: usize = 0;
        while k < mesh.indices.len()
            invariant
                j < meshes@.len(),
                *mesh == meshes@[j as int],
                k <= mesh.indices@.len(),
                corners@ == before + obj_mesh_corners(*mesh).subrange(0, k as int),
                forall|kk: int|
                    0 <= kk < k ==> obj_index_in_range(
                        mesh.positions@,
                        mesh.texcoords@,
                        #[trigger] mesh.indices@[kk],
                    ),
            decreases mesh.indices@.len() - k,
        {
            let i = mesh.indices[k];
            proof {
                lemma_in_range_div(mesh.positions@.len() as int, i as int, 3);
                lemma_in_range_div(mesh.texcoords@.len() as int, i as int, 2);
            }
            if i as usize >= mesh.positions.len() / 3 || i as usize >= mesh.texcoords.len() / 2 {
                proof {
                    assert(!obj_index_in_range(mesh.positions@, mesh.texcoords@, mesh.indices@[k as int]));
                    assert(!obj_mesh_valid(meshes@[j as int]));
                }
                return Err(MeshError::IndexOutOfRange);
            }
            let p = 3 * (i as usize);
            let t = 2 * (i as usize);
            let vertex = Vertex {
                pos: Vec3 { x: mesh.positions[p], y: mesh.positions[p + 1], z: mesh.positions[p + 2] },
                color: Vec3 { x: ONE_BITS, y: ONE_BITS, z: ONE_BITS },
                tex_coord: Vec2 { x: mesh.texcoords[t], y: mesh.texcoords[t + 1] },
            };
            corners.push(vertex);
            proof {
                assert(obj_mesh_corners(*mesh).subrange(0, k + 1) =~= obj_mesh_corners(
                    *mesh,
                ).subrange(0, k as int).push(vertex));
            }
            k = k + 1;
        }
        proof {
            let done = meshes@.subrange(0, j + 1);
            assert(done.drop_last() =~= meshes@.subrange(0, j as int));
            assert(obj_mesh_corners(*mesh).subrange(0, k as int) =~= obj_mesh_corners(*mesh));
            assert(obj_mesh_valid(meshes@[j as int]));
        }
        j = j + 1;
    }
    assert(meshes@.subrange(0, meshes@.len() as int) =~= meshes@);
    Ok(dedup_vertices(&corners))
}

/// The corners of a triangle fan around `center`: triangle `i` joins rim
/// point `i`, the center and rim point `i + 1`.
pub open spec fn fan_corners(center: Vertex, rim: Seq<Vertex>) -> Seq<Vertex> {
    let n: int = if rim.len() == 0 { 0 } else { rim.len() - 1 };
    Seq::new(
        (3 * n) as nat,
        |k: int|
            if k % 3 == 0 {
                rim[k / 3]
            } else if k % 3 == 1 {
                center
            } else {
                rim[k / 3 + 1]
            },
    )
}

/// `all` is `front` followed by the mirrored copy that a disc drawn from both
/// sides appends: for each `i < front.len()`, the triple (`all[i + 2]`, 0, `all[i]`).
pub open spec fn mirrored(front: Seq<u32>, all: Seq<u32>) -> bool {
    let n = front.len() as int;
    &&& all.len() == 4 * n
    &&& all.subrange(0, n) == front
    &&& forall|i: int|
        0 <= i < n ==> {
            &&& #[trigger] all[n + 3 * i] == all[i + 2]
            &&& all[n + 3 * i + 1] == 0
            &&& all[n + 3 * i + 2] == all[i]
        }
}

/// Appends, for each index present on entry, the triple (`indices[i + 2]`,
/// 0, `indices[i]`), reading entries that earlier triples appended where
/// `i + 2` passes the end of the entry list.
pub fn mirror_fan_indices(indices: &mut Vec<u32>)
    requires
        old(indices)@.len() % 3 == 0,
        4 * old(indices)@.len() <= usize::MAX,
    ensures
        mirrored(old(indices)@, final(indices)@),
{
    let n = indices.len();
    let mut i: usize = 0;
    while i < n
        invariant
            n == old(indices)@.len(),
            n % 3 == 0,
            4 * n <= usize::MAX,
            i <= n,
            indices@.len() == n + 3 * i,
            indices@.subrange(0, n as int) == old(indices)@,
            forall|ii: int|
                0 <= ii < i ==> {
                    &&& #[trigger] indices@[n + 3 * ii] == indices@[ii + 2]
                    &&& indices@[n + 3 * ii + 1] == 0
                    &&& indices@[n + 3 * ii + 2] == indices@[ii]
                },
        decreases n - i,
    {
        let a = indices[i + 2];
        let b = indices[i];
        let ghost prev = indices@;
        indices.push(a);
        indices.push(0);
        indices.push(b);
        proof {
            assert(indices@.subrange(0, n as int) =~= prev.subrange(0, n as int));
            assert forall|ii: int| 0 <= ii <= i implies {
                &&& #[trigger] indices@[n + 3 * ii] == indices@[ii + 2]
                &&& indices@[n + 3 * ii + 1] == 0
                &&& indices@[n + 3 * ii + 2] == indices@[ii]
            } by {
                if ii < i {
                    assert(prev[n + 3 * ii] == prev[ii + 2]);
                }
            }
        }
        i = i + 1;
    }
}

/// A disc: the center, then the deduplicated rim, drawn as a fan of
/// `rim.len() - 1` triangles and mirrored so that both faces show. The index
/// count, four times three per triangle, must fit a `u32` draw count.
pub fn circle_geometry(center: Vertex, rim: &Vec<Vertex>) -> (r: (Vec<Vertex>, Vec<u32>))
    requires
        12 * rim@.len() + 1 <= u32::MAX,
    ensures
        r.0@ == unique_vertices(seq![center] + fan_corners(center, rim@)),
        r.1@.len() == 4 * fan_corners(center, rim@).len(),
        indexes_corners(
            r.0@,
            r.1@.subrange(0, fan_corners(center, rim@).len() as int),
            fan_corners(center, rim@),
        ),
        mirrored(r.1@.subrange(0, fan_corners(center, rim@).len() as int), r.1@),
{
    let ghost fan = fan_corners(center, rim@);
    let mut corners: Vec<Vertex> = Vec::new();
    corners.push(center);
    let n: usize = if rim.len() == 0 { 0 } else { rim.len() - 1 };
    let mut i: usize = 0;
    while i < n
        invariant
            n == fan.len() / 3,
            fan.len() == 3 * n,
            fan == fan_corners(center, rim@),
            n + 1 == rim@.len() || (n == 0 && rim@.len() == 0),
            i <= n,
            corners@ == seq![center] + fan.subrange(0, 3 * i),
        decreases n - i,
    {
        corners.push(rim[i]);
        corners.push(center);
        corners.push(rim[i + 1]);
        proof {
            assert(fan[3 * i] == rim@[i as int]);
            assert(fan[3 * i + 1] == center);
            assert(fan[3 * i + 2] == rim@[i + 1]);
            assert(corners@ =~= seq![center] + fan.subrange(0, 3 * (i + 1)));
        }
        i = i + 1;
    }
    let all = corners;
    proof {
        assert(fan.subrange(0, 3 * n) =~= fan);
    }
    let (vertices, mut indices) = dedup_vertices(&all);
    let ghost with_center = indices@;
    indices.remove(0);
    proof {
        assert(indices@ =~= with_center.drop_first());
        assert forall|k: int| 0 <= k < indices@.len() implies (#[trigger] indices@[k] as int)
            < vertices@.len() && vertices@[indices@[k] as int] == fan[k] by {
            assert(indices@[k] == with_center[k + 1]);
            assert(all@[k + 1] == fan[k]);
        }
        assert(indexes_corners(vertices@, indices@, fan));
    }
    let ghost front = indices@;
    mirror_fan_indices(&mut indices);
    proof {
        assert(indices@.subrange(0, fan.len() as int) == front);
    }
    (vertices, indices)
}

} // verus!

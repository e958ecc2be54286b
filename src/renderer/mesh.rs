//! Triangle meshes: vertices with their attributes, and triangles as triples of vertex indices.
use vstd::prelude::*;
use glam::{Vec2, Vec3};
use vstd::arithmetic::div_mod::lemma_fundamental_div_mod;

verus! {

/// A mesh: a list of vertices and the triangles that index into it.
pub struct Mesh {
    pub vertices: Vec<Vertex>,
    pub triangles: Vec<Triangle>,
}

/// One vertex of a mesh.
#[derive(Clone, Copy)]
pub struct Vertex {
    pub position: Vec3,
    pub normal: Vec3,
    pub uv: Vec2,
}

/// One triangle of a mesh, by the indices of its three vertices.
#[derive(Clone, Copy, PartialEq, Eq, Structural, Debug)]
pub struct Triangle {
    pub v1_idx: u32,
    pub v2_idx: u32,
    pub v3_idx: u32,
}

/// The `k`-th triangle of a flat index list: indices `3k`, `3k + 1` and `3k + 2`.
pub open spec fn triangle_at(indices: Seq<u32>, k: int) -> Triangle {
    Triangle { v1_idx: indices[3 * k], v2_idx: indices[3 * k + 1], v3_idx: indices[3 * k + 2] }
}

/// The triangles of a flat index list, three indices each; a trailing group of fewer than
/// three indices is left out.
pub fn triangles_from_indices(indices: &Vec<u32>) -> (r: Vec<Triangle>)
    ensures
        r@.len() == indices@.len() / 3,
        forall|k: int| 0 <= k < r@.len() ==> #[trigger] r@[k] == triangle_at(indices@, k),
{
    let len = indices.len();
    let n = len / 3;
    let mut triangles: Vec<Triangle> = Vec::with_capacity(n);
    let mut k: usize = 0;
    while k < n
        invariant
            len == indices@.len(),
            n == len / 3,
            k <= n,
            triangles@.len() == k,
            forall|j: int| 0 <= j < k ==> #[trigger] triangles@[j] == triangle_at(indices@, j),
        decreases n - k,
    {
        proof {
            lemma_fundamental_div_mod(indices@.len() as int, 3);
            assert(3 * k + 3 <= indices@.len());
        }
        let base = 3 * k;
        triangles.push(Triangle {
            v1_idx: indices[base],
            v2_idx: indices[base + 1],
            v3_idx: indices[base + 2],
        });
        k = k + 1;
    }
    triangles
}

/// The number of triangles in the meshes before position `n`.
pub open spec fn triangles_before(meshes: Seq<Mesh>, n: int) -> int
    decreases n,
{
    if n <= 0 {
        0
    } else {
        triangles_before(meshes, n - 1) + meshes[n - 1].triangles@.len()
    }
}

/// The number of vertices in the meshes before position `n`.
pub open spec fn vertices_before(meshes: Seq<Mesh>, n: int) -> int
    decreases n,
{
    if n <= 0 {
        0
    } else {
        vertices_before(meshes, n - 1) + meshes[n - 1].vertices@.len()
    }
}

/// Where one mesh's triangles and vertices start in buffers that hold all meshes one after
/// another, and how many triangles it has.
#[derive(Clone, Copy, PartialEq, Eq, Structural, Debug)]
pub struct MeshRange {
    pub start_triangle_idx: u32,
    pub start_vertex_idx: u32,
    pub num_triangles: u32,
}

impl Mesh {
    /// The number of vertices, as a `u32` (the low 32 bits of the count).
    pub fn len_vertices(&self) -> (r: u32)
        ensures
            r == self.vertices@.len() as u32,
    {
        self.vertices.len() as u32
    }

    /// The number of triangles, as a `u32` (the low 32 bits of the count).
    pub fn len_triangles(&self) -> (r: u32)
        ensures
            r == self.triangles@.len() as u32,
    {
        self.triangles.len() as u32
    }
}

/// The place of mesh `mesh_id` in buffers that hold the triangles and vertices of all `meshes`
/// in order; `None` where a start index or the mesh's triangle count does not fit in `u32`.
pub fn mesh_range(meshes: &Vec<Mesh>, mesh_id: usize) -> (r: Option<MeshRange>)
    requires
        mesh_id < meshes@.len(),
    ensures
        r == (if triangles_before(meshes@, mesh_id as int) <= u32::MAX
            && vertices_before(meshes@, mesh_id as int) <= u32::MAX
            && meshes@[mesh_id as int].triangles@.len() <= u32::MAX {
            Some(
                MeshRange {
                    start_triangle_idx: triangles_before(meshes@, mesh_id as int) as u32,
                    start_vertex_idx: vertices_before(meshes@, mesh_id as int) as u32,
                    num_triangles: meshes@[mesh_id as int].triangles@.len() as u32,
                },
            )
        } else {
            None
        }),
{
    let mut tris: u64 = 0;
    let mut verts: u64 = 0;
    let mut i: usize = 0;
    let mut fits = true;
    while i < mesh_id
        invariant
            i <= mesh_id < meshes@.len(),
            fits ==> tris == triangles_before(meshes@, i as int) && verts == vertices_before(
                meshes@,
                i as int,
            ) && tris <= u32::MAX && verts <= u32::MAX,
            !fits ==> (triangles_before(meshes@, i as int) > u32::MAX || vertices_before(
                meshes@,
                i as int,
            ) > u32::MAX),
        decreases mesh_id - i,
    {
        proof {
            lemma_before_monotone(meshes@, i as int, i as int + 1);
        }
        if fits {
            let t = meshes[i].triangles.len();
            let v = meshes[i].vertices.len();
            if t as u64 <= u32::MAX as u64 - tris && v as u64 <= u32::MAX as u64 - verts {
                tris = tris + t as u64;
                verts = verts + v as u64;
            } else {
                fits = false;
            }
        }
        i = i + 1;
    }
    let n = meshes[mesh_id].triangles.len();
    if fits && n as u64 <= u32::MAX as u64 {
        Some(
            MeshRange {
                start_triangle_idx: tris as u32,
                start_vertex_idx: verts as u32,
                num_triangles: n as u32,
            },
        )
    } else {
        None
    }
}

/// The counts before a position never shrink as the position grows.
proof fn lemma_before_monotone(meshes: Seq<Mesh>, i: int, j: int)
    requires
        0 <= i <= j <= meshes.len(),
    ensures
        triangles_before(meshes, i) <= triangles_before(meshes, j),
        vertices_before(meshes, i) <= vertices_before(meshes, j),
    decreases j - i,
{
    if i < j {
        lemma_before_monotone(meshes, i, j - 1);
    }
}

} // verus!

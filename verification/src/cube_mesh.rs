use vstd::prelude::*;

verus! {

/// A point or direction with exact integer coordinates.
///
/// Positions are counted in half-units: a coordinate of 1 stands for one
/// half of a world unit, so the corners of the unit cube are at
/// (+-1, +-1, +-1) and the cube's side length is one world unit.
/// Normals use the same type with each component in {-1, 0, 1}.
#[derive(Clone, Copy, Debug, PartialEq, Eq, Structural)]
pub struct Vec3i {
    pub x: i32,
    pub y: i32,
    pub z: i32,
}

/// A texture coordinate on the six-strip atlas.
///
/// `u` is counted in sixths of the atlas width, so it ranges over 0..=6,
/// and `v` is 0 at the top edge of the image and 1 at the bottom edge.
#[derive(Clone, Copy, Debug, PartialEq, Eq, Structural)]
pub struct Uv {
    pub u: u32,
    pub v: u32,
}

/// A triangle mesh as parallel attribute buffers plus an index buffer.
///
/// `positions[i]`, `uvs[i]` and `normals[i]` describe vertex `i`; each
/// consecutive triple of `indices` names the corners of one triangle,
/// listed counter-clockwise as seen from the front of the triangle.
#[derive(Debug, PartialEq, Eq)]
pub struct Mesh {
    pub positions: Vec<Vec3i>,
    pub uvs: Vec<Uv>,
    pub normals: Vec<Vec3i>,
    pub indices: Vec<u32>,
}

pub open spec fn v3(x: i32, y: i32, z: i32) -> Vec3i {
    Vec3i { x: x, y: y, z: z }
}

/// Outward unit normal of face `f`.
///
/// Faces are numbered in atlas order: 0 top (+y), 1 bottom (-y),
/// 2 right (+x), 3 left (-x), 4 back (+z), 5 forward (-z).
pub open spec fn face_normal(f: int) -> Vec3i {
    if f == 0 {
        v3(0i32, 1i32, 0i32)
    } else if f == 1 {
        v3(0i32, -1i32, 0i32)
    } else if f == 2 {
        v3(1i32, 0i32, 0i32)
    } else if f == 3 {
        v3(-1i32, 0i32, 0i32)
    } else if f == 4 {
        v3(0i32, 0i32, 1i32)
    } else {
        v3(0i32, 0i32, -1i32)
    }
}

/// Position (in half-units) of corner `c` of face `f`.
///
/// Each face owns four corners of its own, in the fixed order in which the
/// face's vertex block is emitted, so positions repeat across faces that
/// share a cube corner.
pub open spec fn corner_position(f: int, c: int) -> Vec3i {
    if f == 0 {
        // top (+y)
        if c == 0 {
            v3(-1i32, 1i32, -1i32)
        } else if c == 1 {
            v3(1i32, 1i32, -1i32)
        } else if c == 2 {
            v3(1i32, 1i32, 1i32)
        } else {
            v3(-1i32, 1i32, 1i32)
        }
    } else if f == 1 {
        // bottom (-y)
        if c == 0 {
            v3(-1i32, -1i32, -1i32)
        } else if c == 1 {
            v3(1i32, -1i32, -1i32)
        } else if c == 2 {
            v3(1i32, -1i32, 1i32)
        } else {
            v3(-1i32, -1i32, 1i32)
        }
    } else if f == 2 {
        // right (+x)
        if c == 0 {
            v3(1i32, -1i32, -1i32)
        } else if c == 1 {
            v3(1i32, -1i32, 1i32)
        } else if c == 2 {
            v3(1i32, 1i32, 1i32)
        } else {
            v3(1i32, 1i32, -1i32)
        }
    } else if f == 3 {
        // left (-x)
        if c == 0 {
            v3(-1i32, -1i32, -1i32)
        } else if c == 1 {
            v3(-1i32, -1i32, 1i32)
        } else if c == 2 {
            v3(-1i32, 1i32, 1i32)
        } else {
            v3(-1i32, 1i32, -1i32)
        }
    } else if f == 4 {
        // back (+z)
        if c == 0 {
            v3(-1i32, -1i32, 1i32)
        } else if c == 1 {
            v3(-1i32, 1i32, 1i32)
        } else if c == 2 {
            v3(1i32, 1i32, 1i32)
        } else {
            v3(1i32, -1i32, 1i32)
        }
    } else {
        // forward (-z)
        if c == 0 {
            v3(-1i32, -1i32, -1i32)
        } else if c == 1 {
            v3(-1i32, 1i32, -1i32)
        } else if c == 2 {
            v3(1i32, 1i32, -1i32)
        } else {
            v3(1i32, -1i32, -1i32)
        }
    }
}

/// Texture coordinate of corner `c` of face `f`, in sixths.
///
/// Face `f` occupies the horizontal strip `[f/6, (f+1)/6] x [0, 1]` of the
/// atlas; its corners map to the strip's corners as bottom-left, top-left,
/// top-right, bottom-right in UV space (V = 0 is the top of the image).
pub open spec fn corner_uv(f: int, c: int) -> Uv {
    Uv {
        u: if c == 2 || c == 3 {
            (f + 1) as u32
        } else {
            f as u32
        },
        v: if c == 0 || c == 3 {
            1
        } else {
            0
        },
    }
}

/// Local vertex index (within a face's block of four) of slot `j` of the
/// face's six triangle indices.
///
/// Faces alternate between a positive and a negative axis direction, and a
/// negative face's corner ring runs the opposite way around its normal, so
/// the two triangles of an odd face use the mirrored diagonal pattern.
/// Both patterns wind counter-clockwise as seen from outside the cube.
pub open spec fn face_local_index(f: int, j: int) -> int {
    if f % 2 == 0 {
        if j == 0 {
            0
        } else if j == 1 {
            3
        } else if j == 2 {
            1
        } else if j == 3 {
            1
        } else if j == 4 {
            3
        } else {
            2
        }
    } else {
        if j == 0 {
            0
        } else if j == 1 {
            1
        } else if j == 2 {
            3
        } else if j == 3 {
            1
        } else if j == 4 {
            2
        } else {
            3
        }
    }
}

/// Position of vertex `i` of the cube mesh (vertex `i` is corner `i % 4`
/// of face `i / 4`).
pub open spec fn cube_position(i: int) -> Vec3i {
    corner_position(i / 4, i % 4)
}

/// Normal of vertex `i` of the cube mesh.
pub open spec fn cube_normal(i: int) -> Vec3i {
    face_normal(i / 4)
}

/// Texture coordinate of vertex `i` of the cube mesh.
pub open spec fn cube_uv(i: int) -> Uv {
    corner_uv(i / 4, i % 4)
}

/// Entry `k` of the cube mesh's index buffer: slot `k % 6` of face
/// `k / 6`, offset to that face's block of four vertices.
pub open spec fn cube_index(k: int) -> int {
    4 * (k / 6) + face_local_index(k / 6, k % 6)
}

/// The mesh holds exactly the unit cube's 24 vertices and 36 triangle
/// indices, entry by entry.
pub open spec fn is_cube_mesh(m: Mesh) -> bool {
    &&& m.positions@.len() == 24
    &&& m.uvs@.len() == 24
    &&& m.normals@.len() == 24
    &&& m.indices@.len() == 36
    &&& forall|i: int| 0 <= i < 24 ==> m.positions@[i] == cube_position(i)
    &&& forall|i: int| 0 <= i < 24 ==> m.uvs@[i] == cube_uv(i)
    &&& forall|i: int| 0 <= i < 24 ==> m.normals@[i] == cube_normal(i)
    &&& forall|k: int| 0 <= k < 36 ==> m.indices@[k] as int == cube_index(k)
}

/// Outward unit normal of face `f`, as executable data.
pub fn face_normal_at(f: usize) -> (n: Vec3i)
    requires
        f < 6,
    ensures
        n == face_normal(f as int),
{
    if f == 0 {
        Vec3i { x: 0, y: 1, z: 0 }
    } else if f == 1 {
        Vec3i { x: 0, y: -1, z: 0 }
    } else if f == 2 {
        Vec3i { x: 1, y: 0, z: 0 }
    } else if f == 3 {
        Vec3i { x: -1, y: 0, z: 0 }
    } else if f == 4 {
        Vec3i { x: 0, y: 0, z: 1 }
    } else {
        Vec3i { x: 0, y: 0, z: -1 }
    }
}

/// Position (in half-units) of corner `c` of face `f`, as executable data.
pub fn corner_position_at(f: usize, c: usize) -> (p: Vec3i)
    requires
        f < 6,
        c < 4,
    ensures
        p == corner_position(f as int, c as int),
{
    if f == 0 {
        // top (+y)
        if c == 0 {
            Vec3i { x: -1, y: 1, z: -1 }
        } else if c == 1 {
            Vec3i { x: 1, y: 1, z: -1 }
        } else if c == 2 {
            Vec3i { x: 1, y: 1, z: 1 }
        } else {
            Vec3i { x: -1, y: 1, z: 1 }
        }
    } else if f == 1 {
        // bottom (-y)
        if c == 0 {
            Vec3i { x: -1, y: -1, z: -1 }
        } else if c == 1 {
            Vec3i { x: 1, y: -1, z: -1 }
        } else if c == 2 {
            Vec3i { x: 1, y: -1, z: 1 }
        } else {
            Vec3i { x: -1, y: -1, z: 1 }
        }
    } else if f == 2 {
        // right (+x)
        if c == 0 {
            Vec3i { x: 1, y: -1, z: -1 }
        } else if c == 1 {
            Vec3i { x: 1, y: -1, z: 1 }
        } else if c == 2 {
            Vec3i { x: 1, y: 1, z: 1 }
        } else {
            Vec3i { x: 1, y: 1, z: -1 }
        }
    } else if f == 3 {
        // left (-x)
        if c == 0 {
            Vec3i { x: -1, y: -1, z: -1 }
        } else if c == 1 {
            Vec3i { x: -1, y: -1, z: 1 }
        } else if c == 2 {
            Vec3i { x: -1, y: 1, z: 1 }
        } else {
            Vec3i { x: -1, y: 1, z: -1 }
        }
    } else if f == 4 {
        // back (+z)
        if c == 0 {
            Vec3i { x: -1, y: -1, z: 1 }
        } else if c == 1 {
            Vec3i { x: -1, y: 1, z: 1 }
        } else if c == 2 {
            Vec3i { x: 1, y: 1, z: 1 }
        } else {
            Vec3i { x: 1, y: -1, z: 1 }
        }
    } else {
        // forward (-z)
        if c == 0 {
            Vec3i { x: -1, y: -1, z: -1 }
        } else if c == 1 {
            Vec3i { x: -1, y: 1, z: -1 }
        } else if c == 2 {
            Vec3i { x: 1, y: 1, z: -1 }
        } else {
            Vec3i { x: 1, y: -1, z: -1 }
        }
    }
}

/// Texture coordinate (in sixths) of corner `c` of face `f`, as
/// executable data.
pub fn corner_uv_at(f: usize, c: usize) -> (t: Uv)
    requires
        f < 6,
        c < 4,
    ensures
        t == corner_uv(f as int, c as int),
{
    let u: u32 = if c == 2 || c == 3 {
        (f + 1) as u32
    } else {
        f as u32
    };
    let v: u32 = if c == 0 || c == 3 {
        1
    } else {
        0
    };
    Uv { u: u, v: v }
}

/// Local vertex index of slot `j` of face `f`'s six triangle indices, as
/// executable data.
pub fn face_local_index_at(f: usize, j: usize) -> (l: usize)
    requires
        f < 6,
        j < 6,
    ensures
        l as int == face_local_index(f as int, j as int),
        l < 4,
{
    if f % 2 == 0 {
        if j == 0 {
            0
        } else if j == 1 {
            3
        } else if j == 2 {
            1
        } else if j == 3 {
            1
        } else if j == 4 {
            3
        } else {
            2
        }
    } else {
        if j == 0 {
            0
        } else if j == 1 {
            1
        } else if j == 2 {
            3
        } else if j == 3 {
            1
        } else if j == 4 {
            2
        } else {
            3
        }
    }
}

/// Builds the textured unit-cube mesh: 24 vertices (four per face, each
/// with the face's normal and atlas strip) and 36 indices (two
/// counter-clockwise triangles per face), exactly as `is_cube_mesh`
/// describes, the same value on every call.
pub fn build_cube_mesh() -> (m: Mesh)
    ensures
        is_cube_mesh(m),
{
    let mut positions: Vec<Vec3i> = Vec::new();
    let mut uvs: Vec<Uv> = Vec::new();
    let mut normals: Vec<Vec3i> = Vec::new();
    let mut indices: Vec<u32> = Vec::new();
    let mut f: usize = 0;
    while f < 6
        invariant
            f <= 6,
            positions@.len() == 4 * f,
            uvs@.len() == 4 * f,
            normals@.len() == 4 * f,
            indices@.len() == 6 * f,
            forall|i: int| 0 <= i < 4 * f ==> positions@[i] == cube_position(i),
            forall|i: int| 0 <= i < 4 * f ==> uvs@[i] == cube_uv(i),
            forall|i: int| 0 <= i < 4 * f ==> normals@[i] == cube_normal(i),
            forall|k: int| 0 <= k < 6 * f ==> indices@[k] as int == cube_index(k),
        decreases 6 - f,
    {
        let mut c: usize = 0;
        while c < 4
            invariant
                f < 6,
                c <= 4,
                positions@.len() == 4 * f + c,
                uvs@.len() == 4 * f + c,
                normals@.len() == 4 * f + c,
                forall|i: int| 0 <= i < 4 * f + c ==> positions@[i] == cube_position(i),
                forall|i: int| 0 <= i < 4 * f + c ==> uvs@[i] == cube_uv(i),
                forall|i: int| 0 <= i < 4 * f + c ==> normals@[i] == cube_normal(i),
            decreases 4 - c,
        {
            positions.push(corner_position_at(f, c));
            uvs.push(corner_uv_at(f, c));
            normals.push(face_normal_at(f));
            c += 1;
        }
        let mut j: usize = 0;
        while j < 6
            invariant
                f < 6,
                j <= 6,
                indices@.len() == 6 * f + j,
                forall|k: int| 0 <= k < 6 * f + j ==> indices@[k] as int == cube_index(k),
            decreases 6 - j,
        {
            let l = face_local_index_at(f, j);
            indices.push((4 * f + l) as u32);
            j += 1;
        }
        f += 1;
    }
    Mesh { positions: positions, uvs: uvs, normals: normals, indices: indices }
}

/// Entry `k` of the index table names a vertex of face `k / 6`'s own block
/// of four, so in particular it lies in the vertex range.
pub proof fn lemma_cube_index_bounds()
    ensures
        forall|k: int| 0 <= k < 36 ==> 4 * (k / 6) <= #[trigger] cube_index(k) < 4 * (k / 6) + 4,
{
    assert forall|k: int| 0 <= k < 36 implies 4 * (k / 6) <= #[trigger] cube_index(k) < 4 * (k / 6)
        + 4 by {
        assert(0 <= face_local_index(k / 6, k % 6) < 4);
    }
}

/// Every entry of the cube mesh's index buffer names one of the 24
/// vertices.
pub proof fn lemma_index_validity(m: Mesh)
    requires
        is_cube_mesh(m),
    ensures
        forall|k: int| 0 <= k < 36 ==> m.indices@[k] < 24,
{
    lemma_cube_index_bounds();
    assert forall|k: int| 0 <= k < 36 implies m.indices@[k] < 24 by {
        assert(m.indices@[k] as int == cube_index(k));
        assert(4 * (k / 6) <= cube_index(k) < 4 * (k / 6) + 4);
    }
}

/// The slot in the index buffer that holds corner `a` (0, 1 or 2) of
/// triangle `t`.
pub open spec fn tri_slot(t: int, a: int) -> int {
    3 * t + a
}

/// The vertex at slot `c` (0..4) of face `f`'s block of four.
pub open spec fn face_vertex(f: int, c: int) -> int {
    4 * f + c
}

/// The vertex that corner `a` (0, 1 or 2) of triangle `t` references.
pub open spec fn tri_vertex(m: Mesh, t: int, a: int) -> int {
    m.indices@[3 * t + a] as int
}

/// The position of corner `a` of triangle `t`.
pub open spec fn tri_pos(m: Mesh, t: int, a: int) -> Vec3i {
    m.positions@[tri_vertex(m, t, a)]
}

/// The three corners of every triangle belong to the same face, so all
/// three carry the same normal: triangles `2g` and `2g + 1` reference only
/// vertices of face `g`.
pub proof fn lemma_triangle_face_coherence(m: Mesh)
    requires
        is_cube_mesh(m),
    ensures
        forall|t: int| 0 <= t < 12 ==> {
            &&& m.normals@[#[trigger] tri_vertex(m, t, 0)] == face_normal(t / 2)
            &&& m.normals@[tri_vertex(m, t, 1)] == face_normal(t / 2)
            &&& m.normals@[tri_vertex(m, t, 2)] == face_normal(t / 2)
        },
{
    lemma_cube_index_bounds();
    assert forall|t: int| 0 <= t < 12 implies {
        &&& m.normals@[#[trigger] tri_vertex(m, t, 0)] == face_normal(t / 2)
        &&& m.normals@[tri_vertex(m, t, 1)] == face_normal(t / 2)
        &&& m.normals@[tri_vertex(m, t, 2)] == face_normal(t / 2)
    } by {
        let k0: int = 3 * t;
        let k1: int = 3 * t + 1;
        let k2: int = 3 * t + 2;
        assert(m.indices@[k0] as int == cube_index(k0));
        assert(m.indices@[k1] as int == cube_index(k1));
        assert(m.indices@[k2] as int == cube_index(k2));
        assert(k0 / 6 == t / 2 && k1 / 6 == t / 2 && k2 / 6 == t / 2);
        assert(cube_index(k0) / 4 == t / 2);
        assert(cube_index(k1) / 4 == t / 2);
        assert(cube_index(k2) / 4 == t / 2);
        assert(m.normals@[cube_index(k0)] == cube_normal(cube_index(k0)));
        assert(m.normals@[cube_index(k1)] == cube_normal(cube_index(k1)));
        assert(m.normals@[cube_index(k2)] == cube_normal(cube_index(k2)));
    }
}

/// Each face's four vertices carry that face's own outward normal, and two
/// vertices carry the same normal exactly when they belong to the same
/// face: the six axis directions each appear on exactly one block of four
/// vertices.
pub proof fn lemma_normals_partition(m: Mesh)
    requires
        is_cube_mesh(m),
    ensures
        forall|i: int| 0 <= i < 24 ==> m.normals@[i] == face_normal(i / 4),
        forall|i: int, j: int|
            0 <= i < 24 && 0 <= j < 24 ==> ((m.normals@[i] == m.normals@[j]) <==> i / 4 == j
                / 4),
{
    assert forall|i: int| 0 <= i < 24 implies m.normals@[i] == face_normal(i / 4) by {
        assert(m.normals@[i] == cube_normal(i));
    }
    assert forall|i: int, j: int| 0 <= i < 24 && 0 <= j < 24 implies ((m.normals@[i]
        == m.normals@[j]) <==> i / 4 == j / 4) by {
        assert(m.normals@[i] == face_normal(i / 4));
        assert(m.normals@[j] == face_normal(j / 4));
        assert(0 <= i / 4 < 6 && 0 <= j / 4 < 6);
    }
}

/// Face `f` occupies the closed strip `[f, f + 1]` (in sixths of the atlas
/// width): its first two corners sit on the strip's left edge, the other
/// two on its right edge, with `v` equal to 1 on the bottom corners and 0
/// on the top corners. The six strips are contiguous and together cover
/// the whole atlas width.
pub proof fn lemma_uv_atlas(m: Mesh)
    requires
        is_cube_mesh(m),
    ensures
        forall|i: int| 0 <= i < 24 ==> (m.uvs@[i].v == 0 || m.uvs@[i].v == 1),
        forall|i: int| 0 <= i < 24 ==> i / 4 <= (#[trigger] m.uvs@[i]).u <= i / 4 + 1,
        forall|f: int|
            0 <= f < 6 ==> {
                &&& #[trigger] m.uvs@[face_vertex(f, 0)] == (Uv { u: f as u32, v: 1 })
                &&& m.uvs@[face_vertex(f, 1)] == (Uv { u: f as u32, v: 0 })
                &&& m.uvs@[face_vertex(f, 2)] == (Uv { u: (f + 1) as u32, v: 0 })
                &&& m.uvs@[face_vertex(f, 3)] == (Uv { u: (f + 1) as u32, v: 1 })
            },
{
    assert forall|i: int| 0 <= i < 24 implies (m.uvs@[i].v == 0 || m.uvs@[i].v == 1) && (i / 4
        <= (#[trigger] m.uvs@[i]).u <= i / 4 + 1) by {
        assert(m.uvs@[i] == cube_uv(i));
        assert(0 <= i / 4 < 6 && 0 <= i % 4 < 4);
    }
    assert forall|f: int| 0 <= f < 6 implies {
        &&& #[trigger] m.uvs@[face_vertex(f, 0)] == (Uv { u: f as u32, v: 1 })
        &&& m.uvs@[face_vertex(f, 1)] == (Uv { u: f as u32, v: 0 })
        &&& m.uvs@[face_vertex(f, 2)] == (Uv { u: (f + 1) as u32, v: 0 })
        &&& m.uvs@[face_vertex(f, 3)] == (Uv { u: (f + 1) as u32, v: 1 })
    } by {
        assert(m.uvs@[face_vertex(f, 0)] == cube_uv(4 * f));
        assert(m.uvs@[face_vertex(f, 1)] == cube_uv(4 * f + 1));
        assert(m.uvs@[face_vertex(f, 2)] == cube_uv(4 * f + 2));
        assert(m.uvs@[face_vertex(f, 3)] == cube_uv(4 * f + 3));
        assert((4 * f) / 4 == f && (4 * f + 1) / 4 == f && (4 * f + 2) / 4 == f && (4 * f + 3) / 4
            == f);
    }
}

/// The triple product `(p1 - p0) x (p2 - p0) . n`: positive exactly when
/// the triangle `p0 p1 p2` winds counter-clockwise as seen from the side
/// its normal `n` points to.
pub open spec fn orientation(p0: Vec3i, p1: Vec3i, p2: Vec3i, n: Vec3i) -> int {
    ((p1.y - p0.y) * (p2.z - p0.z) - (p1.z - p0.z) * (p2.y - p0.y)) * n.x
        + ((p1.z - p0.z) * (p2.x - p0.x) - (p1.x - p0.x) * (p2.z - p0.z)) * n.y
        + ((p1.x - p0.x) * (p2.y - p0.y) - (p1.y - p0.y) * (p2.x - p0.x)) * n.z
}

/// The triple product handed over value by value: a hand-hold for the
/// solver when it evaluates `orientation` on concrete corners.
proof fn lemma_orientation_value(
    p0: Vec3i,
    p1: Vec3i,
    p2: Vec3i,
    n: Vec3i,
    ex: int,
    ey: int,
    ez: int,
    fx: int,
    fy: int,
    fz: int,
    gx: int,
    gy: int,
    gz: int,
)
    requires
        ex == p1.x - p0.x,
        ey == p1.y - p0.y,
        ez == p1.z - p0.z,
        fx == p2.x - p0.x,
        fy == p2.y - p0.y,
        fz == p2.z - p0.z,
        gx == ey * fz - ez * fy,
        gy == ez * fx - ex * fz,
        gz == ex * fy - ey * fx,
        gx * n.x + gy * n.y + gz * n.z > 0,
    ensures
        orientation(p0, p1, p2, n) > 0,
{
    assert(orientation(p0, p1, p2, n) == gx * n.x + gy * n.y + gz * n.z);
}

/// Every triangle of the cube's index table winds counter-clockwise around
/// the outward normal of its face.
#[verifier::rlimit(60)]
proof fn lemma_cube_winding()
    ensures
        forall|t: int|
            0 <= t < 12 ==> orientation(
                cube_position(cube_index(#[trigger] tri_slot(t, 0))),
                cube_position(cube_index(tri_slot(t, 1))),
                cube_position(cube_index(tri_slot(t, 2))),
                cube_normal(cube_index(tri_slot(t, 0))),
            ) > 0,
{
    assert forall|t: int| 0 <= t < 12 implies orientation(
        cube_position(cube_index(#[trigger] tri_slot(t, 0))),
        cube_position(cube_index(tri_slot(t, 1))),
        cube_position(cube_index(tri_slot(t, 2))),
        cube_normal(cube_index(tri_slot(t, 0))),
    ) > 0 by {
        if t == 0 {
            assert(cube_index(0) == 0 && cube_index(1) == 3 && cube_index(2) == 1);
            assert(cube_position(0) == v3(-1i32, 1i32, -1i32));
            assert(cube_position(3) == v3(-1i32, 1i32, 1i32));
            assert(cube_position(1) == v3(1i32, 1i32, -1i32));
            assert(cube_normal(0) == v3(0i32, 1i32, 0i32));
            lemma_orientation_value(v3(-1i32, 1i32, -1i32), v3(-1i32, 1i32, 1i32), v3(1i32, 1i32, -1i32), v3(0i32, 1i32, 0i32), 0, 0, 2, 2, 0, 0, 0, 4, 0);
        } else if t == 1 {
            assert(cube_index(3) == 1 && cube_index(4) == 3 && cube_index(5) == 2);
            assert(cube_position(1) == v3(1i32, 1i32, -1i32));
            assert(cube_position(3) == v3(-1i32, 1i32, 1i32));
            assert(cube_position(2) == v3(1i32, 1i32, 1i32));
            assert(cube_normal(1) == v3(0i32, 1i32, 0i32));
            lemma_orientation_value(v3(1i32, 1i32, -1i32), v3(-1i32, 1i32, 1i32), v3(1i32, 1i32, 1i32), v3(0i32, 1i32, 0i32), -2, 0, 2, 0, 0, 2, 0, 4, 0);
        } else if t == 2 {
            assert(cube_index(6) == 4 && cube_index(7) == 5 && cube_index(8) == 7);
            assert(cube_position(4) == v3(-1i32, -1i32, -1i32));
            assert(cube_position(5) == v3(1i32, -1i32, -1i32));
            assert(cube_position(7) == v3(-1i32, -1i32, 1i32));
            assert(cube_normal(4) == v3(0i32, -1i32, 0i32));
            lemma_orientation_value(v3(-1i32, -1i32, -1i32), v3(1i32, -1i32, -1i32), v3(-1i32, -1i32, 1i32), v3(0i32, -1i32, 0i32), 2, 0, 0, 0, 0, 2, 0, -4, 0);
        } else if t == 3 {
            assert(cube_index(9) == 5 && cube_index(10) == 6 && cube_index(11) == 7);
            assert(cube_position(5) == v3(1i32, -1i32, -1i32));
            assert(cube_position(6) == v3(1i32, -1i32, 1i32));
            assert(cube_position(7) == v3(-1i32, -1i32, 1i32));
            assert(cube_normal(5) == v3(0i32, -1i32, 0i32));
            lemma_orientation_value(v3(1i32, -1i32, -1i32), v3(1i32, -1i32, 1i32), v3(-1i32, -1i32, 1i32), v3(0i32, -1i32, 0i32), 0, 0, 2, -2, 0, 2, 0, -4, 0);
        } else if t == 4 {
            assert(cube_index(12) == 8 && cube_index(13) == 11 && cube_index(14) == 9);
            assert(cube_position(8) == v3(1i32, -1i32, -1i32));
            assert(cube_position(11) == v3(1i32, 1i32, -1i32));
            assert(cube_position(9) == v3(1i32, -1i32, 1i32));
            assert(cube_normal(8) == v3(1i32, 0i32, 0i32));
            lemma_orientation_value(v3(1i32, -1i32, -1i32), v3(1i32, 1i32, -1i32), v3(1i32, -1i32, 1i32), v3(1i32, 0i32, 0i32), 0, 2, 0, 0, 0, 2, 4, 0, 0);
        } else if t == 5 {
            assert(cube_index(15) == 9 && cube_index(16) == 11 && cube_index(17) == 10);
            assert(cube_position(9) == v3(1i32, -1i32, 1i32));
            assert(cube_position(11) == v3(1i32, 1i32, -1i32));
            assert(cube_position(10) == v3(1i32, 1i32, 1i32));
            assert(cube_normal(9) == v3(1i32, 0i32, 0i32));
            lemma_orientation_value(v3(1i32, -1i32, 1i32), v3(1i32, 1i32, -1i32), v3(1i32, 1i32, 1i32), v3(1i32, 0i32, 0i32), 0, 2, -2, 0, 2, 0, 4, 0, 0);
        } else if t == 6 {
            assert(cube_index(18) == 12 && cube_index(19) == 13 && cube_index(20) == 15);
            assert(cube_position(12) == v3(-1i32, -1i32, -1i32));
            assert(cube_position(13) == v3(-1i32, -1i32, 1i32));
            assert(cube_position(15) == v3(-1i32, 1i32, -1i32));
            assert(cube_normal(12) == v3(-1i32, 0i32, 0i32));
            lemma_orientation_value(v3(-1i32, -1i32, -1i32), v3(-1i32, -1i32, 1i32), v3(-1i32, 1i32, -1i32), v3(-1i32, 0i32, 0i32), 0, 0, 2, 0, 2, 0, -4, 0, 0);
        } else if t == 7 {
            assert(cube_index(21) == 13 && cube_index(22) == 14 && cube_index(23) == 15);
            assert(cube_position(13) == v3(-1i32, -1i32, 1i32));
            assert(cube_position(14) == v3(-1i32, 1i32, 1i32));
            assert(cube_position(15) == v3(-1i32, 1i32, -1i32));
            assert(cube_normal(13) == v3(-1i32, 0i32, 0i32));
            lemma_orientation_value(v3(-1i32, -1i32, 1i32), v3(-1i32, 1i32, 1i32), v3(-1i32, 1i32, -1i32), v3(-1i32, 0i32, 0i32), 0, 2, 0, 0, 2, -2, -4, 0, 0);
        } else if t == 8 {
            assert(cube_index(24) == 16 && cube_index(25) == 19 && cube_index(26) == 17);
            assert(cube_position(16) == v3(-1i32, -1i32, 1i32));
            assert(cube_position(19) == v3(1i32, -1i32, 1i32));
            assert(cube_position(17) == v3(-1i32, 1i32, 1i32));
            assert(cube_normal(16) == v3(0i32, 0i32, 1i32));
            lemma_orientation_value(v3(-1i32, -1i32, 1i32), v3(1i32, -1i32, 1i32), v3(-1i32, 1i32, 1i32), v3(0i32, 0i32, 1i32), 2, 0, 0, 0, 2, 0, 0, 0, 4);
        } else if t == 9 {
            assert(cube_index(27) == 17 && cube_index(28) == 19 && cube_index(29) == 18);
            assert(cube_position(17) == v3(-1i32, 1i32, 1i32));
            assert(cube_position(19) == v3(1i32, -1i32, 1i32));
            assert(cube_position(18) == v3(1i32, 1i32, 1i32));
            assert(cube_normal(17) == v3(0i32, 0i32, 1i32));
            lemma_orientation_value(v3(-1i32, 1i32, 1i32), v3(1i32, -1i32, 1i32), v3(1i32, 1i32, 1i32), v3(0i32, 0i32, 1i32), 2, -2, 0, 2, 0, 0, 0, 0, 4);
        } else if t == 10 {
            assert(cube_index(30) == 20 && cube_index(31) == 21 && cube_index(32) == 23);
            assert(cube_position(20) == v3(-1i32, -1i32, -1i32));
            assert(cube_position(21) == v3(-1i32, 1i32, -1i32));
            assert(cube_position(23) == v3(1i32, -1i32, -1i32));
            assert(cube_normal(20) == v3(0i32, 0i32, -1i32));
            lemma_orientation_value(v3(-1i32, -1i32, -1i32), v3(-1i32, 1i32, -1i32), v3(1i32, -1i32, -1i32), v3(0i32, 0i32, -1i32), 0, 2, 0, 2, 0, 0, 0, 0, -4);
        } else {
            assert(cube_index(33) == 21 && cube_index(34) == 22 && cube_index(35) == 23);
            assert(cube_position(21) == v3(-1i32, 1i32, -1i32));
            assert(cube_position(22) == v3(1i32, 1i32, -1i32));
            assert(cube_position(23) == v3(1i32, -1i32, -1i32));
            assert(cube_normal(21) == v3(0i32, 0i32, -1i32));
            lemma_orientation_value(v3(-1i32, 1i32, -1i32), v3(1i32, 1i32, -1i32), v3(1i32, -1i32, -1i32), v3(0i32, 0i32, -1i32), 2, 0, 0, 2, -2, 0, 0, 0, -4);
        }
    }
}

/// Every triangle of the cube mesh winds counter-clockwise as seen from
/// outside the cube: the cross product of its two edge vectors points the
/// same way as the normal stored on its corners.
pub proof fn lemma_winding_outward(m: Mesh)
    requires
        is_cube_mesh(m),
    ensures
        forall|t: int|
            0 <= t < 12 ==> orientation(
                #[trigger] tri_pos(m, t, 0),
                tri_pos(m, t, 1),
                tri_pos(m, t, 2),
                m.normals@[tri_vertex(m, t, 0)],
            ) > 0,
{
    lemma_cube_winding();
    lemma_cube_index_bounds();
    assert forall|t: int| 0 <= t < 12 implies orientation(
        #[trigger] tri_pos(m, t, 0),
        tri_pos(m, t, 1),
        tri_pos(m, t, 2),
        m.normals@[tri_vertex(m, t, 0)],
    ) > 0 by {
        let k0: int = tri_slot(t, 0);
        let k1: int = tri_slot(t, 1);
        let k2: int = tri_slot(t, 2);
        assert(m.indices@[k0] as int == cube_index(k0));
        assert(m.indices@[k1] as int == cube_index(k1));
        assert(m.indices@[k2] as int == cube_index(k2));
        assert(m.positions@[cube_index(k0)] == cube_position(cube_index(k0)));
        assert(m.positions@[cube_index(k1)] == cube_position(cube_index(k1)));
        assert(m.positions@[cube_index(k2)] == cube_position(cube_index(k2)));
        assert(m.normals@[cube_index(k0)] == cube_normal(cube_index(k0)));
        assert(orientation(
            cube_position(cube_index(tri_slot(t, 0))),
            cube_position(cube_index(tri_slot(t, 1))),
            cube_position(cube_index(tri_slot(t, 2))),
            cube_normal(cube_index(tri_slot(t, 0))),
        ) > 0);
    }
}

/// Any two meshes that satisfy `is_cube_mesh` agree buffer by buffer: the
/// builder returns the same value on every call.
pub proof fn lemma_deterministic(m1: Mesh, m2: Mesh)
    requires
        is_cube_mesh(m1),
        is_cube_mesh(m2),
    ensures
        m1.positions@ == m2.positions@,
        m1.uvs@ == m2.uvs@,
        m1.normals@ == m2.normals@,
        m1.indices@ == m2.indices@,
{
    assert forall|i: int| 0 <= i < 24 implies m1.positions@[i] == m2.positions@[i] by {
        assert(m1.positions@[i] == cube_position(i));
        assert(m2.positions@[i] == cube_position(i));
    }
    assert(m1.positions@ =~= m2.positions@);
    assert forall|i: int| 0 <= i < 24 implies m1.uvs@[i] == m2.uvs@[i] by {
        assert(m1.uvs@[i] == cube_uv(i));
        assert(m2.uvs@[i] == cube_uv(i));
    }
    assert(m1.uvs@ =~= m2.uvs@);
    assert forall|i: int| 0 <= i < 24 implies m1.normals@[i] == m2.normals@[i] by {
        assert(m1.normals@[i] == cube_normal(i));
        assert(m2.normals@[i] == cube_normal(i));
    }
    assert(m1.normals@ =~= m2.normals@);
    assert forall|k: int| 0 <= k < 36 implies m1.indices@[k] == m2.indices@[k] by {
        assert(m1.indices@[k] as int == cube_index(k));
        assert(m2.indices@[k] as int == cube_index(k));
    }
    assert(m1.indices@ =~= m2.indices@);
}

} // verus!

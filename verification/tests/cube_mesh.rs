use cube_text_example::cube_mesh::build_cube_mesh;
use cube_text_example::cube_mesh::Vec3i;

fn v(x: i32, y: i32, z: i32) -> Vec3i {
    Vec3i { x, y, z }
}

#[test]
fn cardinality() {
    let m = build_cube_mesh();
    assert_eq!(m.positions.len(), 24);
    assert_eq!(m.uvs.len(), 24);
    assert_eq!(m.normals.len(), 24);
    assert_eq!(m.indices.len(), 36);
}

#[test]
fn top_face_end_to_end() {
    let m = build_cube_mesh();
    // The top face owns the first four vertices; in world units (one half
    // of a half-unit coordinate) they are the corners of the y = 0.5 face.
    let expected_world: [[f32; 3]; 4] = [
        [-0.5, 0.5, -0.5],
        [0.5, 0.5, -0.5],
        [0.5, 0.5, 0.5],
        [-0.5, 0.5, 0.5],
    ];
    for (i, e) in expected_world.iter().enumerate() {
        let p = m.positions[i];
        assert_eq!([p.x as f32 * 0.5, p.y as f32 * 0.5, p.z as f32 * 0.5], *e);
        assert_eq!(m.normals[i], v(0, 1, 0));
    }
    // Its two triangles, as index triples.
    assert_eq!(&m.indices[0..3], &[0, 3, 1]);
    assert_eq!(&m.indices[3..6], &[1, 3, 2]);
}

#[test]
fn full_index_table() {
    let m = build_cube_mesh();
    let expected: [u32; 36] = [
        0, 3, 1, 1, 3, 2, // top (+y)
        4, 5, 7, 5, 6, 7, // bottom (-y)
        8, 11, 9, 9, 11, 10, // right (+x)
        12, 13, 15, 13, 14, 15, // left (-x)
        16, 19, 17, 17, 19, 18, // back (+z)
        20, 21, 23, 21, 22, 23, // forward (-z)
    ];
    assert_eq!(m.indices, expected.to_vec());
}

#[test]
fn full_position_table() {
    let m = build_cube_mesh();
    let expected = vec![
        // top
        v(-1, 1, -1),
        v(1, 1, -1),
        v(1, 1, 1),
        v(-1, 1, 1),
        // bottom
        v(-1, -1, -1),
        v(1, -1, -1),
        v(1, -1, 1),
        v(-1, -1, 1),
        // right
        v(1, -1, -1),
        v(1, -1, 1),
        v(1, 1, 1),
        v(1, 1, -1),
        // left
        v(-1, -1, -1),
        v(-1, -1, 1),
        v(-1, 1, 1),
        v(-1, 1, -1),
        // back
        v(-1, -1, 1),
        v(-1, 1, 1),
        v(1, 1, 1),
        v(1, -1, 1),
        // forward
        v(-1, -1, -1),
        v(-1, 1, -1),
        v(1, 1, -1),
        v(1, -1, -1),
    ];
    assert_eq!(m.positions, expected);
}

#[test]
fn index_validity() {
    let m = build_cube_mesh();
    for &ix in &m.indices {
        assert!(ix < 24);
    }
}

#[test]
fn triangle_face_coherence() {
    let m = build_cube_mesh();
    for t in 0..12 {
        let n0 = m.normals[m.indices[3 * t] as usize];
        let n1 = m.normals[m.indices[3 * t + 1] as usize];
        let n2 = m.normals[m.indices[3 * t + 2] as usize];
        assert_eq!(n0, n1);
        assert_eq!(n1, n2);
    }
}

#[test]
fn winding_counter_clockwise() {
    let m = build_cube_mesh();
    for t in 0..12 {
        let p0 = m.positions[m.indices[3 * t] as usize];
        let p1 = m.positions[m.indices[3 * t + 1] as usize];
        let p2 = m.positions[m.indices[3 * t + 2] as usize];
        let n = m.normals[m.indices[3 * t] as usize];
        let (ex, ey, ez) = (p1.x - p0.x, p1.y - p0.y, p1.z - p0.z);
        let (fx, fy, fz) = (p2.x - p0.x, p2.y - p0.y, p2.z - p0.z);
        let cross = (ey * fz - ez * fy, ez * fx - ex * fz, ex * fy - ey * fx);
        let dot = cross.0 * n.x + cross.1 * n.y + cross.2 * n.z;
        assert!(dot > 0, "triangle {} winds the wrong way", t);
    }
}

#[test]
fn normals_partition() {
    let m = build_cube_mesh();
    let axis_dirs = [
        v(1, 0, 0),
        v(-1, 0, 0),
        v(0, 1, 0),
        v(0, -1, 0),
        v(0, 0, 1),
        v(0, 0, -1),
    ];
    for dir in axis_dirs.iter() {
        let count = m.normals.iter().filter(|n| *n == dir).count();
        assert_eq!(count, 4, "normal {:?} should sit on exactly 4 vertices", dir);
    }
    // No normal outside the six axis directions (6 * 4 accounts for all 24).
    for n in &m.normals {
        assert!(axis_dirs.contains(n));
    }
}

#[test]
fn uv_partition() {
    let m = build_cube_mesh();
    for f in 0..6u32 {
        for c in 0..4usize {
            let uv = m.uvs[4 * f as usize + c];
            assert!(uv.v == 0 || uv.v == 1);
            // Face f uses exactly the strip [f, f + 1] in sixths: left
            // corners on the left edge, right corners on the right edge.
            if c == 2 || c == 3 {
                assert_eq!(uv.u, f + 1);
            } else {
                assert_eq!(uv.u, f);
            }
        }
    }
    // In texture space the six strips tile [0, 1] contiguously, each about
    // one sixth wide (the width matches a truncated decimal step within a
    // small tolerance).
    for f in 0..6u32 {
        let left = f as f32 / 6.0;
        let right = (f + 1) as f32 / 6.0;
        assert!((right - left - 1.0 / 6.0).abs() < 1e-6);
        assert!((left - 0.16666f32 * f as f32).abs() < 0.01);
    }
    assert_eq!(m.uvs[0].u as f32 / 6.0, 0.0);
    assert_eq!(m.uvs[23].u as f32 / 6.0, 1.0);
}

#[test]
fn deterministic() {
    let a = build_cube_mesh();
    let b = build_cube_mesh();
    assert_eq!(a.positions, b.positions);
    assert_eq!(a.uvs, b.uvs);
    assert_eq!(a.normals, b.normals);
    assert_eq!(a.indices, b.indices);
}

#[test]
fn closed_manifold() {
    let m = build_cube_mesh();
    // Collect the 36 directed edges as ordered pairs of corner positions.
    let mut edges: Vec<(usize, Vec3i, Vec3i)> = Vec::new();
    for t in 0..12 {
        for a in 0..3 {
            let p = m.positions[m.indices[3 * t + a] as usize];
            let q = m.positions[m.indices[3 * t + (a + 1) % 3] as usize];
            edges.push((t, p, q));
        }
    }
    for (i, &(t, p, q)) in edges.iter().enumerate() {
        // Each directed edge occurs exactly once ...
        let same = edges.iter().filter(|&&(_, p2, q2)| p2 == p && q2 == q).count();
        assert_eq!(same, 1, "directed edge {} repeats", i);
        // ... and its reverse occurs exactly once, in a different triangle:
        // every undirected edge borders exactly two triangles with opposite
        // winding.
        let reversed: Vec<&(usize, Vec3i, Vec3i)> =
            edges.iter().filter(|&&(_, p2, q2)| p2 == q && q2 == p).collect();
        assert_eq!(reversed.len(), 1, "directed edge {} lacks a unique mate", i);
        assert_ne!(reversed[0].0, t, "edge {} mates within its own triangle", i);
    }
}

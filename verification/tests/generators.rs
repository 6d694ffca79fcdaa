//! Generator behaviour: counts, pole positions, radii and exact attribute
//! values.

use meshgen::mesh::Mesh;
use meshgen::vertex::Vec3;

fn check_wf(m: &Mesh) {
    assert_eq!(m.indices.len() % 3, 0);
    for &ix in m.indices.iter() {
        assert!((ix as usize) < m.vertices.len());
    }
}

fn magnitude(v: &Vec3) -> f32 {
    let x = f32::from_bits(v.x);
    let y = f32::from_bits(v.y);
    let z = f32::from_bits(v.z);
    libm::sqrtf(x * x + y * y + z * z)
}

#[test]
fn brick_counts_undivided() {
    let m = Mesh::brick(2.0f32.to_bits(), 2.0f32.to_bits(), 2.0f32.to_bits(), 0);
    assert_eq!(m.vertices.len(), 24);
    assert_eq!(m.indices.len(), 36);
    check_wf(&m);
}

#[test]
fn brick_counts_once_subdivided() {
    let m = Mesh::brick(2.0f32.to_bits(), 2.0f32.to_bits(), 2.0f32.to_bits(), 1);
    assert_eq!(m.vertices.len(), 60);
    assert_eq!(m.indices.len(), 144);
    check_wf(&m);
}

#[test]
fn brick_corner_attributes() {
    let m = Mesh::brick(2.0f32.to_bits(), 4.0f32.to_bits(), 6.0f32.to_bits(), 0);
    // First corner of the front face: (-w/2, -h/2, -d/2), normal
    // (0, 0, -1), tangent (1, 0, 0), texture coordinate (0, 1).
    let v = &m.vertices[0];
    assert_eq!(f32::from_bits(v.position.x), -1.0);
    assert_eq!(f32::from_bits(v.position.y), -2.0);
    assert_eq!(f32::from_bits(v.position.z), -3.0);
    assert_eq!(f32::from_bits(v.normal.x), 0.0);
    assert_eq!(f32::from_bits(v.normal.y), 0.0);
    assert_eq!(f32::from_bits(v.normal.z), -1.0);
    assert_eq!(f32::from_bits(v.tangent.x), 1.0);
    assert_eq!(f32::from_bits(v.tex_coord.x), 0.0);
    assert_eq!(f32::from_bits(v.tex_coord.y), 1.0);
    // The first two triangles cover the front face's quad.
    assert_eq!(&m.indices[0..6], &[0, 1, 2, 0, 2, 3]);
}

#[test]
fn sphere_counts() {
    let m = Mesh::sphere(1.0f32.to_bits(), 8, 4);
    // Every ring duplicates its seam vertex, so a ring holds slices + 1
    // vertices: (stacks - 1) * (slices + 1) + 2 in all.
    assert_eq!(m.vertices.len(), 3 * 9 + 2);
    // slices triangles per cap and 2 * slices per interior ring pair:
    // 3 * (2 * slices * (stacks - 1)) indices.
    assert_eq!(m.indices.len(), 144);
    check_wf(&m);
}

#[test]
fn sphere_poles_exact() {
    let m = Mesh::sphere(3.0f32.to_bits(), 8, 4);
    let top = &m.vertices[0];
    let bottom = &m.vertices[m.vertices.len() - 1];
    assert_eq!(f32::from_bits(top.position.x), 0.0);
    assert_eq!(f32::from_bits(top.position.y), 3.0);
    assert_eq!(f32::from_bits(top.position.z), 0.0);
    assert_eq!(f32::from_bits(bottom.position.x), 0.0);
    assert_eq!(f32::from_bits(bottom.position.y), -3.0);
    assert_eq!(f32::from_bits(bottom.position.z), 0.0);
    assert_eq!(f32::from_bits(top.normal.y), 1.0);
    assert_eq!(f32::from_bits(bottom.normal.y), -1.0);
    assert_eq!(f32::from_bits(top.tex_coord.y), 0.0);
    assert_eq!(f32::from_bits(bottom.tex_coord.y), 1.0);
}

#[test]
fn sphere_ring_vertex_exact() {
    let radius = 2.0f32;
    let slices = 8u32;
    let stacks = 4u32;
    let m = Mesh::sphere(radius.to_bits(), slices, stacks);
    // Mirror the generator's arithmetic for ring 1, seam position 2 and
    // compare bit for bit.
    let i = 1u32;
    let j = 2u32;
    let phi = i as f32 * (std::f32::consts::PI / stacks as f32);
    let theta = j as f32 * (std::f32::consts::TAU / slices as f32);
    let sp = libm::sinf(phi);
    let cp = libm::cosf(phi);
    let st = libm::sinf(theta);
    let ct = libm::cosf(theta);
    let rsp = radius * sp;
    let px = rsp * ct;
    let py = radius * cp;
    let pz = rsp * st;
    let inv = 1.0 / libm::sqrtf(px * px + py * py + pz * pz);
    let tx = (-radius * sp) * st;
    let tz = rsp * ct;
    let tinv = 1.0 / libm::sqrtf(tx * tx + 0.0 * 0.0 + tz * tz);
    let v = &m.vertices[(1 + (i - 1) * (slices + 1) + j) as usize];
    assert_eq!(v.position.x, px.to_bits());
    assert_eq!(v.position.y, py.to_bits());
    assert_eq!(v.position.z, pz.to_bits());
    assert_eq!(v.normal.x, (px * inv).to_bits());
    assert_eq!(v.normal.y, (py * inv).to_bits());
    assert_eq!(v.normal.z, (pz * inv).to_bits());
    assert_eq!(v.tangent.x, (tx * tinv).to_bits());
    assert_eq!(v.tangent.z, (tz * tinv).to_bits());
    assert_eq!(v.tex_coord.x, (theta / std::f32::consts::TAU).to_bits());
    assert_eq!(v.tex_coord.y, (phi / std::f32::consts::PI).to_bits());
}

#[test]
fn sphere_index_regions() {
    let m = Mesh::sphere(1.0f32.to_bits(), 8, 4);
    // Top cap: 8 triangles fanning from the north pole into the first
    // ring.
    assert_eq!(&m.indices[0..6], &[0, 2, 1, 0, 3, 2]);
    assert_eq!(&m.indices[21..24], &[0, 9, 8]);
    // Body: the first quad between ring 1 (starting at vertex 1) and
    // ring 2 (starting at vertex 10).
    assert_eq!(&m.indices[24..30], &[1, 2, 10, 10, 2, 11]);
    // Bottom cap: 8 triangles fanning from the south pole (vertex 28)
    // into the last ring (vertices 19 to 27).
    assert_eq!(&m.indices[120..123], &[28, 19, 20]);
    assert_eq!(&m.indices[141..144], &[28, 26, 27]);
}

#[test]
fn brick_face_indices() {
    let m = Mesh::brick(1.0f32.to_bits(), 1.0f32.to_bits(), 1.0f32.to_bits(), 0);
    let expected: Vec<u32> = (0..6u32)
        .flat_map(|f| vec![4 * f, 4 * f + 1, 4 * f + 2, 4 * f, 4 * f + 2, 4 * f + 3])
        .collect();
    assert_eq!(m.indices, expected);
}

#[test]
fn sphere_vertices_on_radius() {
    let m = Mesh::sphere(2.0f32.to_bits(), 8, 4);
    for v in m.vertices.iter() {
        assert!((magnitude(&v.position) - 2.0).abs() < 1e-5);
    }
}

#[test]
fn geo_sphere_base_counts_and_radius() {
    let m = Mesh::geo_sphere(1.0f32.to_bits(), 0);
    assert_eq!(m.vertices.len(), 12);
    assert_eq!(m.indices.len(), 60);
    check_wf(&m);
    for v in m.vertices.iter() {
        assert!((magnitude(&v.position) - 1.0).abs() < 1e-5);
        // The normal is the unit position.
        assert!((magnitude(&v.normal) - 1.0).abs() < 1e-5);
    }
}

#[test]
fn geo_sphere_radius_after_subdivision() {
    // Re-projection puts every vertex back on the sphere surface, at any
    // subdivision count.
    for n in 0..4u32 {
        let m = Mesh::geo_sphere(2.5f32.to_bits(), n);
        assert_eq!(m.indices.len(), 60 * 4usize.pow(n));
        assert_eq!(m.vertices.len(), 12 + 20 * (4usize.pow(n) - 1));
        check_wf(&m);
        for v in m.vertices.iter() {
            assert!((magnitude(&v.position) - 2.5).abs() < 1e-4);
        }
    }
}

#[test]
fn geo_sphere_projected_vertex_exact() {
    let m = Mesh::geo_sphere(1.0f32.to_bits(), 0);
    // Mirror the post-process for the second icosahedron vertex
    // (X, 0, Z) and compare bit for bit.
    let x = 0.525731f32;
    let z = 0.850651f32;
    let y = 0.0f32;
    let inv = 1.0 / libm::sqrtf(x * x + y * y + z * z);
    let (nx, ny, nz) = (x * inv, y * inv, z * inv);
    let (px, py, pz) = (nx * 1.0, ny * 1.0, nz * 1.0);
    let mut theta = libm::atan2f(pz, px);
    if theta < 0.0 {
        theta += std::f32::consts::TAU;
    }
    let phi = libm::acosf(py / 1.0);
    let v = &m.vertices[1];
    assert_eq!(v.position.x, px.to_bits());
    assert_eq!(v.position.y, py.to_bits());
    assert_eq!(v.position.z, pz.to_bits());
    assert_eq!(v.normal.x, nx.to_bits());
    assert_eq!(v.tex_coord.x, (theta / std::f32::consts::TAU).to_bits());
    assert_eq!(v.tex_coord.y, (phi / std::f32::consts::PI).to_bits());
    let sphi = libm::sinf(phi);
    assert_eq!(v.tangent.x, ((-1.0 * sphi) * libm::sinf(theta)).to_bits());
    assert_eq!(v.tangent.y, 0.0f32.to_bits());
    assert_eq!(v.tangent.z, ((1.0 * sphi) * libm::cosf(theta)).to_bits());
}

#[test]
fn geo_sphere_texture_coordinates_in_range() {
    let m = Mesh::geo_sphere(1.0f32.to_bits(), 1);
    for v in m.vertices.iter() {
        let u = f32::from_bits(v.tex_coord.x);
        let w = f32::from_bits(v.tex_coord.y);
        assert!((0.0..=1.0).contains(&u));
        assert!((0.0..=1.0).contains(&w));
    }
}

#[test]
fn geo_sphere_icosahedron_faces() {
    let m = Mesh::geo_sphere(1.0f32.to_bits(), 0);
    assert_eq!(
        m.indices,
        vec![
            1, 4, 0, 4, 9, 0, 4, 5, 9, 8, 5, 4, 1, 8, 4, 1, 10, 8, 10, 3, 8, 8, 3, 5, 3, 2, 5,
            3, 7, 2, 3, 10, 7, 10, 6, 7, 6, 11, 7, 6, 0, 11, 6, 1, 0, 10, 1, 6, 11, 0, 9, 2, 11,
            9, 5, 2, 9, 11, 2, 7,
        ],
    );
}

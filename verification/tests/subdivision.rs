//! Subdivision behaviour: counts, layout and midpoint interpolation.

use meshgen::mesh::Mesh;
use meshgen::vertex::Vertex;

fn simple_vertex(px: f32, py: f32, pz: f32) -> Vertex {
    Vertex::new(
        px.to_bits(),
        py.to_bits(),
        pz.to_bits(),
        0,
        0,
        0,
        0,
        0,
        0,
        0,
        0,
    )
}

fn check_wf(m: &Mesh) {
    assert_eq!(m.indices.len() % 3, 0);
    for &ix in m.indices.iter() {
        assert!((ix as usize) < m.vertices.len());
    }
}

#[test]
fn subdivide_one_triangle_layout() {
    let mut m = Mesh {
        vertices: vec![
            simple_vertex(0.0, 0.0, 0.0),
            simple_vertex(2.0, 0.0, 0.0),
            simple_vertex(0.0, 2.0, 0.0),
        ],
        indices: vec![0, 1, 2],
    };
    m.subdivide();
    assert_eq!(m.vertices.len(), 6);
    assert_eq!(
        m.indices,
        vec![0, 3, 5, 3, 1, 4, 3, 4, 5, 5, 4, 2],
    );
    // The three appended vertices are the edge midpoints, in edge order
    // (v0, v1), (v1, v2), (v0, v2).
    assert_eq!(m.vertices[3], m.vertices[0].midpoint(&m.vertices[1]));
    assert_eq!(m.vertices[4], m.vertices[1].midpoint(&m.vertices[2]));
    assert_eq!(m.vertices[5], m.vertices[0].midpoint(&m.vertices[2]));
    assert_eq!(f32::from_bits(m.vertices[3].position.x), 1.0);
    assert_eq!(f32::from_bits(m.vertices[4].position.x), 1.0);
    assert_eq!(f32::from_bits(m.vertices[4].position.y), 1.0);
    check_wf(&m);
}

#[test]
fn subdivide_counts_grow_by_four_and_three() {
    // A mesh with T triangles and V vertices becomes one with 4 T
    // triangles and V + 3 T vertices.
    let mut m = Mesh::brick(2.0f32.to_bits(), 2.0f32.to_bits(), 2.0f32.to_bits(), 0);
    let v0 = m.vertices.len();
    let t0 = m.indices.len() / 3;
    m.subdivide();
    assert_eq!(m.indices.len() / 3, 4 * t0);
    assert_eq!(m.vertices.len(), v0 + 3 * t0);
    check_wf(&m);
    let v1 = m.vertices.len();
    let t1 = m.indices.len() / 3;
    m.subdivide();
    assert_eq!(m.indices.len() / 3, 4 * t1);
    assert_eq!(m.vertices.len(), v1 + 3 * t1);
    check_wf(&m);
}

#[test]
fn midpoint_is_componentwise_average() {
    let a = Vertex::new(
        1.0f32.to_bits(),
        2.0f32.to_bits(),
        (-3.0f32).to_bits(),
        0.5f32.to_bits(),
        0.25f32.to_bits(),
        1.5f32.to_bits(),
        0.75f32.to_bits(),
        (-0.5f32).to_bits(),
        4.0f32.to_bits(),
        0.125f32.to_bits(),
        0.875f32.to_bits(),
    );
    let b = Vertex::new(
        2.0f32.to_bits(),
        (-1.0f32).to_bits(),
        5.0f32.to_bits(),
        1.5f32.to_bits(),
        0.75f32.to_bits(),
        (-2.5f32).to_bits(),
        0.25f32.to_bits(),
        1.0f32.to_bits(),
        (-6.0f32).to_bits(),
        0.375f32.to_bits(),
        0.625f32.to_bits(),
    );
    let m = a.midpoint(&b);
    assert_eq!(f32::from_bits(m.position.x), (1.0 + 2.0) / 2.0);
    assert_eq!(f32::from_bits(m.position.y), (2.0 + -1.0) / 2.0);
    assert_eq!(f32::from_bits(m.position.z), (-3.0 + 5.0) / 2.0);
    assert_eq!(f32::from_bits(m.normal.x), (0.5 + 1.5) / 2.0);
    assert_eq!(f32::from_bits(m.normal.y), (0.25 + 0.75) / 2.0);
    assert_eq!(f32::from_bits(m.normal.z), (1.5 + -2.5) / 2.0);
    assert_eq!(f32::from_bits(m.tangent.x), (0.75 + 0.25) / 2.0);
    assert_eq!(f32::from_bits(m.tangent.y), (-0.5 + 1.0) / 2.0);
    assert_eq!(f32::from_bits(m.tangent.z), (4.0 + -6.0) / 2.0);
    assert_eq!(f32::from_bits(m.tex_coord.x), (0.125 + 0.375) / 2.0);
    assert_eq!(f32::from_bits(m.tex_coord.y), (0.875 + 0.625) / 2.0);
}

#[test]
fn midpoint_commutes() {
    let a = simple_vertex(0.1, 7.25, -42.5);
    let b = simple_vertex(-0.3, 1e-20, 3.75e7);
    assert_eq!(a.midpoint(&b), b.midpoint(&a));
    let c = simple_vertex(f32::MAX, -0.0, f32::MIN_POSITIVE);
    let d = simple_vertex(f32::MAX, 0.0, -1.0e-40);
    assert_eq!(c.midpoint(&d), d.midpoint(&c));
}

//! The geodesic-sphere generator.
//!
//! A geodesic sphere starts from a regular icosahedron, subdivides it in
//! flat space the requested number of times, and then runs one
//! post-process pass over every vertex: the normal becomes the normalized
//! position, the position is re-projected onto the sphere surface, and
//! the texture coordinate and tangent are recomputed from the spherical
//! angles of the projected position. Subdividing in flat space and
//! re-projecting afterwards is deliberate: all attribute math is linear,
//! so sphericity error at low subdivision counts is accepted.

use vstd::prelude::*;

use crate::fbits::{
    acos_bits, acos_of, add_bits, add_of, atan2_bits, atan2_of, cos_bits, cos_of, div_bits,
    div_of, f_is_neg, f_lt_zero, mul_bits, mul_of, neg_bits, neg_of, sin_bits, sin_of,
    PI_BITS, TAU_BITS, ZERO_BITS,
};
use crate::mesh::{
    iter_subdivided, lemma_iter_subdivided_counts, lemma_iter_subdivided_triples,
    lemma_iter_subdivided_wf, pow4, subdivided_indices, subdivided_vertices,
    subdivision_step_facts, Mesh,
};
use crate::vertex::{normalized, pvtx, spec_normalized, Vec2, Vec3, Vertex};

verus! {

/// Bit pattern of the golden-ratio icosahedron coordinate usually written
/// `X`: the binary32 value nearest to 0.525731.
pub const ICO_X_BITS: u32 = 0x3F06_964F;

/// Bit pattern of the golden-ratio icosahedron coordinate usually written
/// `Z`: the binary32 value nearest to 0.850651.
pub const ICO_Z_BITS: u32 = 0x3F59_C444;

/// The 12 vertices of the regular icosahedron, position-only: every
/// coordinate is 0, `X`, `Z` or their negation. Normals, tangents and
/// texture coordinates are filled in by the post-process pass.
pub open spec fn icosahedron_vertices() -> Seq<Vertex> {
    let x = ICO_X_BITS;
    let z = ICO_Z_BITS;
    let nx = neg_of(ICO_X_BITS);
    let nz = neg_of(ICO_Z_BITS);
    let o = ZERO_BITS;
    seq![
        pvtx(nx, o, z),
        pvtx(x, o, z),
        pvtx(nx, o, nz),
        pvtx(x, o, nz),
        pvtx(o, z, x),
        pvtx(o, z, nx),
        pvtx(o, nz, x),
        pvtx(o, nz, nx),
        pvtx(z, x, o),
        pvtx(nz, x, o),
        pvtx(z, nx, o),
        pvtx(nz, nx, o),
    ]
}

/// The 20 triangular faces of the regular icosahedron, as a fixed index
/// table, wound outward.
pub open spec fn icosahedron_indices() -> Seq<u32> {
    seq![
        1u32, 4, 0, 4, 9, 0, 4, 5, 9, 8, 5, 4, 1, 8, 4,
        1, 10, 8, 10, 3, 8, 8, 3, 5, 3, 2, 5, 3, 7, 2,
        3, 10, 7, 10, 6, 7, 6, 11, 7, 6, 0, 11, 6, 1, 0,
        10, 1, 6, 11, 0, 9, 2, 11, 9, 5, 2, 9, 11, 2, 7,
    ]
}

/// The post-process applied to every vertex once topology is final: the
/// normal becomes the normalized position; the position becomes the
/// normal scaled by the radius, re-projecting the point onto the sphere;
/// the texture coordinate is derived from the spherical angles of the
/// projected position — `theta = atan2(z, x)`, wrapped into `[0, 2*pi)`
/// by adding `2*pi` when negative, and `phi = acos(y / radius)`; the
/// tangent is the same spherical-parameterization derivative the
/// UV-sphere generator uses.
pub open spec fn projected_vertex(v: Vertex, radius: u32) -> Vertex {
    let nrm = spec_normalized(v.position);
    let pos = Vec3 { x: mul_of(nrm.x, radius), y: mul_of(nrm.y, radius), z: mul_of(nrm.z, radius) };
    let theta0 = atan2_of(pos.z, pos.x);
    let theta = if f_is_neg(theta0) {
        add_of(theta0, TAU_BITS)
    } else {
        theta0
    };
    let phi = acos_of(div_of(pos.y, radius));
    Vertex {
        position: pos,
        normal: nrm,
        tangent: Vec3 {
            x: mul_of(mul_of(neg_of(radius), sin_of(phi)), sin_of(theta)),
            y: ZERO_BITS,
            z: mul_of(mul_of(radius, sin_of(phi)), cos_of(theta)),
        },
        tex_coord: Vec2 { x: div_of(theta, TAU_BITS), y: div_of(phi, PI_BITS) },
    }
}

/// The index sequence of the geodesic sphere: the icosahedron's faces
/// after the requested number of subdivision passes.
pub open spec fn geo_sphere_indices(subdivisions: u32) -> Seq<u32> {
    iter_subdivided(icosahedron_vertices(), icosahedron_indices(), subdivisions as nat).1
}

/// The vertex sequence of the geodesic sphere: the subdivided icosahedron
/// vertices, each run through the post-process.
pub open spec fn geo_sphere_vertices(radius: u32, subdivisions: u32) -> Seq<Vertex> {
    let sub = iter_subdivided(icosahedron_vertices(), icosahedron_indices(), subdivisions as nat).0;
    Seq::new(sub.len(), |k: int| projected_vertex(sub[k], radius))
}

impl Mesh {
    /// Builds a geodesic sphere of the given radius by subdividing a
    /// regular icosahedron the requested number of times and re-projecting
    /// every vertex onto the sphere surface.
    ///
    /// The undivided icosahedron has 12 vertices and 20 faces; each
    /// subdivision pass multiplies the face count by four, so the result
    /// has `12 + 20 * (4^subdivisions - 1)` vertices and
    /// `60 * 4^subdivisions` indices. No midpoint deduplication is
    /// performed, so shared edges yield duplicate midpoint vertices.
    pub fn geo_sphere(radius: u32, subdivisions: u32) -> (m: Mesh)
        requires
            12 + 20 * (pow4(subdivisions as nat) as int - 1) <= u32::MAX as int,
        ensures
            m.wf(),
            m.vertices@ == geo_sphere_vertices(radius, subdivisions),
            m.indices@ == geo_sphere_indices(subdivisions),
            m.vertices@.len() == 12 + 20 * (pow4(subdivisions as nat) as int - 1),
            m.indices@.len() == 60 * pow4(subdivisions as nat),
    {
        let x: u32 = ICO_X_BITS;
        let z: u32 = ICO_Z_BITS;
        let nx: u32 = neg_bits(ICO_X_BITS);
        let nz: u32 = neg_bits(ICO_Z_BITS);
        let o: u32 = ZERO_BITS;

        let mut vertices: Vec<Vertex> = Vec::new();
        vertices.push(Vertex::from_position(nx, o, z));
        vertices.push(Vertex::from_position(x, o, z));
        vertices.push(Vertex::from_position(nx, o, nz));
        vertices.push(Vertex::from_position(x, o, nz));
        vertices.push(Vertex::from_position(o, z, x));
        vertices.push(Vertex::from_position(o, z, nx));
        vertices.push(Vertex::from_position(o, nz, x));
        vertices.push(Vertex::from_position(o, nz, nx));
        vertices.push(Vertex::from_position(z, x, o));
        vertices.push(Vertex::from_position(nz, x, o));
        vertices.push(Vertex::from_position(z, nx, o));
        vertices.push(Vertex::from_position(nz, nx, o));
        proof {
            assert(vertices@ =~= icosahedron_vertices());
        }

        let mut indices: Vec<u32> = Vec::new();
        indices.push(1);
        indices.push(4);
        indices.push(0);
        indices.push(4);
        indices.push(9);
        indices.push(0);
        indices.push(4);
        indices.push(5);
        indices.push(9);
        indices.push(8);
        indices.push(5);
        indices.push(4);
        indices.push(1);
        indices.push(8);
        indices.push(4);
        indices.push(1);
        indices.push(10);
        indices.push(8);
        indices.push(10);
        indices.push(3);
        indices.push(8);
        indices.push(8);
        indices.push(3);
        indices.push(5);
        indices.push(3);
        indices.push(2);
        indices.push(5);
        indices.push(3);
        indices.push(7);
        indices.push(2);
        indices.push(3);
        indices.push(10);
        indices.push(7);
        indices.push(10);
        indices.push(6);
        indices.push(7);
        indices.push(6);
        indices.push(11);
        indices.push(7);
        indices.push(6);
        indices.push(0);
        indices.push(11);
        indices.push(6);
        indices.push(1);
        indices.push(0);
        indices.push(10);
        indices.push(1);
        indices.push(6);
        indices.push(11);
        indices.push(0);
        indices.push(9);
        indices.push(2);
        indices.push(11);
        indices.push(9);
        indices.push(5);
        indices.push(2);
        indices.push(9);
        indices.push(11);
        indices.push(2);
        indices.push(7);
        proof {
            assert(indices@ =~= icosahedron_indices());
            assert(forall|k: int|
                0 <= k < indices@.len() ==> (#[trigger] indices@[k] as int) < 12);
        }

        let ghost bv = vertices@;
        let ghost bix = indices@;
        let mut mesh = Mesh { vertices, indices };

        let mut k: u32 = 0;
        while k < subdivisions
            invariant
                k <= subdivisions,
                bv == icosahedron_vertices(),
                bix == icosahedron_indices(),
                bv.len() == 12,
                bix.len() == 60,
                bix.len() % 3 == 0,
                forall|j: int| 0 <= j < bix.len() ==> (bix[j] as int) < bv.len(),
                12 + 20 * (pow4(subdivisions as nat) as int - 1) <= u32::MAX as int,
                mesh.vertices@ == iter_subdivided(bv, bix, k as nat).0,
                mesh.indices@ == iter_subdivided(bv, bix, k as nat).1,
            decreases subdivisions - k,
        {
            proof {
                subdivision_step_facts(bv, bix, k as nat, subdivisions as nat);
            }
            mesh.subdivide();
            k = k + 1;
            proof {
                assert(iter_subdivided(bv, bix, k as nat) == (
                    subdivided_vertices(
                        iter_subdivided(bv, bix, (k - 1) as nat).0,
                        iter_subdivided(bv, bix, (k - 1) as nat).1,
                    ),
                    subdivided_indices(
                        iter_subdivided(bv, bix, (k - 1) as nat).0.len() as int,
                        iter_subdivided(bv, bix, (k - 1) as nat).1,
                    ),
                ));
            }
        }
        proof {
            lemma_iter_subdivided_counts(bv, bix, subdivisions as nat);
            lemma_iter_subdivided_triples(bv, bix, subdivisions as nat);
            lemma_iter_subdivided_wf(bv, bix, subdivisions as nat);
        }

        // Post-process: re-project every vertex onto the sphere surface
        // and derive its attributes from the projected position.
        let ghost sub_vs = mesh.vertices@;
        let ghost sub_ix = mesh.indices@;
        let mut vi: usize = 0;
        while vi < mesh.vertices.len()
            invariant
                vi <= sub_vs.len(),
                mesh.vertices@.len() == sub_vs.len(),
                mesh.indices@ == sub_ix,
                forall|j: int| vi <= j < sub_vs.len() ==> mesh.vertices@[j] == sub_vs[j],
                forall|j: int|
                    0 <= j < vi ==> mesh.vertices@[j] == projected_vertex(sub_vs[j], radius),
            decreases sub_vs.len() - vi,
        {
            let v = mesh.vertices[vi];
            let nrm = normalized(v.position);
            let px: u32 = mul_bits(nrm.x, radius);
            let py: u32 = mul_bits(nrm.y, radius);
            let pz: u32 = mul_bits(nrm.z, radius);
            let mut theta: u32 = atan2_bits(pz, px);
            if f_lt_zero(theta) {
                theta = add_bits(theta, TAU_BITS);
            }
            let phi: u32 = acos_bits(div_bits(py, radius));
            let sphi: u32 = sin_bits(phi);
            let w = Vertex {
                position: Vec3 { x: px, y: py, z: pz },
                normal: nrm,
                tangent: Vec3 {
                    x: mul_bits(mul_bits(neg_bits(radius), sphi), sin_bits(theta)),
                    y: ZERO_BITS,
                    z: mul_bits(mul_bits(radius, sphi), cos_bits(theta)),
                },
                tex_coord: Vec2 { x: div_bits(theta, TAU_BITS), y: div_bits(phi, PI_BITS) },
            };
            mesh.vertices[vi] = w;
            vi = vi + 1;
        }
        proof {
            assert(mesh.vertices@ =~= geo_sphere_vertices(radius, subdivisions));
        }
        mesh
    }
}

} // verus!

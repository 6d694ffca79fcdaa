//! The UV-sphere generator.
//!
//! A UV sphere is a pole-to-pole tessellation: one north-pole vertex,
//! `stacks - 1` latitude rings of `slices + 1` vertices each — the extra
//! vertex duplicates the seam so that every ring has a distinct,
//! non-wrapping texture-coordinate start and end — and one south-pole
//! vertex. The triangles fan out of each pole and fill the quads between
//! consecutive rings.

use vstd::prelude::*;

use vstd::arithmetic::div_mod::lemma_fundamental_div_mod_converse;

use crate::fbits::{
    cos_bits, cos_of, div_bits, div_of, float_bits_of_u32, float_of_u32, mul_bits, mul_of,
    neg_bits, neg_of, sin_bits, sin_of, NEG_ONE_BITS, ONE_BITS, PI_BITS, TAU_BITS, ZERO_BITS,
};
use crate::mesh::Mesh;
use crate::vertex::{normalized, spec_normalized, vtx, Vec2, Vec3, Vertex};

verus! {

/// The north-pole vertex: position `(0, radius, 0)`, normal `(0, 1, 0)`,
/// tangent `(1, 0, 0)`, texture coordinate `(0, 0)`.
pub open spec fn north_pole(radius: u32) -> Vertex {
    vtx(
        ZERO_BITS,
        radius,
        ZERO_BITS,
        ZERO_BITS,
        ONE_BITS,
        ZERO_BITS,
        ONE_BITS,
        ZERO_BITS,
        ZERO_BITS,
        ZERO_BITS,
        ZERO_BITS,
    )
}

/// The south-pole vertex: position `(0, -radius, 0)`, normal
/// `(0, -1, 0)`, tangent `(1, 0, 0)`, texture coordinate `(0, 1)`.
pub open spec fn south_pole(radius: u32) -> Vertex {
    vtx(
        ZERO_BITS,
        neg_of(radius),
        ZERO_BITS,
        ZERO_BITS,
        NEG_ONE_BITS,
        ZERO_BITS,
        ONE_BITS,
        ZERO_BITS,
        ZERO_BITS,
        ZERO_BITS,
        ONE_BITS,
    )
}

/// The polar angle of ring `i`: `i * (pi / stacks)`, with the north pole
/// at angle zero.
pub open spec fn sphere_phi(stacks: u32, i: int) -> u32 {
    mul_of(float_of_u32(i as u32), div_of(PI_BITS, float_of_u32(stacks)))
}

/// The azimuthal angle of seam position `j`: `j * (2*pi / slices)`.
pub open spec fn sphere_theta(slices: u32, j: int) -> u32 {
    mul_of(float_of_u32(j as u32), div_of(TAU_BITS, float_of_u32(slices)))
}

/// The vertex at ring `i` (from 1 to `stacks - 1`), seam position `j`
/// (from 0 to `slices`): the spherical parameterization
/// `radius * (sin phi * cos theta, cos phi, sin phi * sin theta)`, the
/// normalized position as normal, the normalized partial derivative of
/// the position with respect to theta as tangent, and
/// `(theta / 2*pi, phi / pi)` as texture coordinate.
pub open spec fn sphere_ring_vertex(radius: u32, slices: u32, stacks: u32, i: int, j: int) -> Vertex {
    let phi = sphere_phi(stacks, i);
    let theta = sphere_theta(slices, j);
    let sp = sin_of(phi);
    let cp = cos_of(phi);
    let st = sin_of(theta);
    let ct = cos_of(theta);
    let rsp = mul_of(radius, sp);
    let pos = Vec3 { x: mul_of(rsp, ct), y: mul_of(radius, cp), z: mul_of(rsp, st) };
    let tan = Vec3 { x: mul_of(mul_of(neg_of(radius), sp), st), y: ZERO_BITS, z: mul_of(rsp, ct) };
    Vertex {
        position: pos,
        normal: spec_normalized(pos),
        tangent: spec_normalized(tan),
        tex_coord: Vec2 { x: div_of(theta, TAU_BITS), y: div_of(phi, PI_BITS) },
    }
}

/// The ring vertex stored at vertex slot `vi` (for slots strictly between
/// the poles): ring slots come in runs of `slices + 1`, rings starting at
/// ring 1.
pub open spec fn ring_slot_vertex(radius: u32, slices: u32, stacks: u32, vi: int) -> Vertex {
    let ring = slices as int + 1;
    sphere_ring_vertex(radius, slices, stacks, 1 + (vi - 1) / ring, (vi - 1) % ring)
}

/// The number of vertices of the UV sphere: both poles plus
/// `stacks - 1` rings of `slices + 1` vertices.
pub open spec fn sphere_vertex_count(slices: u32, stacks: u32) -> int {
    2 + (stacks as int - 1) * (slices as int + 1)
}

/// The vertex at slot `vi` of the UV sphere: the north pole first, then
/// the rings from north to south, then the south pole.
pub open spec fn sphere_vertex_at(radius: u32, slices: u32, stacks: u32, vi: int) -> Vertex {
    if vi == 0 {
        north_pole(radius)
    } else if vi == sphere_vertex_count(slices, stacks) - 1 {
        south_pole(radius)
    } else {
        ring_slot_vertex(radius, slices, stacks, vi)
    }
}

/// The vertex sequence of the UV sphere.
pub open spec fn sphere_vertices(radius: u32, slices: u32, stacks: u32) -> Seq<Vertex> {
    Seq::new(
        sphere_vertex_count(slices, stacks) as nat,
        |vi: int| sphere_vertex_at(radius, slices, stacks, vi),
    )
}

/// The number of indices of the UV sphere: three per triangle, with
/// `slices` triangles per cap and `2 * slices` per interior ring pair.
pub open spec fn sphere_index_count(slices: u32, stacks: u32) -> int {
    6 * (slices as int) * (stacks as int - 1)
}

/// The index at slot `k` of the UV sphere's index sequence. Slots come in
/// three regions: the top cap fans `slices` triangles out of the north
/// pole into the first ring; the body fills each quad between consecutive
/// rings with two triangles; the bottom cap fans `slices` triangles out
/// of the south pole into the last ring. All triangles face outward.
pub open spec fn sphere_index_at(slices: u32, stacks: u32, k: int) -> u32 {
    let s = slices as int;
    let ring = s + 1;
    let top_end = 3 * s;
    let body_end = top_end + 6 * s * (stacks as int - 2);
    let south = 1 + (stacks as int - 1) * ring;
    if k < top_end {
        let i = k / 3;
        let p = k % 3;
        if p == 0 {
            0u32
        } else if p == 1 {
            (i + 2) as u32
        } else {
            (i + 1) as u32
        }
    } else if k < body_end {
        let q = (k - top_end) / 6;
        let p = (k - top_end) % 6;
        let i = q / s;
        let j = q % s;
        let a = 1 + i * ring + j;
        if p == 0 {
            a as u32
        } else if p == 1 {
            (a + 1) as u32
        } else if p == 2 {
            (a + ring) as u32
        } else if p == 3 {
            (a + ring) as u32
        } else if p == 4 {
            (a + 1) as u32
        } else {
            (a + ring + 1) as u32
        }
    } else {
        let i = (k - body_end) / 3;
        let p = (k - body_end) % 3;
        let base = south - ring;
        if p == 0 {
            south as u32
        } else if p == 1 {
            (base + i) as u32
        } else {
            (base + i + 1) as u32
        }
    }
}

/// The index sequence of the UV sphere.
pub open spec fn sphere_indices(slices: u32, stacks: u32) -> Seq<u32> {
    Seq::new(sphere_index_count(slices, stacks) as nat, |k: int| sphere_index_at(slices, stacks, k))
}

impl Mesh {
    /// Builds a UV sphere of the given radius from `slices` azimuthal
    /// segments and `stacks` polar segments.
    ///
    /// The result has `(stacks - 1) * (slices + 1) + 2` vertices — every
    /// ring duplicates its seam vertex — and `2 * slices * (stacks - 1)`
    /// triangles. The pole vertices sit exactly at `(0, radius, 0)` and
    /// `(0, -radius, 0)`.
    pub fn sphere(radius: u32, slices: u32, stacks: u32) -> (m: Mesh)
        requires
            slices >= 3,
            stacks >= 2,
            sphere_vertex_count(slices, stacks) <= u32::MAX as int,
        ensures
            m.wf(),
            m.vertices@ == sphere_vertices(radius, slices, stacks),
            m.indices@ == sphere_indices(slices, stacks),
            m.vertices@.len() == sphere_vertex_count(slices, stacks),
            m.indices@.len() == sphere_index_count(slices, stacks),
            m.vertices@[0].position == (Vec3 { x: ZERO_BITS, y: radius, z: ZERO_BITS }),
            m.vertices@[m.vertices@.len() - 1].position == (Vec3 {
                x: ZERO_BITS,
                y: neg_of(radius),
                z: ZERO_BITS,
            }),
    {
        let ghost s = slices as int;
        let ghost ring_g = s + 1;
        let ghost vcount = sphere_vertex_count(slices, stacks);
        proof {
            assert((stacks as int - 1) * ring_g >= 1 * ring_g) by (nonlinear_arith)
                requires
                    stacks as int - 1 >= 1,
                    ring_g >= 0,
            ;
            assert(vcount >= 2 + ring_g);
            assert(slices as int + 3 <= u32::MAX as int);
        }

        let mut vertices: Vec<Vertex> = Vec::new();
        vertices.push(
            Vertex::new(
                ZERO_BITS,
                radius,
                ZERO_BITS,
                ZERO_BITS,
                ONE_BITS,
                ZERO_BITS,
                ONE_BITS,
                ZERO_BITS,
                ZERO_BITS,
                ZERO_BITS,
                ZERO_BITS,
            ),
        );

        let phi_step: u32 = div_bits(PI_BITS, float_bits_of_u32(stacks));
        let theta_step: u32 = div_bits(TAU_BITS, float_bits_of_u32(slices));

        proof {
            assert(vertices@.len() == 1);
        }
        let mut i: u32 = 1;
        while i < stacks
            invariant
                1 <= i <= stacks,
                slices >= 3,
                stacks >= 2,
                s == slices as int,
                ring_g == s + 1,
                vcount == sphere_vertex_count(slices, stacks),
                vcount <= u32::MAX as int,
                slices as int + 3 <= u32::MAX as int,
                phi_step == div_of(PI_BITS, float_of_u32(stacks)),
                theta_step == div_of(TAU_BITS, float_of_u32(slices)),
                vertices@.len() == 1 + (i as int - 1) * ring_g,
                vertices@[0] == north_pole(radius),
                forall|vi: int|
                    1 <= vi < vertices@.len() ==> vertices@[vi] == ring_slot_vertex(
                        radius,
                        slices,
                        stacks,
                        vi,
                    ),
            decreases stacks - i,
        {
            proof {
                assert((i as int - 1) * ring_g <= (stacks as int - 1) * ring_g)
                    by (nonlinear_arith)
                    requires
                        i as int - 1 <= stacks as int - 1,
                        ring_g >= 0,
                ;
            }
            let phi: u32 = mul_bits(float_bits_of_u32(i), phi_step);
            let sp: u32 = sin_bits(phi);
            let cp: u32 = cos_bits(phi);
            let mut j: u32 = 0;
            while j < slices + 1
                invariant
                    0 <= j <= slices + 1,
                    1 <= i < stacks,
                    slices >= 3,
                    stacks >= 2,
                    s == slices as int,
                    ring_g == s + 1,
                    vcount == sphere_vertex_count(slices, stacks),
                    vcount <= u32::MAX as int,
                    (i as int - 1) * ring_g <= (stacks as int - 1) * ring_g,
                    slices as int + 3 <= u32::MAX as int,
                    phi_step == div_of(PI_BITS, float_of_u32(stacks)),
                    theta_step == div_of(TAU_BITS, float_of_u32(slices)),
                    phi == sphere_phi(stacks, i as int),
                    sp == sin_of(phi),
                    cp == cos_of(phi),
                    vertices@.len() == 1 + (i as int - 1) * ring_g + j as int,
                    vertices@[0] == north_pole(radius),
                    forall|vi: int|
                        1 <= vi < vertices@.len() ==> vertices@[vi] == ring_slot_vertex(
                            radius,
                            slices,
                            stacks,
                            vi,
                        ),
                decreases slices + 1 - j,
            {
                let theta: u32 = mul_bits(float_bits_of_u32(j), theta_step);
                let st: u32 = sin_bits(theta);
                let ct: u32 = cos_bits(theta);
                let rsp: u32 = mul_bits(radius, sp);
                let px: u32 = mul_bits(rsp, ct);
                let py: u32 = mul_bits(radius, cp);
                let pz: u32 = mul_bits(rsp, st);
                let pos = Vec3 { x: px, y: py, z: pz };
                let tan_raw = Vec3 { x: mul_bits(mul_bits(neg_bits(radius), sp), st), y: ZERO_BITS, z: px };
                let nrm = normalized(pos);
                let tan = normalized(tan_raw);
                let tex = Vec2 { x: div_bits(theta, TAU_BITS), y: div_bits(phi, PI_BITS) };
                let ghost vi = vertices@.len() as int;
                vertices.push(Vertex { position: pos, normal: nrm, tangent: tan, tex_coord: tex });
                proof {
                    lemma_fundamental_div_mod_converse(
                        (i as int - 1) * ring_g + j as int,
                        ring_g,
                        i as int - 1,
                        j as int,
                    );
                    assert(vertices@[vi] == sphere_ring_vertex(
                        radius,
                        slices,
                        stacks,
                        i as int,
                        j as int,
                    ));
                    assert(vertices@[vi] == ring_slot_vertex(radius, slices, stacks, vi));
                }
                j = j + 1;
            }
            proof {
                assert((i as int) * ring_g == (i as int - 1) * ring_g + ring_g) by (nonlinear_arith);
            }
            i = i + 1;
        }
        vertices.push(
            Vertex::new(
                ZERO_BITS,
                neg_bits(radius),
                ZERO_BITS,
                ZERO_BITS,
                NEG_ONE_BITS,
                ZERO_BITS,
                ONE_BITS,
                ZERO_BITS,
                ZERO_BITS,
                ZERO_BITS,
                ONE_BITS,
            ),
        );
        proof {
            assert(vertices@.len() == vcount);
            assert forall|vi: int| 0 <= vi < vcount implies vertices@[vi] == sphere_vertex_at(
                radius,
                slices,
                stacks,
                vi,
            ) by {
                if vi == 0 {
                } else if vi == vcount - 1 {
                } else {
                }
            }
            assert(vertices@ =~= sphere_vertices(radius, slices, stacks));
        }

        let ghost top_end = 3 * s;
        let ghost body_end = top_end + 6 * s * (stacks as int - 2);
        let south: u32 = (vertices.len() as u32) - 1;
        proof {
            assert(south as int == 1 + (stacks as int - 1) * ring_g);
        }

        let mut indices: Vec<u32> = Vec::new();

        // Top cap: fan from the north pole into the first ring.
        let mut t: u32 = 0;
        while t < slices
            invariant
                0 <= t <= slices,
                s == slices as int,
                ring_g == s + 1,
                slices >= 3,
                stacks >= 2,
                vcount == sphere_vertex_count(slices, stacks),
                vcount <= u32::MAX as int,
                south as int == vcount - 1,
                (stacks as int - 1) * ring_g >= ring_g,
                slices as int + 3 <= u32::MAX as int,
                indices@.len() == 3 * t as int,
                forall|k: int|
                    0 <= k < indices@.len() ==> indices@[k] == sphere_index_at(slices, stacks, k),
                forall|k: int| 0 <= k < indices@.len() ==> (indices@[k] as int) < vcount,
            decreases slices - t,
        {
            indices.push(0);
            indices.push(t + 2);
            indices.push(t + 1);
            proof {
                let ti = t as int;
                lemma_fundamental_div_mod_converse(3 * ti, 3, ti, 0);
                lemma_fundamental_div_mod_converse(3 * ti + 1, 3, ti, 1);
                lemma_fundamental_div_mod_converse(3 * ti + 2, 3, ti, 2);
            }
            t = t + 1;
        }

        // Body: two triangles per quad between consecutive rings.
        let ring: u32 = slices + 1;
        let mut i2: u32 = 0;
        proof {
            assert(indices@.len() == top_end);
            assert(6 * (i2 as int) * s == 0) by (nonlinear_arith)
                requires
                    i2 as int == 0,
            ;
        }
        while i2 < stacks - 2
            invariant
                0 <= i2 <= stacks as int - 2,
                s == slices as int,
                ring_g == s + 1,
                ring == ring_g,
                slices >= 3,
                stacks >= 2,
                vcount == sphere_vertex_count(slices, stacks),
                vcount <= u32::MAX as int,
                south as int == vcount - 1,
                top_end == 3 * s,
                body_end == top_end + 6 * s * (stacks as int - 2),
                indices@.len() == top_end + 6 * (i2 as int) * s,
                forall|k: int|
                    0 <= k < indices@.len() ==> indices@[k] == sphere_index_at(slices, stacks, k),
                forall|k: int| 0 <= k < indices@.len() ==> (indices@[k] as int) < vcount,
            decreases stacks - 2 - i2,
        {
            let mut j2: u32 = 0;
            while j2 < slices
                invariant
                    0 <= j2 <= slices,
                    0 <= i2 < stacks as int - 2,
                    s == slices as int,
                    ring_g == s + 1,
                    ring == ring_g,
                    slices >= 3,
                    stacks >= 2,
                    vcount == sphere_vertex_count(slices, stacks),
                    vcount <= u32::MAX as int,
                    south as int == vcount - 1,
                    top_end == 3 * s,
                    body_end == top_end + 6 * s * (stacks as int - 2),
                    indices@.len() == top_end + 6 * (i2 as int) * s + 6 * j2 as int,
                    forall|k: int|
                        0 <= k < indices@.len() ==> indices@[k] == sphere_index_at(
                            slices,
                            stacks,
                            k,
                        ),
                    forall|k: int| 0 <= k < indices@.len() ==> (indices@[k] as int) < vcount,
                decreases slices - j2,
            {
                proof {
                    // The largest index this quad names is within the last
                    // ring, strictly before the south pole.
                    assert((i2 as int + 2) * ring_g <= (stacks as int - 1) * ring_g)
                        by (nonlinear_arith)
                        requires
                            i2 as int + 2 <= stacks as int - 1,
                            ring_g >= 0,
                    ;
                    assert((i2 as int + 1) * ring_g + ring_g == (i2 as int + 2) * ring_g)
                        by (nonlinear_arith);
                    assert((i2 as int) * ring_g + ring_g == (i2 as int + 1) * ring_g)
                        by (nonlinear_arith);
                    assert((i2 as int) * ring_g >= 0) by (nonlinear_arith)
                        requires
                            i2 as int >= 0,
                            ring_g >= 0,
                    ;
                }
                let a: u32 = 1 + i2 * ring + j2;
                indices.push(a);
                indices.push(a + 1);
                indices.push(a + ring);
                indices.push(a + ring);
                indices.push(a + 1);
                indices.push(a + ring + 1);
                proof {
                    let q = (i2 as int) * s + j2 as int;
                    let kbase = top_end + 6 * q;
                    assert(6 * (i2 as int) * s + 6 * j2 as int == 6 * q) by (nonlinear_arith)
                        requires
                            q == (i2 as int) * s + j2 as int,
                    ;
                    lemma_fundamental_div_mod_converse(6 * q, 6, q, 0);
                    lemma_fundamental_div_mod_converse(6 * q + 1, 6, q, 1);
                    lemma_fundamental_div_mod_converse(6 * q + 2, 6, q, 2);
                    lemma_fundamental_div_mod_converse(6 * q + 3, 6, q, 3);
                    lemma_fundamental_div_mod_converse(6 * q + 4, 6, q, 4);
                    lemma_fundamental_div_mod_converse(6 * q + 5, 6, q, 5);
                    lemma_fundamental_div_mod_converse(q, s, i2 as int, j2 as int);
                    assert(q < s * (stacks as int - 2)) by (nonlinear_arith)
                        requires
                            q == (i2 as int) * s + j2 as int,
                            (i2 as int) < stacks as int - 2,
                            0 <= j2 as int && (j2 as int) < s,
                            s > 0,
                    ;
                    assert(6 * q + 5 < 6 * (s * (stacks as int - 2)));
                    assert(6 * s * (stacks as int - 2) == 6 * (s * (stacks as int - 2)))
                        by (nonlinear_arith);
                    assert(kbase + 5 < body_end);
                    assert(a as int == 1 + (i2 as int) * ring_g + j2 as int);
                    assert forall|k: int| indices@.len() - 6 <= k < indices@.len() implies indices@[k]
                        == sphere_index_at(slices, stacks, k) by {
                        assert(top_end <= k < body_end);
                    }
                }
                j2 = j2 + 1;
            }
            proof {
                assert(6 * (i2 as int) * s + 6 * s == 6 * (i2 as int + 1) * s) by (nonlinear_arith);
            }
            i2 = i2 + 1;
        }

        proof {
            assert(6 * (stacks as int - 2) * s == 6 * s * (stacks as int - 2)) by (nonlinear_arith);
        }

        // Bottom cap: fan from the south pole into the last ring.
        let base: u32 = south - slices - 1;
        let mut t3: u32 = 0;
        while t3 < slices
            invariant
                0 <= t3 <= slices,
                s == slices as int,
                ring_g == s + 1,
                slices >= 3,
                stacks >= 2,
                vcount == sphere_vertex_count(slices, stacks),
                vcount <= u32::MAX as int,
                south as int == vcount - 1,
                (stacks as int - 1) * ring_g >= ring_g,
                base as int == south as int - ring_g,
                top_end == 3 * s,
                body_end == top_end + 6 * s * (stacks as int - 2),
                indices@.len() == body_end + 3 * t3 as int,
                forall|k: int|
                    0 <= k < indices@.len() ==> indices@[k] == sphere_index_at(slices, stacks, k),
                forall|k: int| 0 <= k < indices@.len() ==> (indices@[k] as int) < vcount,
            decreases slices - t3,
        {
            indices.push(south);
            indices.push(base + t3);
            indices.push(base + t3 + 1);
            proof {
                let ti = t3 as int;
                lemma_fundamental_div_mod_converse(3 * ti, 3, ti, 0);
                lemma_fundamental_div_mod_converse(3 * ti + 1, 3, ti, 1);
                lemma_fundamental_div_mod_converse(3 * ti + 2, 3, ti, 2);
            }
            t3 = t3 + 1;
        }

        proof {
            assert(6 * s * (stacks as int - 2) + 6 * s == 6 * s * (stacks as int - 1))
                by (nonlinear_arith);
            assert(indices@.len() == sphere_index_count(slices, stacks));
            assert(indices@ =~= sphere_indices(slices, stacks));
            assert(sphere_index_count(slices, stacks) == 3 * (2 * s * (stacks as int - 1)))
                by (nonlinear_arith)
                requires
                    sphere_index_count(slices, stacks) == 6 * s * (stacks as int - 1),
            ;
            assert(sphere_index_count(slices, stacks) % 3 == 0) by {
                vstd::arithmetic::div_mod::lemma_mod_multiples_basic(
                    2 * s * (stacks as int - 1),
                    3,
                );
            }
        }
        Mesh { vertices, indices }
    }
}

} // verus!

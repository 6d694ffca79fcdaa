//! The box/brick generator.
//!
//! A brick is built from 6 quad faces with 24 independently attributed
//! corner vertices — each face owns its 4 corners so that per-face
//! normals, tangents and texture coordinates stay exact — and 12
//! triangles, then refined by the requested number of subdivision passes.

use vstd::prelude::*;

use vstd::arithmetic::div_mod::lemma_fundamental_div_mod_converse;

use crate::fbits::{
    mul_bits, mul_of, neg_bits, neg_of, HALF_BITS, NEG_ONE_BITS, ONE_BITS, ZERO_BITS,
};
use crate::mesh::{
    iter_subdivided, lemma_iter_subdivided_counts, lemma_iter_subdivided_triples,
    lemma_iter_subdivided_wf, pow4, subdivided_indices, subdivided_vertices,
    subdivision_step_facts, Mesh,
};
use crate::vertex::{vtx, Vertex};

verus! {

/// The 24 corner vertices of the undivided brick, in face order: front,
/// back, top, bottom, left, right. Each face's corners share one normal
/// and one tangent, and their texture coordinates span the unit square.
/// The half-extents are `0.5 * width`, `0.5 * height`, `0.5 * depth`.
pub open spec fn brick_base_vertices(width: u32, height: u32, depth: u32) -> Seq<Vertex> {
    let w2 = mul_of(HALF_BITS, width);
    let h2 = mul_of(HALF_BITS, height);
    let d2 = mul_of(HALF_BITS, depth);
    let nw2 = neg_of(w2);
    let nh2 = neg_of(h2);
    let nd2 = neg_of(d2);
    let o = ZERO_BITS;
    let l = ONE_BITS;
    let n = NEG_ONE_BITS;
    seq![
        // Front face: normal (0, 0, -1), tangent (1, 0, 0).
        vtx(nw2, nh2, nd2, o, o, n, l, o, o, o, l),
        vtx(nw2, h2, nd2, o, o, n, l, o, o, o, o),
        vtx(w2, h2, nd2, o, o, n, l, o, o, l, o),
        vtx(w2, nh2, nd2, o, o, n, l, o, o, l, l),
        // Back face: normal (0, 0, 1), tangent (-1, 0, 0).
        vtx(nw2, nh2, d2, o, o, l, n, o, o, l, l),
        vtx(w2, nh2, d2, o, o, l, n, o, o, o, l),
        vtx(w2, h2, d2, o, o, l, n, o, o, o, o),
        vtx(nw2, h2, d2, o, o, l, n, o, o, l, o),
        // Top face: normal (0, 1, 0), tangent (1, 0, 0).
        vtx(nw2, h2, nd2, o, l, o, l, o, o, o, l),
        vtx(nw2, h2, d2, o, l, o, l, o, o, o, o),
        vtx(w2, h2, d2, o, l, o, l, o, o, l, o),
        vtx(w2, h2, nd2, o, l, o, l, o, o, l, l),
        // Bottom face: normal (0, -1, 0), tangent (-1, 0, 0).
        vtx(nw2, nh2, nd2, o, n, o, n, o, o, l, l),
        vtx(w2, nh2, nd2, o, n, o, n, o, o, o, l),
        vtx(w2, nh2, d2, o, n, o, n, o, o, o, o),
        vtx(nw2, nh2, d2, o, n, o, n, o, o, l, o),
        // Left face: normal (-1, 0, 0), tangent (0, 0, -1).
        vtx(nw2, nh2, d2, n, o, o, o, o, n, o, l),
        vtx(nw2, h2, d2, n, o, o, o, o, n, o, o),
        vtx(nw2, h2, nd2, n, o, o, o, o, n, l, o),
        vtx(nw2, nh2, nd2, n, o, o, o, o, n, l, l),
        // Right face: normal (1, 0, 0), tangent (0, 0, 1).
        vtx(w2, nh2, nd2, l, o, o, o, o, l, o, l),
        vtx(w2, h2, nd2, l, o, o, o, o, l, o, o),
        vtx(w2, h2, d2, l, o, o, o, o, l, l, o),
        vtx(w2, nh2, d2, l, o, o, o, o, l, l, l),
    ]
}

/// The 36 indices of the undivided brick: face `f` owns corners `4f` to
/// `4f + 3` and is split into the triangles `(4f, 4f+1, 4f+2)` and
/// `(4f, 4f+2, 4f+3)`, wound counter-clockwise seen from outside.
pub open spec fn brick_base_indices() -> Seq<u32> {
    Seq::new(
        36,
        |k: int|
            {
                let f = k / 6;
                let p = k % 6;
                let base = (4 * f) as u32;
                if p == 0 {
                    base
                } else if p == 1 {
                    (base + 1) as u32
                } else if p == 2 {
                    (base + 2) as u32
                } else if p == 3 {
                    base
                } else if p == 4 {
                    (base + 2) as u32
                } else {
                    (base + 3) as u32
                }
            },
    )
}

impl Mesh {
    /// Builds an axis-aligned box of the given extents, centred at the
    /// origin, then subdivides it the requested number of times.
    ///
    /// The undivided box has exactly 24 vertices and 36 indices; each
    /// subdivision pass multiplies the triangle count by four and appends
    /// three midpoint vertices per triangle, so the result has
    /// `24 + 12 * (4^subdivisions - 1)` vertices and
    /// `36 * 4^subdivisions` indices.
    pub fn brick(width: u32, height: u32, depth: u32, subdivisions: u32) -> (m: Mesh)
        requires
            24 + 12 * (pow4(subdivisions as nat) as int - 1) <= u32::MAX as int,
        ensures
            m.wf(),
            m.vertices@ == iter_subdivided(
                brick_base_vertices(width, height, depth),
                brick_base_indices(),
                subdivisions as nat,
            ).0,
            m.indices@ == iter_subdivided(
                brick_base_vertices(width, height, depth),
                brick_base_indices(),
                subdivisions as nat,
            ).1,
            m.vertices@.len() == 24 + 12 * (pow4(subdivisions as nat) as int - 1),
            m.indices@.len() == 36 * pow4(subdivisions as nat),
    {
        let w2: u32 = mul_bits(HALF_BITS, width);
        let h2: u32 = mul_bits(HALF_BITS, height);
        let d2: u32 = mul_bits(HALF_BITS, depth);
        let nw2: u32 = neg_bits(w2);
        let nh2: u32 = neg_bits(h2);
        let nd2: u32 = neg_bits(d2);
        let o: u32 = ZERO_BITS;
        let l: u32 = ONE_BITS;
        let n: u32 = NEG_ONE_BITS;

        let mut vertices: Vec<Vertex> = Vec::new();
        // Front face.
        vertices.push(Vertex::new(nw2, nh2, nd2, o, o, n, l, o, o, o, l));
        vertices.push(Vertex::new(nw2, h2, nd2, o, o, n, l, o, o, o, o));
        vertices.push(Vertex::new(w2, h2, nd2, o, o, n, l, o, o, l, o));
        vertices.push(Vertex::new(w2, nh2, nd2, o, o, n, l, o, o, l, l));
        // Back face.
        vertices.push(Vertex::new(nw2, nh2, d2, o, o, l, n, o, o, l, l));
        vertices.push(Vertex::new(w2, nh2, d2, o, o, l, n, o, o, o, l));
        vertices.push(Vertex::new(w2, h2, d2, o, o, l, n, o, o, o, o));
        vertices.push(Vertex::new(nw2, h2, d2, o, o, l, n, o, o, l, o));
        // Top face.
        vertices.push(Vertex::new(nw2, h2, nd2, o, l, o, l, o, o, o, l));
        vertices.push(Vertex::new(nw2, h2, d2, o, l, o, l, o, o, o, o));
        vertices.push(Vertex::new(w2, h2, d2, o, l, o, l, o, o, l, o));
        vertices.push(Vertex::new(w2, h2, nd2, o, l, o, l, o, o, l, l));
        // Bottom face.
        vertices.push(Vertex::new(nw2, nh2, nd2, o, n, o, n, o, o, l, l));
        vertices.push(Vertex::new(w2, nh2, nd2, o, n, o, n, o, o, o, l));
        vertices.push(Vertex::new(w2, nh2, d2, o, n, o, n, o, o, o, o));
        vertices.push(Vertex::new(nw2, nh2, d2, o, n, o, n, o, o, l, o));
        // Left face.
        vertices.push(Vertex::new(nw2, nh2, d2, n, o, o, o, o, n, o, l));
        vertices.push(Vertex::new(nw2, h2, d2, n, o, o, o, o, n, o, o));
        vertices.push(Vertex::new(nw2, h2, nd2, n, o, o, o, o, n, l, o));
        vertices.push(Vertex::new(nw2, nh2, nd2, n, o, o, o, o, n, l, l));
        // Right face.
        vertices.push(Vertex::new(w2, nh2, nd2, l, o, o, o, o, l, o, l));
        vertices.push(Vertex::new(w2, h2, nd2, l, o, o, o, o, l, o, o));
        vertices.push(Vertex::new(w2, h2, d2, l, o, o, o, o, l, l, o));
        vertices.push(Vertex::new(w2, nh2, d2, l, o, o, o, o, l, l, l));
        proof {
            assert(vertices@ =~= brick_base_vertices(width, height, depth));
        }

        let mut indices: Vec<u32> = Vec::new();
        let mut f: u32 = 0;
        while f < 6
            invariant
                f <= 6,
                indices@.len() == 6 * f,
                forall|k: int| 0 <= k < 6 * f ==> indices@[k] == brick_base_indices()[k],
                forall|k: int| 0 <= k < 6 * f ==> (indices@[k] as int) < 24,
            decreases 6 - f,
        {
            let base: u32 = 4 * f;
            indices.push(base);
            indices.push(base + 1);
            indices.push(base + 2);
            indices.push(base);
            indices.push(base + 2);
            indices.push(base + 3);
            proof {
                let fi = f as int;
                lemma_fundamental_div_mod_converse(6 * fi, 6, fi, 0);
                lemma_fundamental_div_mod_converse(6 * fi + 1, 6, fi, 1);
                lemma_fundamental_div_mod_converse(6 * fi + 2, 6, fi, 2);
                lemma_fundamental_div_mod_converse(6 * fi + 3, 6, fi, 3);
                lemma_fundamental_div_mod_converse(6 * fi + 4, 6, fi, 4);
                lemma_fundamental_div_mod_converse(6 * fi + 5, 6, fi, 5);
            }
            f = f + 1;
        }
        proof {
            assert(indices@ =~= brick_base_indices());
        }

        let ghost bv = vertices@;
        let ghost bix = indices@;
        let mut mesh = Mesh { vertices, indices };
        proof {
            assert(bv.len() == 24);
            assert(bix.len() == 36);
        }

        let mut k: u32 = 0;
        while k < subdivisions
            invariant
                k <= subdivisions,
                bv == brick_base_vertices(width, height, depth),
                bix == brick_base_indices(),
                bv.len() == 24,
                bix.len() == 36,
                bix.len() % 3 == 0,
                forall|j: int| 0 <= j < bix.len() ==> (bix[j] as int) < bv.len(),
                24 + 12 * (pow4(subdivisions as nat) as int - 1) <= u32::MAX as int,
                mesh.vertices@ == iter_subdivided(bv, bix, k as nat).0,
                mesh.indices@ == iter_subdivided(bv, bix, k as nat).1,
            decreases subdivisions - k,
        {
            proof {
                subdivision_step_facts(bv, bix, k as nat, subdivisions as nat);
            }
            mesh.subdivide();
            k = k + 1;
            proof {
                assert(iter_subdivided(bv, bix, k as nat) == (
                    subdivided_vertices(
                        iter_subdivided(bv, bix, (k - 1) as nat).0,
                        iter_subdivided(bv, bix, (k - 1) as nat).1,
                    ),
                    subdivided_indices(
                        iter_subdivided(bv, bix, (k - 1) as nat).0.len() as int,
                        iter_subdivided(bv, bix, (k - 1) as nat).1,
                    ),
                ));
            }
        }
        proof {
            lemma_iter_subdivided_counts(bv, bix, subdivisions as nat);
            lemma_iter_subdivided_triples(bv, bix, subdivisions as nat);
            lemma_iter_subdivided_wf(bv, bix, subdivisions as nat);
        }
        mesh
    }
}

} // verus!

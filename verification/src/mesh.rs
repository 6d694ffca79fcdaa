//! Indexed triangle meshes and their construction algorithms.
//!
//! A [`Mesh`] is an ordered sequence of vertices plus an ordered sequence
//! of vertex indices, grouped in triples; each triple names one triangle.
//! The generators build boxes, UV spheres and geodesic spheres, and
//! [`Mesh::subdivide`] refines every triangle into four by inserting
//! edge-midpoint vertices.

use vstd::prelude::*;

use vstd::arithmetic::div_mod::lemma_fundamental_div_mod_converse;

use crate::vertex::{spec_midpoint, Vertex};

verus! {

/// An indexed triangle mesh: vertex attribute records plus triples of
/// vertex indices. The two invariants every generator establishes and
/// every operation preserves are captured by [`Mesh::wf`].
pub struct Mesh {
    pub vertices: Vec<Vertex>,
    pub indices: Vec<u32>,
}

impl Mesh {
    /// The mesh invariant: the index sequence is made of whole triples,
    /// and every index names an existing vertex.
    pub open spec fn wf(self) -> bool {
        &&& self.indices@.len() % 3 == 0
        &&& forall|k: int|
            0 <= k < self.indices@.len() ==> (self.indices@[k] as int) < self.vertices@.len()
    }

    /// How many triangles the index sequence holds.
    pub open spec fn tri_count(self) -> int {
        self.indices@.len() as int / 3
    }
}

/// A model: one mesh, ready to be handed to a rendering collaborator.
pub struct Model {
    pub mesh: Mesh,
}

/// The `k`-th midpoint vertex that one subdivision pass appends: pass `k`
/// runs over three times the triangle count, and triangle `k / 3`
/// contributes the midpoints of its edges `(v0, v1)`, `(v1, v2)` and
/// `(v0, v2)`, in that order.
pub open spec fn midpoint_row(v: Seq<Vertex>, ix: Seq<u32>, k: int) -> Vertex {
    let t = k / 3;
    let a = v[ix[3 * t] as int];
    let b = v[ix[3 * t + 1] as int];
    let c = v[ix[3 * t + 2] as int];
    if k % 3 == 0 {
        spec_midpoint(a, b)
    } else if k % 3 == 1 {
        spec_midpoint(b, c)
    } else {
        spec_midpoint(a, c)
    }
}

/// The vertex sequence after one subdivision pass: the old vertices,
/// followed by three midpoint vertices per triangle.
pub open spec fn subdivided_vertices(v: Seq<Vertex>, ix: Seq<u32>) -> Seq<Vertex> {
    v + Seq::new(ix.len(), |k: int| midpoint_row(v, ix, k))
}

/// The `k`-th index after one subdivision pass over a mesh with `vlen`
/// vertices and index sequence `ix`. Triangle `t` with corners
/// `(a, b, c)` and fresh midpoint slots `m0 = vlen + 3t`, `m1 = m0 + 1`,
/// `m2 = m0 + 2` is rewritten in place to `(a, m0, m2)`, and the triples
/// `(m0, b, m1)`, `(m0, m1, m2)`, `(m2, m1, c)` are appended after all
/// original triples.
pub open spec fn subdivided_index_at(vlen: int, ix: Seq<u32>, k: int) -> u32 {
    let t0 = ix.len() as int / 3;
    if k < 3 * t0 {
        let t = k / 3;
        if k % 3 == 0 {
            ix[k]
        } else if k % 3 == 1 {
            (vlen + 3 * t) as u32
        } else {
            (vlen + 3 * t + 2) as u32
        }
    } else {
        let j = k - 3 * t0;
        let t = j / 9;
        let p = j % 9;
        let m0 = (vlen + 3 * t) as u32;
        let m1 = (vlen + 3 * t + 1) as u32;
        let m2 = (vlen + 3 * t + 2) as u32;
        if p == 0 {
            m0
        } else if p == 1 {
            ix[3 * t + 1]
        } else if p == 2 {
            m1
        } else if p == 3 {
            m0
        } else if p == 4 {
            m1
        } else if p == 5 {
            m2
        } else if p == 6 {
            m2
        } else if p == 7 {
            m1
        } else {
            ix[3 * t + 2]
        }
    }
}

/// The index sequence after one subdivision pass: four times as many
/// indices, laid out as [`subdivided_index_at`] describes.
pub open spec fn subdivided_indices(vlen: int, ix: Seq<u32>) -> Seq<u32> {
    Seq::new(4 * ix.len(), |k: int| subdivided_index_at(vlen, ix, k))
}

/// Division facts for a triple-grouped position `3t + r`.
proof fn lemma_triple_pos(t: int, r: int)
    requires
        0 <= t,
        0 <= r < 3,
    ensures
        (3 * t + r) / 3 == t,
        (3 * t + r) % 3 == r,
{
    lemma_fundamental_div_mod_converse(3 * t + r, 3, t, r);
}

/// Division facts for a nine-grouped position `9t + p`.
proof fn lemma_nine_pos(t: int, p: int)
    requires
        0 <= t,
        0 <= p < 9,
    ensures
        (9 * t + p) / 9 == t,
        (9 * t + p) % 9 == p,
{
    lemma_fundamental_div_mod_converse(9 * t + p, 9, t, p);
}

/// Powers of four: one subdivision pass turns each triangle into four.
pub open spec fn pow4(n: nat) -> nat
    decreases n,
{
    if n == 0 {
        1
    } else {
        4 * pow4((n - 1) as nat)
    }
}

/// Powers of four are at least one.
pub proof fn lemma_pow4_pos(n: nat)
    ensures
        pow4(n) >= 1,
    decreases n,
{
    if n > 0 {
        lemma_pow4_pos((n - 1) as nat);
    }
}

/// Powers of four grow monotonically.
pub proof fn lemma_pow4_mono(m: nat, n: nat)
    requires
        m <= n,
    ensures
        pow4(m) <= pow4(n),
    decreases n,
{
    if m < n {
        lemma_pow4_mono(m, (n - 1) as nat);
        lemma_pow4_pos((n - 1) as nat);
    }
}

/// The vertex and index sequences after `n` subdivision passes over the
/// given base mesh data.
pub open spec fn iter_subdivided(v: Seq<Vertex>, ix: Seq<u32>, n: nat) -> (Seq<Vertex>, Seq<u32>)
    decreases n,
{
    if n == 0 {
        (v, ix)
    } else {
        let prev = iter_subdivided(v, ix, (n - 1) as nat);
        (subdivided_vertices(prev.0, prev.1), subdivided_indices(prev.0.len() as int, prev.1))
    }
}

/// Exact growth of a mesh under repeated subdivision: `n` passes over `T`
/// triangles and `V` vertices leave `T * 4^n` triangles and
/// `V + T * (4^n - 1)` vertices.
pub proof fn lemma_iter_subdivided_counts(v: Seq<Vertex>, ix: Seq<u32>, n: nat)
    ensures
        iter_subdivided(v, ix, n).1.len() == ix.len() * pow4(n),
        3 * iter_subdivided(v, ix, n).0.len() == 3 * v.len() + ix.len() * (pow4(n) as int - 1),
    decreases n,
{
    lemma_pow4_pos(n);
    if n > 0 {
        let m = (n - 1) as nat;
        lemma_iter_subdivided_counts(v, ix, m);
        lemma_pow4_pos(m);
        let prev = iter_subdivided(v, ix, m);
        assert(subdivided_vertices(prev.0, prev.1).len() == prev.0.len() + prev.1.len());
        assert(subdivided_indices(prev.0.len() as int, prev.1).len() == 4 * prev.1.len());
        assert(ix.len() * pow4(n) == 4 * (ix.len() * pow4(m))) by (nonlinear_arith)
            requires
                pow4(n) == 4 * pow4(m),
        ;
        assert(3 * v.len() + ix.len() * (pow4(m) as int - 1) + 3 * (ix.len() * pow4(m)) == 3
            * v.len() + ix.len() * (pow4(n) as int - 1)) by (nonlinear_arith)
            requires
                pow4(n) == 4 * pow4(m),
        ;
    }
}

/// Repeated subdivision keeps the index sequence triple-grouped.
pub proof fn lemma_iter_subdivided_triples(v: Seq<Vertex>, ix: Seq<u32>, n: nat)
    requires
        ix.len() % 3 == 0,
    ensures
        iter_subdivided(v, ix, n).1.len() % 3 == 0,
    decreases n,
{
    if n > 0 {
        lemma_iter_subdivided_triples(v, ix, (n - 1) as nat);
    }
}

/// Repeated subdivision keeps the mesh invariant, as long as the final
/// vertex count still fits in a `u32` (`3 V_n <= 3 * u32::MAX` below is
/// the count identity of [`lemma_iter_subdivided_counts`] scaled by 3).
pub proof fn lemma_iter_subdivided_wf(v: Seq<Vertex>, ix: Seq<u32>, n: nat)
    requires
        ix.len() % 3 == 0,
        forall|k: int| 0 <= k < ix.len() ==> (ix[k] as int) < v.len(),
        3 * v.len() + ix.len() * (pow4(n) as int - 1) <= 3 * (u32::MAX as int),
    ensures
        forall|k: int|
            0 <= k < iter_subdivided(v, ix, n).1.len() ==> (iter_subdivided(v, ix, n).1[k] as int)
                < iter_subdivided(v, ix, n).0.len(),
    decreases n,
{
    if n > 0 {
        let m = (n - 1) as nat;
        let prev = iter_subdivided(v, ix, m);
        lemma_iter_subdivided_counts(v, ix, m);
        lemma_iter_subdivided_counts(v, ix, n);
        lemma_pow4_mono(m, n);
        assert(ix.len() * (pow4(m) as int - 1) <= ix.len() * (pow4(n) as int - 1))
            by (nonlinear_arith)
            requires
                pow4(m) <= pow4(n),
        ;
        lemma_iter_subdivided_wf(v, ix, m);
        lemma_iter_subdivided_triples(v, ix, m);
        // The next pass appends prev.1.len() vertices, and the count after
        // it is still within the requested bound.
        assert(ix.len() * pow4(n) == 4 * (ix.len() * pow4(m))) by (nonlinear_arith)
            requires
                pow4(n) == 4 * pow4(m),
        ;
        assert(3 * (prev.0.len() + prev.1.len()) == 3 * v.len() + ix.len() * (pow4(n) as int - 1));
        lemma_subdivided_wf(prev.0, prev.1);
    }
}

/// One subdivision pass turns a mesh with `T` triangles and `V` vertices
/// into one with exactly `4 * T` triangles and `V + 3 * T` vertices.
pub proof fn lemma_subdivision_counts(v: Seq<Vertex>, ix: Seq<u32>)
    requires
        ix.len() % 3 == 0,
    ensures
        subdivided_vertices(v, ix).len() == v.len() + 3 * (ix.len() as int / 3),
        subdivided_indices(v.len() as int, ix).len() == 3 * (4 * (ix.len() as int / 3)),
{
}

/// One subdivision pass keeps the mesh invariant: every rewritten or
/// appended index names either an original vertex or one of the appended
/// midpoint vertices.
pub proof fn lemma_subdivided_wf(v: Seq<Vertex>, ix: Seq<u32>)
    requires
        ix.len() % 3 == 0,
        forall|k: int| 0 <= k < ix.len() ==> (ix[k] as int) < v.len(),
        v.len() + ix.len() <= u32::MAX,
    ensures
        subdivided_indices(v.len() as int, ix).len() % 3 == 0,
        forall|k: int|
            0 <= k < subdivided_indices(v.len() as int, ix).len() ==> (subdivided_indices(
                v.len() as int,
                ix,
            )[k] as int) < subdivided_vertices(v, ix).len(),
{
    let vlen = v.len() as int;
    let t0 = ix.len() as int / 3;
    assert(3 * t0 == ix.len());
    let six = subdivided_indices(vlen, ix);
    assert(six.len() == 4 * ix.len());
    assert forall|k: int| 0 <= k < six.len() implies (six[k] as int) < subdivided_vertices(
        v,
        ix,
    ).len() by {
        assert(subdivided_vertices(v, ix).len() == vlen + ix.len());
        if k < 3 * t0 {
            let t = k / 3;
            let r = k % 3;
            lemma_triple_pos(t, r);
            assert(3 * t + 2 < 3 * t0 || t == t0 - 1 && 3 * t + 2 == 3 * t0 - 1);
            assert(vlen + 3 * t + 2 < vlen + ix.len());
        } else {
            let j = k - 3 * t0;
            let t = j / 9;
            let p = j % 9;
            lemma_nine_pos(t, p);
            assert(j < 9 * t0);
            assert(t < t0);
            assert(vlen + 3 * t + 2 < vlen + ix.len());
            assert(0 <= 3 * t + 1 < ix.len());
            assert(0 <= 3 * t + 2 < ix.len());
        }
    }
}

impl Mesh {
    /// Refines every triangle of the mesh into four.
    ///
    /// For each original triangle `(v0, v1, v2)`, taken in original index
    /// order, the midpoints of its three edges are appended as new
    /// vertices, the triangle's own index triple is rewritten in place to
    /// `(v0, m0, m2)`, and the triples `(m0, v1, m1)`, `(m0, m1, m2)`,
    /// `(m2, m1, v2)` are appended. Triangles appended during the pass are
    /// not revisited. No midpoint deduplication is performed: a shared
    /// edge yields one midpoint vertex per adjacent triangle.
    ///
    /// One pass turns `T` triangles and `V` vertices into exactly `4 * T`
    /// triangles and `V + 3 * T` vertices.
    pub fn subdivide(&mut self)
        requires
            old(self).wf(),
            old(self).vertices@.len() + old(self).indices@.len() <= u32::MAX,
        ensures
            final(self).vertices@ == subdivided_vertices(old(self).vertices@, old(self).indices@),
            final(self).indices@ == subdivided_indices(
                old(self).vertices@.len() as int,
                old(self).indices@,
            ),
            final(self).wf(),
    {
        let ghost old_vs = self.vertices@;
        let ghost old_ix = self.indices@;
        let ghost vlen = self.vertices@.len() as int;
        let num_triangle: usize = self.indices.len() / 3;
        let base_vertex: usize = self.vertices.len();
        proof {
            assert(3 * (num_triangle as int) == old_ix.len());
        }
        let mut i: usize = 0;
        while i < num_triangle
            invariant
                i <= num_triangle,
                3 * (num_triangle as int) == old_ix.len(),
                base_vertex == old_vs.len(),
                vlen == old_vs.len() as int,
                old_vs.len() + old_ix.len() <= u32::MAX,
                forall|k: int| 0 <= k < old_ix.len() ==> (old_ix[k] as int) < old_vs.len(),
                self.vertices@.len() == base_vertex + 3 * i,
                forall|j: int| 0 <= j < base_vertex ==> self.vertices@[j] == old_vs[j],
                forall|k: int|
                    0 <= k < 3 * i ==> self.vertices@[base_vertex + k] == midpoint_row(
                        old_vs,
                        old_ix,
                        k,
                    ),
                self.indices@.len() == old_ix.len() + 9 * i,
                forall|k: int| 3 * i <= k < old_ix.len() ==> self.indices@[k] == old_ix[k],
                forall|k: int|
                    0 <= k < 3 * i ==> self.indices@[k] == subdivided_index_at(vlen, old_ix, k),
                forall|k: int|
                    old_ix.len() <= k < old_ix.len() + 9 * i ==> self.indices@[k]
                        == subdivided_index_at(vlen, old_ix, k),
            decreases num_triangle - i,
        {
            let v0_index: u32 = self.indices[3 * i];
            let v1_index: u32 = self.indices[3 * i + 1];
            let v2_index: u32 = self.indices[3 * i + 2];

            let m0_index: u32 = (self.vertices.len()) as u32;
            let m1_index: u32 = m0_index + 1;
            let m2_index: u32 = m0_index + 2;

            proof {
                assert(v0_index == old_ix[3 * i]);
                assert(v1_index == old_ix[3 * i + 1]);
                assert(v2_index == old_ix[3 * i + 2]);
                assert((old_ix[3 * i] as int) < old_vs.len());
                assert((old_ix[3 * i + 1] as int) < old_vs.len());
                assert((old_ix[3 * i + 2] as int) < old_vs.len());
            }

            let v0 = self.vertices[v0_index as usize];
            let v1 = self.vertices[v1_index as usize];
            let v2 = self.vertices[v2_index as usize];

            let m0 = v0.midpoint(&v1);
            let m1 = v1.midpoint(&v2);
            let m2 = v0.midpoint(&v2);

            proof {
                lemma_triple_pos(i as int, 0);
                lemma_triple_pos(i as int, 1);
                lemma_triple_pos(i as int, 2);
                assert(m0 == midpoint_row(old_vs, old_ix, 3 * i));
                assert(m1 == midpoint_row(old_vs, old_ix, 3 * i + 1));
                assert(m2 == midpoint_row(old_vs, old_ix, 3 * i + 2));
            }

            self.vertices.push(m0);
            self.vertices.push(m1);
            self.vertices.push(m2);

            // Rewrite the current triangle to (v0, m0, m2) in place.
            self.indices[3 * i + 1] = m0_index;
            self.indices[3 * i + 2] = m2_index;

            // Append the three remaining triangles.
            self.indices.push(m0_index);
            self.indices.push(v1_index);
            self.indices.push(m1_index);
            self.indices.push(m0_index);
            self.indices.push(m1_index);
            self.indices.push(m2_index);
            self.indices.push(m2_index);
            self.indices.push(m1_index);
            self.indices.push(v2_index);

            proof {
                let t = i as int;
                lemma_nine_pos(t, 0);
                lemma_nine_pos(t, 1);
                lemma_nine_pos(t, 2);
                lemma_nine_pos(t, 3);
                lemma_nine_pos(t, 4);
                lemma_nine_pos(t, 5);
                lemma_nine_pos(t, 6);
                lemma_nine_pos(t, 7);
                lemma_nine_pos(t, 8);
            }

            i = i + 1;
        }
        proof {
            assert(self.vertices@ =~= subdivided_vertices(old_vs, old_ix));
            assert(self.indices@ =~= subdivided_indices(vlen, old_ix));
            lemma_subdivided_wf(old_vs, old_ix);
        }
    }
}

/// Everything a generator needs to know before running one more
/// subdivision pass on the mesh it has refined `k` times out of `n`: the
/// mesh is well formed, and the vertex count after the pass still fits in
/// a `u32`.
pub proof fn subdivision_step_facts(bv: Seq<Vertex>, bix: Seq<u32>, k: nat, n: nat)
    requires
        k < n,
        bix.len() % 3 == 0,
        forall|j: int| 0 <= j < bix.len() ==> (bix[j] as int) < bv.len(),
        3 * bv.len() + bix.len() * (pow4(n) as int - 1) <= 3 * (u32::MAX as int),
    ensures
        iter_subdivided(bv, bix, k).1.len() % 3 == 0,
        forall|j: int|
            0 <= j < iter_subdivided(bv, bix, k).1.len() ==> (iter_subdivided(bv, bix, k).1[j] as int)
                < iter_subdivided(bv, bix, k).0.len(),
        iter_subdivided(bv, bix, k).0.len() + iter_subdivided(bv, bix, k).1.len() <= u32::MAX,
{
    lemma_pow4_pos(k);
    lemma_pow4_pos(n);
    lemma_pow4_mono(k, n);
    lemma_pow4_mono((k + 1) as nat, n);
    lemma_iter_subdivided_counts(bv, bix, k);
    lemma_iter_subdivided_triples(bv, bix, k);
    assert(bix.len() * (pow4(k) as int - 1) <= bix.len() * (pow4(n) as int - 1))
        by (nonlinear_arith)
        requires
            pow4(k) <= pow4(n),
    ;
    lemma_iter_subdivided_wf(bv, bix, k);
    // The pass appends one midpoint vertex per index, so the count after
    // it is the count at k + 1, which the requested bound still covers.
    assert(bix.len() * pow4((k + 1) as nat) == 4 * (bix.len() * pow4(k))) by (nonlinear_arith)
        requires
            pow4((k + 1) as nat) == 4 * pow4(k),
    ;
    assert(bix.len() * (pow4((k + 1) as nat) as int - 1) <= bix.len() * (pow4(n) as int - 1))
        by (nonlinear_arith)
        requires
            pow4((k + 1) as nat) <= pow4(n),
    ;
    assert(bix.len() * (pow4(k) as int - 1) + 3 * (bix.len() * pow4(k)) == bix.len() * (pow4(
        (k + 1) as nat,
    ) as int - 1)) by (nonlinear_arith)
        requires
            pow4((k + 1) as nat) == 4 * pow4(k),
    ;
    assert(3 * (iter_subdivided(bv, bix, k).0.len() + iter_subdivided(bv, bix, k).1.len()) == 3
        * bv.len() + bix.len() * (pow4((k + 1) as nat) as int - 1));
}

} // verus!

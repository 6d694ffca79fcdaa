//! The vertex attribute record and its midpoint interpolation.
//!
//! A vertex carries a position, a normal, a tangent and a texture
//! coordinate. Every scalar is an IEEE-754 binary32 value held as its `u32`
//! bit pattern (see [`crate::fbits`]). Midpoint averaging is the only
//! attribute-combination rule in the library.

use vstd::prelude::*;

use crate::fbits::{
    add_bits, add_of, div_bits, div_of, is_nan_bits, mul_bits, mul_of, sqrt_bits, sqrt_of,
    ONE_BITS, TWO_BITS,
};

verus! {

/// Three binary32 scalars, each held as its bit pattern.
#[derive(Clone, Copy, Debug, PartialEq, Eq, Structural)]
pub struct Vec3 {
    pub x: u32,
    pub y: u32,
    pub z: u32,
}

/// Two binary32 scalars, each held as its bit pattern.
#[derive(Clone, Copy, Debug, PartialEq, Eq, Structural)]
pub struct Vec2 {
    pub x: u32,
    pub y: u32,
}

/// A fixed-layout vertex attribute record. The field order mirrors the
/// layout described by [`AsVertexPrimitive::desc`]: position, normal,
/// tangent, texture coordinate.
#[derive(Clone, Copy, Debug, PartialEq, Eq, Structural)]
pub struct Vertex {
    pub position: Vec3,
    pub normal: Vec3,
    pub tangent: Vec3,
    pub tex_coord: Vec2,
}

/// The IEEE-754 arithmetic mean of two scalars: their sum divided by two.
pub open spec fn avg_of(a: u32, b: u32) -> u32 {
    div_of(add_of(a, b), TWO_BITS)
}

/// Componentwise arithmetic mean of every attribute of two vertices.
pub open spec fn spec_midpoint(a: Vertex, b: Vertex) -> Vertex {
    Vertex {
        position: Vec3 {
            x: avg_of(a.position.x, b.position.x),
            y: avg_of(a.position.y, b.position.y),
            z: avg_of(a.position.z, b.position.z),
        },
        normal: Vec3 {
            x: avg_of(a.normal.x, b.normal.x),
            y: avg_of(a.normal.y, b.normal.y),
            z: avg_of(a.normal.z, b.normal.z),
        },
        tangent: Vec3 {
            x: avg_of(a.tangent.x, b.tangent.x),
            y: avg_of(a.tangent.y, b.tangent.y),
            z: avg_of(a.tangent.z, b.tangent.z),
        },
        tex_coord: Vec2 {
            x: avg_of(a.tex_coord.x, b.tex_coord.x),
            y: avg_of(a.tex_coord.y, b.tex_coord.y),
        },
    }
}

/// Shorthand for a vertex literal in specifications: the eleven attribute
/// scalars in field order.
pub open spec fn vtx(
    px: u32, py: u32, pz: u32,
    nx: u32, ny: u32, nz: u32,
    tx: u32, ty: u32, tz: u32,
    u: u32, v: u32,
) -> Vertex {
    Vertex {
        position: Vec3 { x: px, y: py, z: pz },
        normal: Vec3 { x: nx, y: ny, z: nz },
        tangent: Vec3 { x: tx, y: ty, z: tz },
        tex_coord: Vec2 { x: u, y: v },
    }
}

/// Shorthand for a position-only vertex literal in specifications: the
/// other attributes are zero, as [`Vertex::from_position`] leaves them.
pub open spec fn pvtx(px: u32, py: u32, pz: u32) -> Vertex {
    vtx(px, py, pz, 0, 0, 0, 0, 0, 0, 0, 0)
}

/// True when no attribute scalar of the vertex is a NaN bit pattern.
pub open spec fn vertex_numeric(v: Vertex) -> bool {
    &&& !is_nan_bits(v.position.x)
    &&& !is_nan_bits(v.position.y)
    &&& !is_nan_bits(v.position.z)
    &&& !is_nan_bits(v.normal.x)
    &&& !is_nan_bits(v.normal.y)
    &&& !is_nan_bits(v.normal.z)
    &&& !is_nan_bits(v.tangent.x)
    &&& !is_nan_bits(v.tangent.y)
    &&& !is_nan_bits(v.tangent.z)
    &&& !is_nan_bits(v.tex_coord.x)
    &&& !is_nan_bits(v.tex_coord.y)
}

/// The magnitude of a vector: the square root of the left-folded sum of
/// the squared components.
pub open spec fn magnitude_of(v: Vec3) -> u32 {
    sqrt_of(add_of(add_of(mul_of(v.x, v.x), mul_of(v.y, v.y)), mul_of(v.z, v.z)))
}

/// A vector scaled by the reciprocal of its magnitude.
pub open spec fn spec_normalized(v: Vec3) -> Vec3 {
    let inv = div_of(ONE_BITS, magnitude_of(v));
    Vec3 { x: mul_of(v.x, inv), y: mul_of(v.y, inv), z: mul_of(v.z, inv) }
}

/// Scales the vector by the reciprocal of its magnitude, yielding a unit
/// vector for any vector of non-zero finite magnitude.
pub fn normalized(v: Vec3) -> (r: Vec3)
    ensures
        r == spec_normalized(v),
{
    let mag: u32 = sqrt_bits(
        add_bits(add_bits(mul_bits(v.x, v.x), mul_bits(v.y, v.y)), mul_bits(v.z, v.z)),
    );
    let inv: u32 = div_bits(ONE_BITS, mag);
    Vec3 { x: mul_bits(v.x, inv), y: mul_bits(v.y, inv), z: mul_bits(v.z, inv) }
}

/// The arithmetic mean of two scalars, `(a + b) / 2.0`. Swapping the
/// operands leaves the result unchanged unless both are NaN.
fn avg(a: u32, b: u32) -> (r: u32)
    ensures
        r == avg_of(a, b),
        !(is_nan_bits(a) && is_nan_bits(b)) ==> r == avg_of(b, a),
{
    div_bits(add_bits(a, b), TWO_BITS)
}

impl Vertex {
    /// Builds a vertex from its eleven attribute scalars, given as bit
    /// patterns in field order.
    pub fn new(
        px: u32, py: u32, pz: u32,
        nx: u32, ny: u32, nz: u32,
        tx: u32, ty: u32, tz: u32,
        u: u32, v: u32,
    ) -> (r: Vertex)
        ensures
            r == (Vertex {
                position: Vec3 { x: px, y: py, z: pz },
                normal: Vec3 { x: nx, y: ny, z: nz },
                tangent: Vec3 { x: tx, y: ty, z: tz },
                tex_coord: Vec2 { x: u, y: v },
            }),
    {
        Vertex {
            position: Vec3 { x: px, y: py, z: pz },
            normal: Vec3 { x: nx, y: ny, z: nz },
            tangent: Vec3 { x: tx, y: ty, z: tz },
            tex_coord: Vec2 { x: u, y: v },
        }
    }

    /// Builds a vertex that carries only a position; the other attributes
    /// are zero. The geodesic-sphere generator starts from such vertices
    /// and fills the rest in during its post-process pass.
    pub fn from_position(px: u32, py: u32, pz: u32) -> (r: Vertex)
        ensures
            r == (Vertex {
                position: Vec3 { x: px, y: py, z: pz },
                normal: Vec3 { x: 0, y: 0, z: 0 },
                tangent: Vec3 { x: 0, y: 0, z: 0 },
                tex_coord: Vec2 { x: 0, y: 0 },
            }),
    {
        Vertex {
            position: Vec3 { x: px, y: py, z: pz },
            normal: Vec3 { x: 0, y: 0, z: 0 },
            tangent: Vec3 { x: 0, y: 0, z: 0 },
            tex_coord: Vec2 { x: 0, y: 0 },
        }
    }

    /// The componentwise arithmetic mean of `self` and `other`.
    ///
    /// Averaging is commutative: as long as no attribute scalar of either
    /// vertex is NaN, swapping the two vertices gives the same result,
    /// bit for bit.
    pub fn midpoint(&self, other: &Vertex) -> (r: Vertex)
        ensures
            r == spec_midpoint(*self, *other),
            vertex_numeric(*self) && vertex_numeric(*other) ==> r == spec_midpoint(
                *other,
                *self,
            ),
    {
        Vertex {
            position: Vec3 {
                x: avg(self.position.x, other.position.x),
                y: avg(self.position.y, other.position.y),
                z: avg(self.position.z, other.position.z),
            },
            normal: Vec3 {
                x: avg(self.normal.x, other.normal.x),
                y: avg(self.normal.y, other.normal.y),
                z: avg(self.normal.z, other.normal.z),
            },
            tangent: Vec3 {
                x: avg(self.tangent.x, other.tangent.x),
                y: avg(self.tangent.y, other.tangent.y),
                z: avg(self.tangent.z, other.tangent.z),
            },
            tex_coord: Vec2 {
                x: avg(self.tex_coord.x, other.tex_coord.x),
                y: avg(self.tex_coord.y, other.tex_coord.y),
            },
        }
    }
}

/// One attribute of the vertex buffer layout: its byte offset, its shader
/// binding slot, and how many binary32 components it has.
#[derive(Clone, Copy, Debug, PartialEq, Eq, Structural)]
pub struct VertexAttribute {
    pub offset: u32,
    pub shader_location: u32,
    pub components: u32,
}

/// The layout of a vertex as raw GPU-uploadable bytes: the stride from one
/// vertex to the next, and the attributes in shader-location order.
pub struct VertexLayout {
    pub array_stride: u32,
    pub attributes: Vec<VertexAttribute>,
}

/// Shorthand for a layout attribute.
pub open spec fn attr(offset: u32, shader_location: u32, components: u32) -> VertexAttribute {
    VertexAttribute { offset, shader_location, components }
}

/// A type whose values can be handed to a rendering pipeline as a tightly
/// packed vertex buffer.
pub trait AsVertexPrimitive {
    /// Describes the buffer layout: position, normal and tangent are three
    /// binary32 components each at offsets 0, 12 and 24; the texture
    /// coordinate is two components at offset 36; the stride is 44 bytes.
    fn desc() -> (layout: VertexLayout)
        ensures
            layout.array_stride == 44,
            layout.attributes@ == seq![attr(0, 0, 3), attr(12, 1, 3), attr(24, 2, 3), attr(
                36,
                3,
                2,
            )],
    ;
}

impl AsVertexPrimitive for Vertex {
    fn desc() -> (layout: VertexLayout)
    {
        let mut attributes: Vec<VertexAttribute> = Vec::new();
        attributes.push(VertexAttribute { offset: 0, shader_location: 0, components: 3 });
        attributes.push(VertexAttribute { offset: 12, shader_location: 1, components: 3 });
        attributes.push(VertexAttribute { offset: 24, shader_location: 2, components: 3 });
        attributes.push(VertexAttribute { offset: 36, shader_location: 3, components: 2 });
        proof {
            assert(attributes@ =~= seq![attr(0, 0, 3), attr(12, 1, 3), attr(24, 2, 3), attr(
                36,
                3,
                2,
            )]);
        }
        VertexLayout { array_stride: 44, attributes }
    }
}

} // verus!

//! Procedural triangle-mesh generation: boxes, UV spheres and geodesic
//! (icosahedron-based) spheres, built as indexed triangle lists with
//! per-vertex position, normal, tangent and texture-coordinate attributes.
//!
//! Scalar attributes are IEEE-754 binary32 values carried as `u32` bit
//! patterns; the floating-point arithmetic itself is delegated to outside
//! crates behind a small set of trusted wrappers in [`fbits`].

pub mod brick;
pub mod fbits;
pub mod geo_sphere;
pub mod mesh;
pub mod sphere;
pub mod timer;
pub mod vertex;

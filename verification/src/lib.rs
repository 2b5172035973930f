//! Triangle meshes with per-vertex shading normals.
//!
//! A mesh is a list of index triples (`SimplicialSurface`) over a shared array
//! of vertex positions; `AttributeMap` pairs the positions with one normal per
//! vertex, derived from the incident triangles in the order in which the
//! surface lists them. All coordinates are IEEE-754 binary32 numbers carried by
//! their bit patterns (`Scalar`), so that every result is stated exactly.

pub mod error;
pub mod scalar;
pub mod math;
pub mod surface;
pub mod normals;
pub mod attributes;
pub mod model;

pub use crate::math::Vec3;
pub use crate::scalar::Scalar;
pub use crate::error::LoadError;
pub use crate::surface::{SimplicialSurface, Triangle};
pub use crate::attributes::AttributeMap;
pub use crate::model::{MeshSource, Model};

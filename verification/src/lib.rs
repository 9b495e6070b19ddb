//! Declarative 3D world loading: a strict, fully diagnosed pipeline that
//! turns a structured text document (spawn point, bounds, placed objects)
//! into a typed world model and a sequence of load/placement instructions
//! for a host scene graph.
//!
//! The document decoding, the transform codec, the error taxonomy and the
//! per-object orchestration are verified; file input and the host engine's
//! scene graph stay outside, behind plain-value interfaces.

pub mod error;
pub mod raw;
pub mod text;
pub mod transform;
pub mod world_format;
pub mod yaml_loader;
pub mod gltf;

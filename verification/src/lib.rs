//! A small ray tracer with a verified core.
//!
//! All scene geometry, shading and tone mapping work on `Fx`, a signed
//! fixed-point scalar with 24 fractional bits, so that every numeric step
//! has an exact, machine-checked contract.  Conversions from and to
//! hardware floating point live outside the library, next to the
//! serialization and image-encoding collaborators.

pub mod camera;
pub mod color;
pub mod fixed;
pub mod helper;
pub mod hitinfo;
pub mod light;
pub mod material;
pub mod raycast_info;
pub mod renderer;
pub mod sampler;
pub mod scene;
pub mod scene_object;
pub mod shape;
pub mod vec3;

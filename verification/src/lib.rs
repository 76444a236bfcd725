//! A CPU ray tracer core: rays generated by a camera are intersected with
//! spheres and planes, the nearest visible hit is selected, and the point is
//! shaded with a single point light under the Phong reflection model.
//!
//! All geometry is carried out in saturating fixed-point arithmetic (see
//! [`fixed`]), so every function in the pipeline has an exact functional
//! contract: the executable result equals a spec-level recomputation.

pub mod fixed;
pub mod tuple;
pub mod color;
pub mod matrix;
pub mod transform;
pub mod ray;
pub mod lights;
pub mod materials;
pub mod shape;
pub mod intersections;
pub mod world;
pub mod camera;

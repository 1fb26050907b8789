//! Exact three-component vector algebra on an integer lattice, and the
//! orthogonal view basis a camera derives from it.

pub mod basis;
pub mod vec3;

pub use basis::ViewBasis;
pub use vec3::{cross, dot, IVec3};

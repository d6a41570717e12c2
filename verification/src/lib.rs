//! Core state and per-frame protocol of a depth-tested, instanced 3D mesh
//! renderer.
//!
//! The crate owns everything about a frame that can be decided ahead of the
//! graphics API: the surface configuration and its resize discipline, the
//! arena of meshes and the instances that reference them by handle, the
//! uniform (view-projection) state, the vertex and instance buffer layouts
//! together with the byte encoding of the data that fills them, and the
//! ordered list of draw calls a frame submits. A thin host shell performs the
//! GPU calls these decisions describe.
//!
//! Scalars destined for the GPU (matrix entries, vertex components) are
//! carried as the 32-bit patterns of their IEEE-754 encodings, so the
//! contracts here speak of exact values end to end.

pub mod bytes;
pub mod frame;
pub mod layout;
pub mod pipeline;
pub mod renderer;
pub mod mesh;
pub mod surface;
pub mod texture;
pub mod transform;
pub mod vertex;

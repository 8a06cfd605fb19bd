//! Host-side mirror of the particles, collision shapes and dynamic triangles
//! that a GPU particle solver consumes, together with the fixed-capacity
//! transfer buffers that carry that state to and from the solver.
//!
//! Every buffer follows a verified map / write / unmap protocol: a write is
//! only accepted while its buffer is mapped, and a store only hands its
//! buffers to the solver once all of them are unmapped again.

pub mod types;
pub mod buffer;
pub mod config;
pub mod helper;
pub mod geometry;
pub mod state;

//! Vertex data as the renderer consumes it.

pub mod framebuffer;
pub mod mesh;
pub mod shader;

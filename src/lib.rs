//! Verified decision logic of a small OpenGL renderer: how the first-person
//! camera moves for each direction, which actions held keys ask for, how
//! mesh textures are named, deduplicated and uploaded, and how vertices are
//! laid out in GPU memory.

pub mod camera;
pub mod input;
pub mod mesh;
pub mod shader;
pub mod texture;

//! Shader playground core: classification of GLSL snippets, the two-mode
//! program build, and the incremental animated-image export.

pub mod source;
pub mod program;
pub mod export;
pub mod workbench;
pub mod offscreen;

//! The shader, material and uniform binding core of a small real-time renderer.
//!
//! The crate assembles shader sources, decides how a linked program's uniforms
//! are located and dispatched, and keeps materials and textures. It never talks
//! to the graphics driver itself: every function that would touch the GPU hands
//! back the calls to make as plain values, and the caller performs them on the
//! thread that owns the graphics context.
//!
//! Single-precision numbers are carried as their IEEE-754 bit patterns.

pub mod error;
pub mod gl_shader_program;
pub mod helpers;
pub mod material;
pub mod program_build;
pub mod shader_program;
pub mod shader_source;
pub mod sync;
pub mod text;
pub mod texture;
pub mod uniform;

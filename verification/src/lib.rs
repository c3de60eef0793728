//! A glyph-cache-backed cell grid renderer for monospaced text.
//!
//! The crate models the GPU as an explicit capability object that records
//! the commands a frame issues and hands out resource handles; a host
//! program executes the recorded commands against a real graphics context.

pub mod cell;
pub mod font;
pub mod glyph;
pub mod gpu;
pub mod shader;

pub use gpu::setup_opengl;

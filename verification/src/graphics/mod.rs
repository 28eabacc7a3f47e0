//! Graphics: screen geometry, colours, scan targets, GPU buffers and the
//! arenas that serve graphics memory.

pub mod buffer;
pub mod display;
pub mod memory;
pub mod shader;
pub mod sync;
pub mod types;
pub mod view;

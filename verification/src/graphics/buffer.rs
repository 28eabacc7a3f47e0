//! GPU buffers: what they are used for, and how many elements they hold.

use vstd::prelude::*;

verus! {

/// Buffers that hold shader programs.
pub struct Shader;

/// Buffers that hold vertex attributes.
pub struct Vertex;

/// Buffers that are scanned out to a screen.
pub struct Scan;

/// Buffers that hold shader program code.
pub struct Program;

/// Buffers that hold recorded GPU commands.
pub struct Command;

/// The element count recorded for a buffer created with room for `capacity`
/// elements (the system keeps it in 32 bits).
pub fn element_count(capacity: usize) -> (r: u32)
    ensures
        r == capacity as u32,
{
    capacity as u32
}

/// The number of elements of a buffer whose recorded element count is `count`.
pub fn buffer_len(count: u32) -> (r: usize)
    ensures
        r == count as usize,
{
    count as usize
}

} // verus!

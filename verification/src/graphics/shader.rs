//! Shader attribute streams, and the table counts of a shader record.

use vstd::prelude::*;

verus! {

/// A vertex attribute stream.
#[derive(Debug, Clone, Copy, PartialEq, Eq, Structural)]
pub enum Stream {
    S0,
    S1,
    S2,
    S3,
    S4,
    S5,
    S6,
    S7,
    S8,
    S9,
    S10,
    S11,
    S12,
    S13,
    S14,
    S15,
}

/// The number of a stream.
pub open spec fn stream_number(s: Stream) -> u32 {
    match s {
        Stream::S0 => 0,
        Stream::S1 => 1,
        Stream::S2 => 2,
        Stream::S3 => 3,
        Stream::S4 => 4,
        Stream::S5 => 5,
        Stream::S6 => 6,
        Stream::S7 => 7,
        Stream::S8 => 8,
        Stream::S9 => 9,
        Stream::S10 => 10,
        Stream::S11 => 11,
        Stream::S12 => 12,
        Stream::S13 => 13,
        Stream::S14 => 14,
        Stream::S15 => 15,
    }
}

impl Stream {
    /// The number of this stream.
    pub fn into_u32(self) -> (r: u32)
        ensures
            r == stream_number(self),
    {
        match self {
            Stream::S0 => 0,
            Stream::S1 => 1,
            Stream::S2 => 2,
            Stream::S3 => 3,
            Stream::S4 => 4,
            Stream::S5 => 5,
            Stream::S6 => 6,
            Stream::S7 => 7,
            Stream::S8 => 8,
            Stream::S9 => 9,
            Stream::S10 => 10,
            Stream::S11 => 11,
            Stream::S12 => 12,
            Stream::S13 => 13,
            Stream::S14 => 14,
            Stream::S15 => 15,
        }
    }
}

/// The counts that a GX2 shader record holds for its tables: each one the
/// table's length as a 32-bit field, as the record stores it.
#[derive(Debug, Clone, Copy, PartialEq, Eq, Structural)]
pub struct ShaderCounts {
    pub num_uniform_blocks: u32,
    pub num_uniforms: u32,
    pub num_initial_values: u32,
    pub num_loops: u32,
    pub num_samplers: u32,
    pub num_attribs: u32,
    pub shader_size: u32,
}

/// The record counts of a shader with tables of the given lengths and a
/// program of `program_len` bytes (a pixel shader has no attribute table:
/// pass 0). Each length is stored in a 32-bit field, keeping its low 32 bits.
pub fn shader_counts(
    uniform_blocks: usize,
    uniform_vars: usize,
    initial_values: usize,
    loop_vars: usize,
    sampler_vars: usize,
    attrib_vars: usize,
    program_len: usize,
) -> (c: ShaderCounts)
    ensures
        c.num_uniform_blocks == uniform_blocks as u32,
        c.num_uniforms == uniform_vars as u32,
        c.num_initial_values == initial_values as u32,
        c.num_loops == loop_vars as u32,
        c.num_samplers == sampler_vars as u32,
        c.num_attribs == attrib_vars as u32,
        c.shader_size == program_len as u32,
{
    ShaderCounts {
        num_uniform_blocks: uniform_blocks as u32,
        num_uniforms: uniform_vars as u32,
        num_initial_values: initial_values as u32,
        num_loops: loop_vars as u32,
        num_samplers: sampler_vars as u32,
        num_attribs: attrib_vars as u32,
        shader_size: program_len as u32,
    }
}

} // verus!

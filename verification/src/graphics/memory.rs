//! Where graphics resources live: the arena that serves a graphics allocation,
//! by the resource flags the graphics library passes along.

use vstd::prelude::*;
use crate::arena::Arena;

verus! {

/// The resource flags that decide the arena of a graphics allocation.
#[derive(Debug, Clone, Copy, PartialEq, Eq, Structural)]
pub struct ResourceFlags {
    pub scan_buffer: bool,
    pub color_buffer: bool,
    pub depth_buffer: bool,
    pub force_mem1: bool,
    pub force_mem2: bool,
}

/// The alignment of scan buffers in the foreground arena.
pub const SCAN_BUFFER_ALIGN: usize = 0x1000;

/// The arena for a graphics resource: scan buffers go to the foreground arena
/// unless both arenas are forced; colour and depth buffers, and anything forced
/// into MEM1, go to MEM1 unless MEM2 is forced; everything else goes to MEM2.
pub open spec fn resource_arena(f: ResourceFlags) -> Arena {
    if f.scan_buffer && !(f.force_mem1 && f.force_mem2) {
        Arena::Foreground
    } else if (f.color_buffer || f.depth_buffer || f.force_mem1) && !f.force_mem2 {
        Arena::Mem1
    } else {
        Arena::Mem2
    }
}

fn arena_for(f: ResourceFlags) -> (r: Arena)
    ensures
        r == resource_arena(f),
{
    if f.scan_buffer && !(f.force_mem1 && f.force_mem2) {
        Arena::Foreground
    } else if (f.color_buffer || f.depth_buffer || f.force_mem1) && !f.force_mem2 {
        Arena::Mem1
    } else {
        Arena::Mem2
    }
}

/// The arena and alignment of a graphics allocation of the given alignment:
/// foreground blocks are page aligned, others keep the requested alignment.
pub fn allocation_target(f: ResourceFlags, align: u32) -> (r: (Arena, usize))
    ensures
        r.0 == resource_arena(f),
        r.0 == Arena::Foreground ==> r.1 == SCAN_BUFFER_ALIGN,
        r.0 != Arena::Foreground ==> r.1 == align as usize,
{
    let arena = arena_for(f);
    match arena {
        Arena::Foreground => (arena, SCAN_BUFFER_ALIGN),
        _ => (arena, align as usize),
    }
}

/// The arena a graphics block is given back to.
pub fn release_target(f: ResourceFlags) -> (r: Arena)
    ensures
        r == resource_arena(f),
{
    arena_for(f)
}

/// A graphics block is given back to the arena it was taken from.
pub proof fn lemma_release_matches_allocation(f: ResourceFlags, taken: Arena, given_back: Arena)
    requires
        taken == resource_arena(f),
        given_back == resource_arena(f),
    ensures
        taken == given_back,
{
}

/// Forcing both arenas sends every resource to MEM2; a scan buffer that is not
/// forced into MEM2 always lives in the foreground arena.
pub proof fn lemma_forced_arenas(f: ResourceFlags)
    ensures
        f.force_mem1 && f.force_mem2 ==> resource_arena(f) == Arena::Mem2,
        f.scan_buffer && !f.force_mem2 ==> resource_arena(f) == Arena::Foreground,
{
}

/// Where each kind of graphics resource lives. Colour and depth buffers that
/// are not scan buffers live in MEM1 unless forced into MEM2; so does anything
/// forced into MEM1 alone. A resource forced into MEM2, or one that is neither
/// a scan, colour nor depth buffer nor forced into MEM1, lives in MEM2 unless
/// it is a scan buffer not forced into both arenas, which lives in the
/// foreground arena.
pub proof fn lemma_resource_routing(f: ResourceFlags)
    ensures
        !f.scan_buffer && f.depth_buffer && !f.force_mem2 ==> resource_arena(f) == Arena::Mem1,
        !f.scan_buffer && f.color_buffer && !f.force_mem2 ==> resource_arena(f) == Arena::Mem1,
        !f.scan_buffer && f.force_mem1 && !f.force_mem2 ==> resource_arena(f) == Arena::Mem1,
        !f.scan_buffer && f.force_mem2 ==> resource_arena(f) == Arena::Mem2,
        !f.scan_buffer && !f.color_buffer && !f.depth_buffer && !f.force_mem1 ==> resource_arena(f)
            == Arena::Mem2,
        f.scan_buffer && !(f.force_mem1 && f.force_mem2) ==> resource_arena(f)
            == Arena::Foreground,
        f.scan_buffer && f.force_mem1 && f.force_mem2 ==> resource_arena(f) == Arena::Mem2,
{
}

} // verus!

//! Memory arenas and the system heaps behind them: which heap call an
//! allocation takes, and what its outcome means.

use vstd::prelude::*;

verus! {

/// A memory arena of the system.
#[derive(Debug, Clone, Copy, PartialEq, Eq, Structural)]
pub enum Arena {
    Mem1,
    Mem2,
    Foreground,
}

/// The kind of heap the system keeps in an arena, by the tag in its header.
#[derive(Debug, Clone, Copy, PartialEq, Eq, Structural)]
pub enum HeapTag {
    ExpandedHeap,
    FrameHeap,
    UnitHeap,
    UserHeap,
    BlockHeap,
}

/// Size and alignment of a requested block.
#[derive(Debug, Clone, Copy, PartialEq, Eq, Structural)]
pub struct Layout {
    pub size: usize,
    pub align: usize,
}

/// Failures of the arena allocators.
#[derive(Debug, Clone, Copy, PartialEq, Eq, Structural)]
pub enum Error {
    /// The arena's heap has a tag the allocator does not handle.
    UnknownHeapTag(HeapTag),
    /// The allocator can no longer allocate memory for the request.
    OutOfMemory(Layout, Arena),
    /// The arena has no heap.
    BaseHandleUnset(Arena),
    /// Recording a heap snapshot failed.
    SnapshotCreationFailed(Arena),
    /// Restoring a heap snapshot failed.
    SnapshotRestoreFailed(Arena),
}

/// The allocation call a heap takes.
#[derive(Debug, Clone, Copy, PartialEq, Eq, Structural)]
pub enum HeapCall {
    Expanded,
    Frame,
}

/// 32 MiB 1T SRAM (Graphics buffers)
pub struct MEM1;

/// 2 GiB DDR3 (General memory)
///
/// Prefer to use the normal global allocator where possible.
pub struct MEM2;

/// 40 MiB foreground bucket (only available if application in foreground)
pub struct FG;

/// An allocator over one arena of the system.
pub trait Allocator {
    /// The arena this allocator draws from.
    spec fn spec_arena() -> Arena;

    fn arena() -> (r: Arena)
        ensures
            r == Self::spec_arena(),
    ;
}

impl Allocator for MEM1 {
    open spec fn spec_arena() -> Arena {
        Arena::Mem1
    }

    fn arena() -> (r: Arena) {
        Arena::Mem1
    }
}

impl Allocator for MEM2 {
    open spec fn spec_arena() -> Arena {
        Arena::Mem2
    }

    fn arena() -> (r: Arena) {
        Arena::Mem2
    }
}

impl Allocator for FG {
    open spec fn spec_arena() -> Arena {
        Arena::Foreground
    }

    fn arena() -> (r: Arena) {
        Arena::Foreground
    }
}

/// The heap of an arena is usable unless the system reports none.
pub fn base_handle_result(is_null: bool, arena: Arena) -> (r: Result<(), Error>)
    ensures
        is_null ==> r == Err::<(), Error>(Error::BaseHandleUnset(arena)),
        !is_null ==> r is Ok,
{
    if is_null {
        Err(Error::BaseHandleUnset(arena))
    } else {
        Ok(())
    }
}

/// The allocation call for a heap: expanded and frame heaps have their own,
/// any other heap is refused.
pub fn heap_call(tag: HeapTag) -> (r: Result<HeapCall, Error>)
    ensures
        tag == HeapTag::ExpandedHeap ==> r == Ok::<HeapCall, Error>(HeapCall::Expanded),
        tag == HeapTag::FrameHeap ==> r == Ok::<HeapCall, Error>(HeapCall::Frame),
        tag != HeapTag::ExpandedHeap && tag != HeapTag::FrameHeap ==> r == Err::<HeapCall, Error>(
            Error::UnknownHeapTag(tag),
        ),
{
    match tag {
        HeapTag::ExpandedHeap => Ok(HeapCall::Expanded),
        HeapTag::FrameHeap => Ok(HeapCall::Frame),
        _ => Err(Error::UnknownHeapTag(tag)),
    }
}

/// The size and alignment arguments of the heap call, in the system's integer
/// types (both truncated to 32 bits).
pub fn heap_arguments(layout: Layout) -> (r: (u32, i32))
    ensures
        r == (layout.size as u32, layout.align as i32),
{
    (layout.size as u32, layout.align as i32)
}

/// An allocation succeeds unless the heap hands back no memory.
pub fn allocation_result(is_null: bool, layout: Layout, arena: Arena) -> (r: Result<(), Error>)
    ensures
        is_null ==> r == Err::<(), Error>(Error::OutOfMemory(layout, arena)),
        !is_null ==> r is Ok,
{
    if is_null {
        Err(Error::OutOfMemory(layout, arena))
    } else {
        Ok(())
    }
}

/// Whether giving a block back to a heap frees it: only expanded heaps free
/// single blocks (frame heaps are released by snapshots).
pub fn frees_blocks(tag: HeapTag) -> (r: bool)
    ensures
        r == (tag == HeapTag::ExpandedHeap),
{
    match tag {
        HeapTag::ExpandedHeap => true,
        _ => false,
    }
}

/// The alignment the default heap is asked for: at least 4 bytes.
pub fn default_heap_align(align: usize) -> (r: usize)
    ensures
        r == (if align < 4 { 4 } else { align }),
{
    if align < 4 {
        4
    } else {
        align
    }
}

/// A recorded state of a frame heap, to return to later.
#[derive(Debug)]
pub struct Snapshot<MEM> {
    tag: u32,
    _marker: core::marker::PhantomData<MEM>,
}

impl<MEM> Snapshot<MEM> {
    /// A snapshot is always recorded under a non-zero tag.
    #[verifier::type_invariant]
    spec fn tag_is_nonzero(self) -> bool {
        self.tag != 0
    }

    /// The tag the state was recorded under.
    pub closed spec fn spec_tag(self) -> u32 {
        self.tag
    }

    /// The tag the state was recorded under; never zero.
    pub fn tag(&self) -> (r: u32)
        ensures
            r == self.spec_tag(),
            r != 0,
    {
        proof {
            use_type_invariant(self);
        }
        self.tag
    }
}

/// The outcome of recording the state of a frame heap under a non-zero `tag`,
/// from the system's answer (non-zero on success).
pub fn record_result<MEM: Allocator>(ret: i32, tag: u32) -> (r: Result<Snapshot<MEM>, Error>)
    requires
        tag != 0,
    ensures
        ret != 0 ==> (r matches Ok(s) && s.spec_tag() == tag),
        ret == 0 ==> (r matches Err(e) && e == Error::SnapshotCreationFailed(MEM::spec_arena())),
{
    if ret != 0 {
        Ok(Snapshot { tag, _marker: core::marker::PhantomData })
    } else {
        Err(Error::SnapshotCreationFailed(MEM::arena()))
    }
}

/// The outcome of returning a frame heap to a recorded state, from the system's
/// answer (non-zero on success).
pub fn restore_result<MEM: Allocator>(ret: i32) -> (r: Result<(), Error>)
    ensures
        ret != 0 ==> r is Ok,
        ret == 0 ==> r == Err::<(), Error>(Error::SnapshotRestoreFailed(MEM::spec_arena())),
{
    if ret != 0 {
        Ok(())
    } else {
        Err(Error::SnapshotRestoreFailed(MEM::arena()))
    }
}

} // verus!

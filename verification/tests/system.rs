use cafe_rs::arena::{
    allocation_result, base_handle_result, default_heap_align, frees_blocks, heap_arguments,
    heap_call, record_result, restore_result, Allocator, Arena, Error, HeapCall, HeapTag, Layout,
    FG, MEM1, MEM2,
};
use cafe_rs::process::release_answer;
use cafe_rs::rrc::Rrc;
use cafe_rs::sync::{try_lock_result, LockError};
use cafe_rs::thread::Core;

#[test]
fn hooks_run_on_first_and_last_reference() {
    let mut r = Rrc::new();
    assert_eq!(r.references(), 0);
    assert!(r.acquire());
    assert!(!r.acquire());
    assert_eq!(r.references(), 2);
    assert!(!r.release());
    assert!(r.release());
    assert_eq!(r.references(), 0);
    // the resource is set up again for the next user
    assert!(r.acquire());
}

#[test]
fn mutex_answers() {
    assert_eq!(try_lock_result(1), Ok(()));
    assert_eq!(try_lock_result(0), Err(LockError::AlreadyLocked));
    assert_eq!(LockError::AlreadyLocked.message(), "The data is already locked elsewhere");
}

#[test]
fn cores() {
    assert_eq!(Core::from_core_id(0), Core::C0);
    assert_eq!(Core::from_core_id(2), Core::C2);
    assert_eq!(Core::try_from_primitive(1), Ok(Core::C1));
    assert_eq!(Core::try_from_primitive(3), Err(3));
    assert_eq!(Core::C2.into_primitive(), 2);
}

#[test]
fn release_callback_answers() {
    assert_eq!(release_answer(true), (0, true));
    assert_eq!(release_answer(false), (1, false));
}

#[test]
fn arenas_of_allocators() {
    assert_eq!(MEM1::arena(), Arena::Mem1);
    assert_eq!(MEM2::arena(), Arena::Mem2);
    assert_eq!(FG::arena(), Arena::Foreground);
}

#[test]
fn heap_calls() {
    assert_eq!(heap_call(HeapTag::ExpandedHeap), Ok(HeapCall::Expanded));
    assert_eq!(heap_call(HeapTag::FrameHeap), Ok(HeapCall::Frame));
    assert_eq!(heap_call(HeapTag::UnitHeap), Err(Error::UnknownHeapTag(HeapTag::UnitHeap)));
    assert!(frees_blocks(HeapTag::ExpandedHeap));
    assert!(!frees_blocks(HeapTag::FrameHeap));
    assert_eq!(heap_arguments(Layout { size: 4096, align: 64 }), (4096, 64));
}

#[test]
fn allocation_outcomes() {
    let l = Layout { size: 16, align: 8 };
    assert_eq!(base_handle_result(true, Arena::Mem1), Err(Error::BaseHandleUnset(Arena::Mem1)));
    assert_eq!(base_handle_result(false, Arena::Mem1), Ok(()));
    assert_eq!(allocation_result(true, l, Arena::Mem2), Err(Error::OutOfMemory(l, Arena::Mem2)));
    assert_eq!(allocation_result(false, l, Arena::Mem2), Ok(()));
    assert_eq!(default_heap_align(1), 4);
    assert_eq!(default_heap_align(16), 16);
}

#[test]
fn snapshots() {
    let s = record_result::<MEM1>(1, 7).unwrap();
    assert_eq!(s.tag(), 7);
    assert_eq!(
        record_result::<FG>(0, 7).map(|s| s.tag()),
        Err(Error::SnapshotCreationFailed(Arena::Foreground))
    );
    assert_eq!(restore_result::<MEM2>(1), Ok(()));
    assert_eq!(restore_result::<MEM2>(0), Err(Error::SnapshotRestoreFailed(Arena::Mem2)));
}

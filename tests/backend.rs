use alloc_system::{
    aligned_malloc_reply, AllocErr, CannotReallocInPlace, Excess, Layout, Native, System,
    MIN_ALIGN,
};

fn layout(size: usize, align: usize) -> Layout {
    Layout::from_size_align(size, align).unwrap()
}

#[test]
fn layout_accepts_powers_of_two() {
    let l = layout(16, 8);
    assert_eq!(l.size(), 16);
    assert_eq!(l.align(), 8);
    assert_eq!(layout(0, 1).size(), 0);
    assert_eq!(layout(5, 4096).align(), 4096);
}

#[test]
fn layout_rejects_bad_alignment() {
    assert!(Layout::from_size_align(16, 0).is_none());
    assert!(Layout::from_size_align(16, 3).is_none());
    assert!(Layout::from_size_align(16, 24).is_none());
}

#[test]
fn layout_rejects_overflowing_size() {
    assert!(Layout::from_size_align(usize::MAX, 2).is_none());
    assert!(Layout::from_size_align(usize::MAX - 7, 16).is_none());
    assert!(Layout::from_size_align(usize::MAX - 15, 16).is_some());
    assert!(Layout::from_size_align(usize::MAX, 1).is_some());
}

#[test]
fn allocate_small_alignment_uses_malloc() {
    let l = layout(16, 8);
    assert_eq!(System.allocate(l), Native::Malloc { size: 16 });
    let r = System.finish_allocate(l, 0x1000).unwrap();
    assert_ne!(r, 0);
    assert_eq!(r % 8, 0);
}

#[test]
fn allocate_large_alignment_uses_aligned_call() {
    let l = layout(64, 64);
    assert!(64 > MIN_ALIGN);
    assert_eq!(
        System.allocate(l),
        Native::AlignedMalloc { align: 64, size: 64 }
    );
    assert_eq!(System.finish_allocate(l, 0x4000), Ok(0x4000));
}

#[test]
fn allocate_at_natural_alignment_uses_malloc() {
    let l = layout(32, MIN_ALIGN);
    assert_eq!(System.allocate(l), Native::Malloc { size: 32 });
}

#[test]
fn allocate_null_reply_is_exhausted() {
    let l = layout(128, 8);
    assert_eq!(
        System.finish_allocate(l, 0),
        Err(AllocErr::Exhausted { request: l })
    );
    let big = layout(128, 256);
    assert_eq!(
        System.finish_allocate(big, 0),
        Err(AllocErr::Exhausted { request: big })
    );
}

#[test]
fn allocate_zeroed_small_alignment_uses_calloc() {
    let l = layout(24, 8);
    assert_eq!(System.allocate_zeroed(l), Native::Calloc { size: 24 });
    let c = System.finish_allocate_zeroed(l, 0x2000);
    assert!(c.steps.is_empty());
    assert_eq!(c.result, Ok(0x2000));
}

#[test]
fn allocate_zeroed_large_alignment_clears_block() {
    let l = layout(100, 32);
    assert_eq!(
        System.allocate_zeroed(l),
        Native::AlignedMalloc { align: 32, size: 100 }
    );
    let c = System.finish_allocate_zeroed(l, 0x3000);
    assert_eq!(c.steps, vec![Native::Zero { ptr: 0x3000, len: 100 }]);
    assert_eq!(c.result, Ok(0x3000));
}

#[test]
fn allocate_zeroed_failure_runs_nothing() {
    let l = layout(100, 32);
    let c = System.finish_allocate_zeroed(l, 0);
    assert!(c.steps.is_empty());
    assert_eq!(c.result, Err(AllocErr::Exhausted { request: l }));
}

#[test]
fn deallocate_frees_any_block() {
    assert_eq!(System.deallocate(0x1000, layout(16, 8)), Native::Free { ptr: 0x1000 });
    assert_eq!(System.deallocate(0x4000, layout(64, 64)), Native::Free { ptr: 0x4000 });
}

#[test]
fn reallocate_alignment_change_is_unsupported() {
    let old = layout(16, 8);
    let new = layout(8, 16);
    let r = System.reallocate(0x1000, old, new);
    assert!(matches!(r, Err(AllocErr::Unsupported { .. })));
    assert_eq!(
        r,
        Err(AllocErr::Unsupported { details: "cannot change alignment on `realloc`" })
    );
    let c = System.finish_reallocate(0x1000, old, new, 0x2000);
    assert!(c.steps.is_empty());
    assert!(matches!(c.result, Err(AllocErr::Unsupported { .. })));
}

#[test]
fn reallocate_small_alignment_uses_realloc() {
    let old = layout(16, 8);
    let new = layout(64, 8);
    assert_eq!(
        System.reallocate(0x1000, old, new),
        Ok(Native::Realloc { ptr: 0x1000, size: 64 })
    );
    let c = System.finish_reallocate(0x1000, old, new, 0x5000);
    assert!(c.steps.is_empty());
    assert_eq!(c.result, Ok(0x5000));
    let failed = System.finish_reallocate(0x1000, old, new, 0);
    assert!(failed.steps.is_empty());
    assert_eq!(failed.result, Err(AllocErr::Exhausted { request: new }));
}

#[test]
fn reallocate_large_alignment_moves_block() {
    let old = layout(100, 64);
    let new = layout(40, 64);
    assert_eq!(
        System.reallocate(0x1000, old, new),
        Ok(Native::AlignedMalloc { align: 64, size: 40 })
    );
    let c = System.finish_reallocate(0x1000, old, new, 0x8000);
    assert_eq!(
        c.steps,
        vec![
            Native::Copy { src: 0x1000, dst: 0x8000, len: 40 },
            Native::Free { ptr: 0x1000 },
        ]
    );
    assert_eq!(c.result, Ok(0x8000));
}

#[test]
fn reallocate_large_alignment_grows_with_old_size() {
    let old = layout(10, 128);
    let new = layout(300, 128);
    let c = System.finish_reallocate(0x1000, old, new, 0x9000);
    assert_eq!(c.steps[0], Native::Copy { src: 0x1000, dst: 0x9000, len: 10 });
    assert_eq!(c.steps[1], Native::Free { ptr: 0x1000 });
}

#[test]
fn reallocate_failed_move_leaves_old_block() {
    let old = layout(100, 64);
    let new = layout(200, 64);
    let c = System.finish_reallocate(0x1000, old, new, 0);
    assert!(c.steps.is_empty());
    assert_eq!(c.result, Err(AllocErr::Exhausted { request: new }));
}

#[test]
fn usable_size_is_requested_size() {
    assert_eq!(System.usable_size(&layout(48, 8)), (48, 48));
    assert_eq!(System.usable_size(&layout(0, 64)), (0, 0));
}

#[test]
fn allocate_excess_reports_usable_size() {
    let l = layout(48, 8);
    assert_eq!(System.finish_allocate_excess(l, 0x1000), Ok(Excess(0x1000, 48)));
    assert_eq!(
        System.finish_allocate_excess(l, 0),
        Err(AllocErr::Exhausted { request: l })
    );
}

#[test]
fn reallocate_excess_reports_new_usable_size() {
    let old = layout(16, 64);
    let new = layout(80, 64);
    let c = System.finish_reallocate_excess(0x1000, old, new, 0x7000);
    assert_eq!(c.result, Ok(Excess(0x7000, 80)));
    assert_eq!(c.steps.len(), 2);
    let bad = System.finish_reallocate_excess(0x1000, old, layout(80, 8), 0x7000);
    assert!(matches!(bad.result, Err(AllocErr::Unsupported { .. })));
}

#[test]
fn grow_in_place_only_within_usable_size() {
    let l = layout(32, 8);
    assert_eq!(System.grow_in_place(0x1000, l, layout(32, 8)), Ok(()));
    assert_eq!(
        System.grow_in_place(0x1000, l, layout(33, 8)),
        Err(CannotReallocInPlace)
    );
    assert_eq!(
        System.grow_in_place(0x1000, l, layout(32, 16)),
        Err(CannotReallocInPlace)
    );
    let big = layout(32, 64);
    assert_eq!(
        System.grow_in_place(0x1000, big, layout(32, 64)),
        Err(CannotReallocInPlace)
    );
}

#[test]
fn shrink_in_place_only_down_to_guaranteed_size() {
    let l = layout(32, 8);
    assert_eq!(System.shrink_in_place(0x1000, l, layout(32, 8)), Ok(()));
    assert_eq!(
        System.shrink_in_place(0x1000, l, layout(16, 8)),
        Err(CannotReallocInPlace)
    );
    assert_eq!(
        System.shrink_in_place(0x1000, layout(32, 64), layout(32, 64)),
        Err(CannotReallocInPlace)
    );
}

#[test]
fn aligned_reply_maps_failure_to_null() {
    assert_eq!(aligned_malloc_reply(0, 0x4000), 0x4000);
    assert_eq!(aligned_malloc_reply(12, 0x4000), 0);
    assert_eq!(aligned_malloc_reply(22, 0), 0);
}

#[test]
fn fatal_line_describes_failure() {
    let l = layout(8, 8);
    let (a, b, c) = AllocErr::Exhausted { request: l }.fatal_line();
    assert_eq!(
        format!("{}{}{}", a, b, c),
        "fatal runtime error: allocator memory exhausted\n"
    );
    let (a, b, c) = AllocErr::Unsupported { details: "x" }.fatal_line();
    assert_eq!(
        format!("{}{}{}", a, b, c),
        "fatal runtime error: unsupported allocator request\n"
    );
    assert_eq!(
        AllocErr::Exhausted { request: l }.description(),
        "allocator memory exhausted"
    );
}

use crate::error::{AllocErr, CannotReallocInPlace, Excess};
use crate::layout::Layout;
use crate::native::{min_nat, Native};
use vstd::prelude::*;

verus! {

/// The alignment that the platform's plain allocation calls (`malloc`,
/// `calloc`, `realloc`) always meet on the 64-bit targets served here.
/// Requests with an alignment up to this value take the fast path.
pub const MIN_ALIGN: usize = 16;

/// The system allocator: a stateless pass-through to the native heap.
#[derive(Clone, Copy, Debug, PartialEq, Eq)]
pub struct System;

/// What is left of a request once its allocating call has replied: the
/// native calls still to run, in order, and the request's result.
#[derive(Debug)]
pub struct Completion<T> {
    pub steps: Vec<Native>,
    pub result: Result<T, AllocErr>,
}

/// The reason given when a reallocation would change the alignment.
pub open spec fn align_change_details() -> &'static str {
    "cannot change alignment on `realloc`"
}

/// Whether `layout` is served by the plain calls, whose natural alignment suffices.
pub open spec fn fast_path(layout: Layout) -> bool {
    layout.align() <= MIN_ALIGN
}

/// The native call that serves an allocation of `layout`.
pub open spec fn alloc_call(layout: Layout) -> Native {
    if fast_path(layout) {
        Native::Malloc { size: layout.size() }
    } else {
        Native::AlignedMalloc { align: layout.align(), size: layout.size() }
    }
}

/// The native call that serves a zeroed allocation of `layout`.
pub open spec fn zeroed_call(layout: Layout) -> Native {
    if fast_path(layout) {
        Native::Calloc { size: layout.size() }
    } else {
        Native::AlignedMalloc { align: layout.align(), size: layout.size() }
    }
}

/// A reply of an allocating call, as a result: null is exhaustion on `request`.
pub open spec fn reply_result(request: Layout, reply: usize) -> Result<usize, AllocErr> {
    if reply == 0 {
        Err(AllocErr::Exhausted { request })
    } else {
        Ok(reply)
    }
}

/// What follows a zeroed allocation's call: only a block that came from the
/// aligned call is cleared, over the whole requested size.
pub open spec fn zeroed_steps(layout: Layout, reply: usize) -> Seq<Native> {
    if reply != 0 && !fast_path(layout) {
        seq![Native::Zero { ptr: reply, len: layout.size() }]
    } else {
        seq![]
    }
}

/// The native call that serves a reallocation, or why there is none.
pub open spec fn realloc_call(ptr: usize, old: Layout, new: Layout) -> Result<Native, AllocErr> {
    if old.align() != new.align() {
        Err(AllocErr::Unsupported { details: align_change_details() })
    } else if fast_path(new) {
        Ok(Native::Realloc { ptr, size: new.size() })
    } else {
        Ok(alloc_call(new))
    }
}

/// The number of bytes a reallocation carries over.
pub open spec fn kept_len(old: Layout, new: Layout) -> nat {
    min_nat(old.size() as nat, new.size() as nat)
}

/// What follows a reallocation's call: a block that came from the aligned
/// call receives the kept bytes, then the old block is released.
pub open spec fn realloc_steps(ptr: usize, old: Layout, new: Layout, reply: usize) -> Seq<Native> {
    if old.align() == new.align() && reply != 0 && !fast_path(new) {
        seq![
            Native::Copy { src: ptr, dst: reply, len: kept_len(old, new) as usize },
            Native::Free { ptr },
        ]
    } else {
        seq![]
    }
}

/// The result of a reallocation whose call replied `reply`.
pub open spec fn realloc_result(old: Layout, new: Layout, reply: usize) -> Result<usize, AllocErr> {
    if old.align() != new.align() {
        Err(AllocErr::Unsupported { details: align_change_details() })
    } else {
        reply_result(new, reply)
    }
}

/// A result with the usable size `usable` attached to its address.
pub open spec fn with_excess(r: Result<usize, AllocErr>, usable: usize) -> Result<Excess, AllocErr> {
    match r {
        Ok(p) => Ok(Excess(p, usable)),
        Err(e) => Err(e),
    }
}

impl System {
    /// The native call that allocates `layout`: `malloc` when the natural
    /// alignment suffices, the aligned call otherwise.
    pub fn allocate(&self, layout: Layout) -> (r: Native)
        ensures
            r == alloc_call(layout),
    {
        if layout.align() <= MIN_ALIGN {
            Native::Malloc { size: layout.size() }
        } else {
            Native::AlignedMalloc { align: layout.align(), size: layout.size() }
        }
    }

    /// The result of an allocation of `layout` whose call replied `reply`.
    pub fn finish_allocate(&self, layout: Layout, reply: usize) -> (r: Result<usize, AllocErr>)
        ensures
            r == reply_result(layout, reply),
    {
        if reply != 0 {
            Ok(reply)
        } else {
            Err(AllocErr::Exhausted { request: layout })
        }
    }

    /// The native call that allocates `layout` zeroed: `calloc` when the
    /// natural alignment suffices, the aligned call otherwise.
    pub fn allocate_zeroed(&self, layout: Layout) -> (r: Native)
        ensures
            r == zeroed_call(layout),
    {
        if layout.align() <= MIN_ALIGN {
            Native::Calloc { size: layout.size() }
        } else {
            self.allocate(layout)
        }
    }

    /// The rest of a zeroed allocation of `layout` whose call replied `reply`.
    pub fn finish_allocate_zeroed(&self, layout: Layout, reply: usize) -> (r: Completion<usize>)
        ensures
            r.steps@ == zeroed_steps(layout, reply),
            r.result == reply_result(layout, reply),
    {
        let result = self.finish_allocate(layout, reply);
        let mut steps: Vec<Native> = Vec::new();
        if layout.align() > MIN_ALIGN {
            if let Ok(ptr) = result {
                steps.push(Native::Zero { ptr, len: layout.size() });
            }
        }
        proof {
            assert(steps@ =~= zeroed_steps(layout, reply));
        }
        Completion { steps, result }
    }

    /// The native call that releases the block at `ptr`, allocated with
    /// `layout`: every block, aligned or not, goes back through `free`.
    pub fn deallocate(&self, ptr: usize, layout: Layout) -> (r: Native)
        ensures
            r == (Native::Free { ptr }),
    {
        Native::Free { ptr }
    }

    /// The native call that resizes the block at `ptr` from `old_layout` to
    /// `new_layout`; a change of alignment is refused.
    pub fn reallocate(&self, ptr: usize, old_layout: Layout, new_layout: Layout) -> (r: Result<
        Native,
        AllocErr,
    >)
        ensures
            r == realloc_call(ptr, old_layout, new_layout),
    {
        if old_layout.align() != new_layout.align() {
            return Err(AllocErr::Unsupported { details: "cannot change alignment on `realloc`" });
        }
        if new_layout.align() <= MIN_ALIGN {
            Ok(Native::Realloc { ptr, size: new_layout.size() })
        } else {
            Ok(self.allocate(new_layout))
        }
    }

    /// The rest of a reallocation of the block at `ptr` whose call replied
    /// `reply`. A null reply leaves the old block as it was; a change of
    /// alignment stays refused whatever the reply.
    pub fn finish_reallocate(&self, ptr: usize, old_layout: Layout, new_layout: Layout, reply: usize) -> (r:
        Completion<usize>)
        ensures
            r.steps@ == realloc_steps(ptr, old_layout, new_layout, reply),
            r.result == realloc_result(old_layout, new_layout, reply),
    {
        let mut steps: Vec<Native> = Vec::new();
        if old_layout.align() != new_layout.align() {
            return Completion {
                steps,
                result: Err(AllocErr::Unsupported { details: "cannot change alignment on `realloc`" }),
            };
        }
        let result = self.finish_allocate(new_layout, reply);
        if new_layout.align() > MIN_ALIGN {
            if let Ok(new_ptr) = result {
                let len = if old_layout.size() <= new_layout.size() {
                    old_layout.size()
                } else {
                    new_layout.size()
                };
                steps.push(Native::Copy { src: ptr, dst: new_ptr, len });
                steps.push(self.deallocate(ptr, old_layout));
            }
        }
        proof {
            assert(steps@ =~= realloc_steps(ptr, old_layout, new_layout, reply));
        }
        Completion { steps, result }
    }

    /// The bytes usable in a block allocated with `layout`, as (guaranteed,
    /// possible): the native allocator's size classes are not probed.
    pub fn usable_size(&self, layout: &Layout) -> (r: (usize, usize))
        ensures
            r == (layout.size(), layout.size()),
    {
        (layout.size(), layout.size())
    }

    /// The result of `allocate(layout)` whose call replied `reply`, with the
    /// usable size.
    pub fn finish_allocate_excess(&self, layout: Layout, reply: usize) -> (r: Result<Excess, AllocErr>)
        ensures
            r == with_excess(reply_result(layout, reply), layout.size()),
    {
        let usable = self.usable_size(&layout);
        match self.finish_allocate(layout, reply) {
            Ok(ptr) => Ok(Excess(ptr, usable.1)),
            Err(e) => Err(e),
        }
    }

    /// The rest of `reallocate` whose call replied `reply`, with the usable
    /// size of the new block.
    pub fn finish_reallocate_excess(
        &self,
        ptr: usize,
        old_layout: Layout,
        new_layout: Layout,
        reply: usize,
    ) -> (r: Completion<Excess>)
        ensures
            r.steps@ == realloc_steps(ptr, old_layout, new_layout, reply),
            r.result == with_excess(
                realloc_result(old_layout, new_layout, reply),
                new_layout.size(),
            ),
    {
        let usable = self.usable_size(&new_layout);
        let done = self.finish_reallocate(ptr, old_layout, new_layout, reply);
        let result = match done.result {
            Ok(p) => Ok(Excess(p, usable.1)),
            Err(e) => Err(e),
        };
        Completion { steps: done.steps, result }
    }

    /// Whether the block at `ptr` may grow from `layout` to `new_layout`
    /// without moving: only within the natural alignment, with the alignment
    /// kept, and within the usable size.
    pub fn grow_in_place(&self, ptr: usize, layout: Layout, new_layout: Layout) -> (r: Result<
        (),
        CannotReallocInPlace,
    >)
        ensures
            r is Ok <==> (layout.align() == new_layout.align() && fast_path(new_layout)
                && new_layout.size() <= layout.size()),
    {
        if layout.align() != new_layout.align() || new_layout.align() > MIN_ALIGN {
            return Err(CannotReallocInPlace);
        }
        let (_guaranteed, possible) = self.usable_size(&layout);
        if new_layout.size() <= possible {
            Ok(())
        } else {
            Err(CannotReallocInPlace)
        }
    }

    /// Whether the block at `ptr` may shrink from `layout` to `new_layout`
    /// without moving: only within the natural alignment, with the alignment
    /// kept, and not below the guaranteed usable size.
    pub fn shrink_in_place(&self, ptr: usize, layout: Layout, new_layout: Layout) -> (r: Result<
        (),
        CannotReallocInPlace,
    >)
        ensures
            r is Ok <==> (layout.align() == new_layout.align() && fast_path(new_layout)
                && layout.size() <= new_layout.size()),
    {
        if layout.align() != new_layout.align() || new_layout.align() > MIN_ALIGN {
            return Err(CannotReallocInPlace);
        }
        let (guaranteed, _possible) = self.usable_size(&layout);
        if guaranteed <= new_layout.size() {
            Ok(())
        } else {
            Err(CannotReallocInPlace)
        }
    }
}

/// The reply of an aligned allocation from what `posix_memalign` gave back:
/// its status and the address it stored. A failing status is a null reply.
pub fn aligned_malloc_reply(status: i32, out: usize) -> (r: usize)
    ensures
        r == (if status != 0 {
            0
        } else {
            out
        }),
{
    if status != 0 {
        0
    } else {
        out
    }
}

} // verus!

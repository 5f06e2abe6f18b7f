//! What holds of every run of the backend against any native heap that keeps
//! the platform's guarantees (`native_ok`).
use crate::error::AllocErr;
use crate::layout::Layout;
use crate::native::{effect, native_ok, run, zeros, Heap, Native};
use crate::system::{
    align_change_details, alloc_call, kept_len, realloc_call, realloc_result, realloc_steps,
    reply_result, zeroed_call, zeroed_steps, MIN_ALIGN,
};
use vstd::arithmetic::div_mod::{lemma_fundamental_div_mod, lemma_mod_multiples_basic};
use vstd::arithmetic::power2::is_pow2;
use vstd::prelude::*;

verus! {

/// A power of two divides every larger power of two.
pub proof fn lemma_pow2_divides(a: int, b: int)
    requires
        is_pow2(a),
        is_pow2(b),
        a <= b,
    ensures
        b % a == 0,
    decreases a,
{
    reveal(is_pow2);
    if a == 1 {
        assert(b % 1 == 0);
    } else {
        lemma_pow2_divides(a / 2, b / 2);
        lemma_fundamental_div_mod(b / 2, a / 2);
        let k = (b / 2) / (a / 2);
        assert(b == k * a) by (nonlinear_arith)
            requires
                b / 2 == (a / 2) * k + (b / 2) % (a / 2),
                (b / 2) % (a / 2) == 0,
                b % 2 == 0,
                a % 2 == 0,
        ;
        lemma_mod_multiples_basic(k, a);
    }
}

/// An address aligned to a power of two is aligned to every smaller one.
pub proof fn lemma_aligned_to_smaller(p: int, a: int, b: int)
    requires
        p >= 0,
        is_pow2(a),
        is_pow2(b),
        a <= b,
        p % b == 0,
    ensures
        p % a == 0,
{
    reveal(is_pow2);
    lemma_pow2_divides(a, b);
    lemma_fundamental_div_mod(p, b);
    lemma_fundamental_div_mod(b, a);
    let x = p / b;
    let y = b / a;
    assert(p == (x * y) * a) by (nonlinear_arith)
        requires
            p == b * x,
            b == a * y,
    ;
    lemma_mod_multiples_basic(x * y, a);
}

/// The natural alignment is a power of two.
pub proof fn lemma_min_align_pow2()
    ensures
        is_pow2(MIN_ALIGN as int),
{
    reveal(is_pow2);
    assert(is_pow2(1));
    assert(is_pow2(2));
    assert(is_pow2(4));
    assert(is_pow2(8));
    assert(is_pow2(16));
}

/// A block from the plain calls, aligned to the natural alignment, meets
/// every layout that takes the fast path; a block from the aligned call meets
/// its own alignment.
proof fn lemma_call_meets_align(layout: Layout, reply: usize)
    requires
        layout.wf(),
        layout.align() <= MIN_ALIGN ==> reply % MIN_ALIGN == 0,
        layout.align() > MIN_ALIGN ==> reply % layout.align() == 0,
    ensures
        reply % layout.align() == 0,
{
    if layout.align() <= MIN_ALIGN {
        lemma_min_align_pow2();
        lemma_aligned_to_smaller(reply as int, layout.align() as int, MIN_ALIGN as int);
    }
}

/// An allocation either yields a new block of exactly the requested size at
/// an address aligned as requested, with every other block untouched, or
/// fails as exhausted on that very layout with the heap unchanged.
pub proof fn lemma_allocate_aligned_or_exhausted(layout: Layout, h: Heap, reply: usize, h2: Heap)
    requires
        layout.wf(),
        native_ok(MIN_ALIGN, h, alloc_call(layout), reply, h2),
    ensures
        match reply_result(layout, reply) {
            Ok(p) => {
                &&& p != 0
                &&& p % layout.align() == 0
                &&& !h.contains_key(p as int)
                &&& h2 == h.insert(p as int, h2[p as int])
                &&& h2[p as int].len() == layout.size()
            },
            Err(e) => e == (AllocErr::Exhausted { request: layout }) && h2 == h,
        },
{
    if reply != 0 {
        lemma_call_meets_align(layout, reply);
    }
}

/// Releasing a block right after allocating it gives back the heap as it was
/// before: the address is free to be handed out again.
pub proof fn lemma_deallocate_after_allocate(layout: Layout, h: Heap, reply: usize, h2: Heap)
    requires
        layout.wf(),
        native_ok(MIN_ALIGN, h, alloc_call(layout), reply, h2),
        reply_result(layout, reply) is Ok,
    ensures
        effect(h2, Native::Free { ptr: reply }) == h,
        !h.contains_key(reply as int),
{
    assert(effect(h2, Native::Free { ptr: reply }) =~= h);
}

/// A zeroed allocation either yields a new block of the requested size whose
/// bytes are all zero, at an address aligned as requested, or fails as
/// exhausted with the heap unchanged.
pub proof fn lemma_allocate_zeroed_is_zero(layout: Layout, h: Heap, reply: usize, h1: Heap)
    requires
        layout.wf(),
        native_ok(MIN_ALIGN, h, zeroed_call(layout), reply, h1),
    ensures
        match reply_result(layout, reply) {
            Ok(p) => {
                &&& p % layout.align() == 0
                &&& !h.contains_key(p as int)
                &&& run(h1, zeroed_steps(layout, reply)) == h.insert(
                    p as int,
                    zeros(layout.size() as nat),
                )
            },
            Err(e) => {
                &&& e == (AllocErr::Exhausted { request: layout })
                &&& zeroed_steps(layout, reply).len() == 0
                &&& h1 == h
            },
        },
{
    let steps = zeroed_steps(layout, reply);
    if reply != 0 {
        lemma_call_meets_align(layout, reply);
        if layout.align() > MIN_ALIGN {
            let h2 = effect(h1, steps[0]);
            assert(steps.skip(1) =~= Seq::<Native>::empty());
            assert(run(h1, steps) == run(h2, steps.skip(1)));
            assert(h1[reply as int].skip(layout.size() as int) =~= Seq::<u8>::empty());
            assert(zeros(layout.size() as nat) + h1[reply as int].skip(layout.size() as int)
                =~= zeros(layout.size() as nat));
            assert(h2 =~= h.insert(reply as int, zeros(layout.size() as nat)));
        } else {
            assert(h1 =~= h.insert(reply as int, zeros(layout.size() as nat)));
        }
    }
}

/// A reallocation that keeps the alignment and succeeds yields a block of the
/// new size, aligned as requested, that starts with the first
/// `min(old size, new size)` bytes of the old block; the old block is gone
/// and every other block is untouched.
pub proof fn lemma_reallocate_keeps_prefix(
    ptr: usize,
    old: Layout,
    new: Layout,
    h: Heap,
    reply: usize,
    h1: Heap,
)
    requires
        old.wf(),
        new.wf(),
        old.align() == new.align(),
        h.contains_key(ptr as int),
        h[ptr as int].len() == old.size(),
        native_ok(MIN_ALIGN, h, realloc_call(ptr, old, new)->Ok_0, reply, h1),
        realloc_result(old, new, reply) is Ok,
    ensures
        ({
            let p = reply as int;
            let k = kept_len(old, new) as int;
            let h2 = run(h1, realloc_steps(ptr, old, new, reply));
            &&& reply % new.align() == 0
            &&& h2.contains_key(p)
            &&& h2[p].len() == new.size()
            &&& h2[p].take(k) == h[ptr as int].take(k)
            &&& h2.remove(p) == h.remove(ptr as int)
        }),
{
    let p = reply as int;
    let k = kept_len(old, new) as int;
    let steps = realloc_steps(ptr, old, new, reply);
    lemma_call_meets_align(new, reply);
    if new.align() <= MIN_ALIGN {
        assert(h1.remove(p) =~= h.remove(ptr as int));
    } else {
        let h2 = effect(h1, steps[0]);
        let h3 = effect(h2, steps[1]);
        assert(steps.skip(1) =~= seq![Native::Free { ptr }]);
        assert(steps.skip(1).skip(1) =~= Seq::<Native>::empty());
        assert(run(h1, steps) == run(h2, steps.skip(1)));
        assert(run(h2, steps.skip(1)) == run(h3, steps.skip(1).skip(1)));
        assert(p != ptr as int);
        assert(h1[ptr as int] == h[ptr as int]);
        assert(h3[p].take(k) =~= h[ptr as int].take(k));
        assert(h3.remove(p) =~= h.remove(ptr as int));
    }
}

/// A reallocation that keeps the alignment and fails leaves the old block in
/// place with its bytes, and the whole heap as it was: no step follows.
pub proof fn lemma_reallocate_failure_leaves_block(
    ptr: usize,
    old: Layout,
    new: Layout,
    h: Heap,
    reply: usize,
    h1: Heap,
)
    requires
        old.wf(),
        new.wf(),
        old.align() == new.align(),
        h.contains_key(ptr as int),
        native_ok(MIN_ALIGN, h, realloc_call(ptr, old, new)->Ok_0, reply, h1),
        realloc_result(old, new, reply) is Err,
    ensures
        realloc_result(old, new, reply) == Err::<usize, AllocErr>(
            AllocErr::Exhausted { request: new },
        ),
        realloc_steps(ptr, old, new, reply).len() == 0,
        run(h1, realloc_steps(ptr, old, new, reply)) == h,
{
}

/// A reallocation that would change the alignment is refused as unsupported
/// before any native call, so the block stays as it was.
pub proof fn lemma_reallocate_rejects_align_change(ptr: usize, old: Layout, new: Layout, reply: usize)
    requires
        old.align() != new.align(),
    ensures
        realloc_call(ptr, old, new) == Err::<Native, AllocErr>(
            AllocErr::Unsupported { details: align_change_details() },
        ),
        realloc_result(old, new, reply) == Err::<usize, AllocErr>(
            AllocErr::Unsupported { details: align_change_details() },
        ),
        realloc_steps(ptr, old, new, reply).len() == 0,
{
}

} // verus!

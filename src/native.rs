use vstd::prelude::*;

verus! {

/// One call of a native heap primitive. Addresses are plain integers, with 0
/// standing for the null pointer.
#[derive(Clone, Copy, Debug, PartialEq, Eq)]
pub enum Native {
    /// `malloc(size)`: uninitialised bytes, aligned to the natural alignment.
    Malloc { size: usize },
    /// `calloc(size, 1)`: zeroed bytes, aligned to the natural alignment.
    Calloc { size: usize },
    /// An aligned allocation (`posix_memalign`) of `size` bytes at a multiple of `align`.
    AlignedMalloc { align: usize, size: usize },
    /// `realloc(ptr, size)`: a block of `size` bytes that starts with the old
    /// block's bytes, at the natural alignment.
    Realloc { ptr: usize, size: usize },
    /// Writes `len` zero bytes at `ptr`.
    Zero { ptr: usize, len: usize },
    /// Copies `len` bytes from `src` to `dst`; the ranges do not overlap.
    Copy { src: usize, dst: usize, len: usize },
    /// `free(ptr)`.
    Free { ptr: usize },
}

/// The live blocks of the native heap: each block's address and its bytes.
pub type Heap = Map<int, Seq<u8>>;

pub open spec fn zeros(n: nat) -> Seq<u8> {
    Seq::new(n, |i: int| 0u8)
}

pub open spec fn min_nat(a: nat, b: nat) -> nat {
    if a <= b {
        a
    } else {
        b
    }
}

/// An allocating primitive that replied `reply` to a request for `size` bytes
/// at a multiple of `align`: on null the heap is as it was; otherwise a new
/// block of `size` bytes stands at a suitably aligned address that was free.
pub open spec fn fresh_block(h: Heap, reply: usize, size: usize, align: usize, h2: Heap) -> bool {
    if reply == 0 {
        h2 == h
    } else {
        &&& reply % align == 0
        &&& !h.contains_key(reply as int)
        &&& h2 == h.insert(reply as int, h2[reply as int])
        &&& h2[reply as int].len() == size
    }
}

/// What the platform guarantees of one native call: made on heap `h`, it
/// replied `reply` and left heap `h2`. `natural` is the alignment that the
/// platform's plain allocation calls always meet.
pub open spec fn native_ok(natural: usize, h: Heap, call: Native, reply: usize, h2: Heap) -> bool {
    match call {
        Native::Malloc { size } => fresh_block(h, reply, size, natural, h2),
        Native::Calloc { size } => {
            &&& fresh_block(h, reply, size, natural, h2)
            &&& reply != 0 ==> h2[reply as int] == zeros(size as nat)
        },
        Native::AlignedMalloc { align, size } => fresh_block(h, reply, size, align, h2),
        Native::Realloc { ptr, size } => if reply == 0 {
            h2 == h
        } else {
            let kept = min_nat(h[ptr as int].len(), size as nat) as int;
            &&& reply % natural == 0
            &&& reply == ptr || !h.contains_key(reply as int)
            &&& h2 == h.remove(ptr as int).insert(reply as int, h2[reply as int])
            &&& h2[reply as int].len() == size
            &&& h2[reply as int].take(kept) == h[ptr as int].take(kept)
        },
        _ => h2 == effect(h, call),
    }
}

/// What a call that allocates nothing does to the heap.
pub open spec fn effect(h: Heap, call: Native) -> Heap {
    match call {
        Native::Zero { ptr, len } => h.insert(
            ptr as int,
            zeros(len as nat) + h[ptr as int].skip(len as int),
        ),
        Native::Copy { src, dst, len } => h.insert(
            dst as int,
            h[src as int].take(len as int) + h[dst as int].skip(len as int),
        ),
        Native::Free { ptr } => h.remove(ptr as int),
        _ => h,
    }
}

/// The heap after `calls` have run in turn from `h`.
pub open spec fn run(h: Heap, calls: Seq<Native>) -> Heap
    decreases calls.len(),
{
    if calls.len() == 0 {
        h
    } else {
        run(effect(h, calls[0]), calls.skip(1))
    }
}

} // verus!

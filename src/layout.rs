use vstd::arithmetic::power2::is_pow2;
use vstd::prelude::*;

verus! {

/// Whether `n` is a power of two, by repeated halving.
pub fn is_power_of_two(n: usize) -> (r: bool)
    ensures
        r == is_pow2(n as int),
{
    reveal(is_pow2);
    if n == 0 {
        return false;
    }
    let mut a: usize = n;
    while a % 2 == 0
        invariant
            a >= 1,
            is_pow2(a as int) == is_pow2(n as int),
        decreases a,
    {
        proof {
            reveal(is_pow2);
        }
        a = a / 2;
    }
    a == 1
}

/// The size and alignment of one memory request.
///
/// The alignment is a power of two, and the size rounded up to the alignment
/// still fits in a `usize`.
#[derive(Clone, Copy, Debug, PartialEq, Eq)]
pub struct Layout {
    size: usize,
    align: usize,
}

impl Layout {
    #[verifier::type_invariant]
    spec fn valid(self) -> bool {
        &&& is_pow2(self.align as int)
        &&& self.size + self.align - 1 <= usize::MAX
    }

    pub closed spec fn spec_size(&self) -> usize {
        self.size
    }

    pub closed spec fn spec_align(&self) -> usize {
        self.align
    }

    /// The layout of `size` bytes aligned to `align`, if `align` is a power of
    /// two and `size` rounded up to it does not overflow.
    pub fn from_size_align(size: usize, align: usize) -> (r: Option<Layout>)
        ensures
            r is Some <==> (is_pow2(align as int) && size + align - 1 <= usize::MAX),
            r matches Some(l) ==> l.size() == size && l.align() == align,
    {
        if !is_power_of_two(align) {
            return None;
        }
        proof {
            reveal(is_pow2);
        }
        if size > usize::MAX - (align - 1) {
            return None;
        }
        Some(Layout { size, align })
    }

    #[verifier::when_used_as_spec(spec_size)]
    pub fn size(&self) -> (r: usize)
        ensures
            r == self.spec_size(),
    {
        self.size
    }

    #[verifier::when_used_as_spec(spec_align)]
    pub fn align(&self) -> (r: usize)
        ensures
            r == self.spec_align(),
    {
        self.align
    }

    /// What every layout satisfies: a power-of-two alignment, and a size that
    /// rounded up to the alignment fits in a `usize`.
    pub open spec fn wf(&self) -> bool {
        &&& is_pow2(self.spec_align() as int)
        &&& self.spec_size() + self.spec_align() - 1 <= usize::MAX
    }
}

} // verus!

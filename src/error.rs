use crate::layout::Layout;
use vstd::prelude::*;

verus! {

/// Why an allocator request failed.
#[derive(Clone, Copy, Debug, PartialEq, Eq)]
pub enum AllocErr {
    /// No memory satisfying `request` could be obtained from the platform.
    Exhausted { request: Layout },
    /// The request cannot be carried out by this backend.
    Unsupported { details: &'static str },
}

/// An in-place resize cannot be guaranteed; the caller falls back to a
/// reallocation.
#[derive(Clone, Copy, Debug, PartialEq, Eq)]
pub struct CannotReallocInPlace;

/// A block's address together with the number of bytes usable at it.
#[derive(Clone, Copy, Debug, PartialEq, Eq)]
pub struct Excess(pub usize, pub usize);

pub open spec fn exhausted_text() -> Seq<char> {
    "allocator memory exhausted"@
}

pub open spec fn unsupported_text() -> Seq<char> {
    "unsupported allocator request"@
}

pub open spec fn fatal_prefix() -> Seq<char> {
    "fatal runtime error: "@
}

impl AllocErr {
    pub open spec fn spec_description(&self) -> Seq<char> {
        match self {
            AllocErr::Exhausted { .. } => exhausted_text(),
            AllocErr::Unsupported { .. } => unsupported_text(),
        }
    }

    /// A short description of the kind of failure.
    pub fn description(&self) -> (r: &'static str)
        ensures
            r@ == self.spec_description(),
    {
        match self {
            AllocErr::Exhausted { .. } => "allocator memory exhausted",
            AllocErr::Unsupported { .. } => "unsupported allocator request",
        }
    }

    /// The line written to the error stream before the process is terminated
    /// on this failure, in three static pieces so that writing it needs no
    /// allocation.
    pub fn fatal_line(&self) -> (r: (&'static str, &'static str, &'static str))
        ensures
            r.0@ == fatal_prefix(),
            r.1@ == self.spec_description(),
            r.2@ == "\n"@,
    {
        ("fatal runtime error: ", self.description(), "\n")
    }
}

} // verus!

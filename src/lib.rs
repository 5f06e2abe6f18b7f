//! A system allocator backend: it decides, for each request, which native heap
//! primitive serves it, how the primitive's reply becomes a result, and which
//! follow-up steps (zero-filling, copying, releasing) complete the request.
//! The primitives themselves are run by the caller, which hands their replies
//! back; `laws` proves what every such run achieves on a heap that keeps the
//! platform's guarantees.

pub mod error;
pub mod laws;
pub mod layout;
pub mod native;
pub mod system;

pub use error::{AllocErr, CannotReallocInPlace, Excess};
pub use layout::Layout;
pub use native::Native;
pub use system::{aligned_malloc_reply, Completion, System, MIN_ALIGN};

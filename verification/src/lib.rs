//! Shared-ownership handles with the payload's type erased, and views into
//! the allocation that such a handle keeps alive.

pub mod erased_arc;
pub mod erased_ptr;
pub mod lifecycle;
pub mod prc;
pub mod sync;

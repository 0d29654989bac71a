//! The erased pointer: an address and the metadata of an unsized referent.

use vstd::prelude::*;

verus! {

/// A pointer with its referent's type erased: the address and, for an
/// unsized referent, the metadata that completes it (the element count of a
/// slice, the dispatch table of a trait object). A thin pointer has `meta == 0`.
///
/// The value carries no behaviour: it is never followed by this library, only
/// stored, compared and handed back.
#[derive(Clone, Copy, Debug, PartialEq, Eq, Structural)]
pub struct TypeErasedPtr {
    pub addr: usize,
    pub meta: usize,
}

impl TypeErasedPtr {
    /// The erased pointer made of `addr` and `meta`.
    pub fn new(addr: usize, meta: usize) -> (p: Self)
        ensures
            p == (TypeErasedPtr { addr, meta }),
    {
        TypeErasedPtr { addr, meta }
    }

    /// The erased form of a thin pointer: the address alone.
    pub fn thin(addr: usize) -> (p: Self)
        ensures
            p == (TypeErasedPtr { addr, meta: 0 }),
    {
        TypeErasedPtr { addr, meta: 0 }
    }

    /// The address.
    pub fn addr(&self) -> (a: usize)
        ensures
            a == self.addr,
    {
        self.addr
    }

    /// The metadata; 0 for a thin pointer.
    pub fn meta(&self) -> (m: usize)
        ensures
            m == self.meta,
    {
        self.meta
    }
}

} // verus!

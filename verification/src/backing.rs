//! The tagged backing store.
//!
//! A contiguous byte region together with who currently owns freeing it.
//! Carrying the ownership tag explicitly — never a bare pointer — is what
//! lets every deallocation decision in the protocol be checked: a region is
//! released exactly once, by exactly one side.

use vstd::prelude::*;

verus! {

/// Who is responsible for freeing a region at this moment.
#[derive(Clone, Copy, Debug, PartialEq, Eq, Structural)]
pub enum Origin {
    /// Native code allocated it and owns freeing it (a vector's storage).
    NativeOwned,
    /// The host runtime owns it; the collector frees it.
    VmOwned,
    /// Borrowed caller memory: the caller owns freeing it and asks to be
    /// notified when the host is done with it.
    Unowned,
}

/// A contiguous byte region: its model address, its bytes, the size of the
/// allocation they live in, and its ownership tag.
pub struct BackingStore {
    /// Model address of the region; null only for empty regions.
    pub addr: usize,
    /// The region's bytes; the length of the region is their count.
    pub bytes: Vec<u8>,
    /// Size of the allocation, at least the length.
    pub capacity: usize,
    pub origin: Origin,
}

impl BackingStore {
    pub open spec fn wf(self) -> bool {
        self.bytes@.len() <= self.capacity
    }

    pub open spec fn len(self) -> nat {
        self.bytes@.len()
    }

    /// A store over a native vector's storage.
    pub fn from_vec(data: Vec<u8>, addr: usize) -> (s: BackingStore)
        ensures
            s.wf(),
            s.addr == addr,
            s.bytes@ == data@,
            s.capacity == data@.len(),
            s.origin is NativeOwned,
    {
        let capacity = data.len();
        BackingStore { addr, bytes: data, capacity, origin: Origin::NativeOwned }
    }

    /// A store over borrowed caller memory with a notify obligation.
    pub fn from_borrowed(bytes: Vec<u8>, addr: usize) -> (s: BackingStore)
        ensures
            s.wf(),
            s.addr == addr,
            s.bytes@ == bytes@,
            s.capacity == bytes@.len(),
            s.origin is Unowned,
    {
        let capacity = bytes.len();
        BackingStore { addr, bytes, capacity, origin: Origin::Unowned }
    }
}

} // verus!

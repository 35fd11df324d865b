//! The backing-pointer registry.
//!
//! Debug builds of the binding layer track the set of pointers that currently
//! back a live external buffer. No two live external buffers may share the
//! same non-null backing pointer: handing one region to the host twice leads
//! to a double free when both finalizers fire, so a duplicate registration is
//! detected here immediately instead of corrupting memory later. The registry
//! is an explicit value handed to the binding layer, not ambient global
//! state, so its behaviour is part of every contract that touches it.

use crate::error::BufferError;
use std::collections::HashSet;
use vstd::prelude::*;

verus! {

broadcast use vstd::std_specs::hash::group_hash_axioms;

/// The set of addresses currently backing a live external buffer.
///
/// The null address is never a member: zero-length buffers use it and are
/// exempt from aliasing detection.
pub struct PointerRegistry {
    entries: HashSet<usize>,
}

impl View for PointerRegistry {
    type V = Set<usize>;

    closed spec fn view(&self) -> Set<usize> {
        self.entries@
    }
}

impl PointerRegistry {
    /// An empty registry.
    pub fn new() -> (r: PointerRegistry)
        ensures
            r@ == Set::<usize>::empty(),
    {
        PointerRegistry { entries: HashSet::new() }
    }

    /// Whether `ptr` currently backs a live external buffer.
    pub fn contains(&self, ptr: usize) -> (b: bool)
        ensures
            b == self@.contains(ptr),
    {
        self.entries.contains(&ptr)
    }

    /// How many pointers are registered.
    pub fn len(&self) -> (n: usize)
        ensures
            n == self@.len(),
    {
        self.entries.len()
    }
}

/// Record that `ptr` now backs a live external buffer.
///
/// The null address is ignored: zero-length buffers use it. Registering an
/// address that is already live is the aliasing error this registry exists to
/// catch; the registry is left unchanged and the caller must treat the error
/// as fatal.
pub fn register_backing_ptr(reg: &mut PointerRegistry, ptr: usize) -> (r: Result<
    (),
    BufferError,
>)
    ensures
        ptr == 0 ==> r == Ok::<(), BufferError>(()) && final(reg)@ == old(reg)@,
        ptr != 0 && !old(reg)@.contains(ptr) ==> r == Ok::<(), BufferError>(()) && final(reg)@
            == old(reg)@.insert(ptr),
        ptr != 0 && old(reg)@.contains(ptr) ==> r == Err::<(), BufferError>(
            BufferError::AliasedPointer,
        ) && final(reg)@ == old(reg)@,
{
    if ptr == 0 {
        return Ok(());
    }
    if reg.entries.insert(ptr) {
        Ok(())
    } else {
        Err(BufferError::AliasedPointer)
    }
}

/// Record that `ptr` no longer backs a live external buffer.
///
/// Finalizers call this before the native region is freed, so the same
/// address may legally back a new buffer afterwards.
pub fn unregister_backing_ptr(reg: &mut PointerRegistry, ptr: usize)
    ensures
        final(reg)@ == old(reg)@.remove(ptr),
{
    reg.entries.remove(&ptr);
}

} // verus!

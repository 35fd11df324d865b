//! The backing store protocol: zero-copy binding with copy fallback.
//!
//! Given native-owned or borrowed memory, decide and record whether the
//! native side or the host now owns deallocation. The host is offered the
//! region zero-copy; if it refuses externally backed buffers, a host-owned
//! copy of identical contents is made and the native region is destroyed at
//! once — the one recoverable refusal, invisible to callers. Zero-length
//! regions never reach the zero-copy path at all: they become host-owned
//! empty buffers, so no null pointer is ever bound and no registry entry is
//! created for them.

use crate::backing::{BackingStore, Origin};
use crate::error::BufferError;
use crate::host::{FinalizerDuty, TryBindOutcome, VmEnv};
use vstd::prelude::*;

verus! {

/// How a region ended up host-visible.
pub enum BindOutcome {
    /// The host adopted the native region; ownership transferred to the
    /// host, whose finalizer will release it. The native side must not
    /// free it.
    ZeroCopy(usize),
    /// The host holds a copy; the native region was destroyed before this
    /// was returned. For borrowed regions, the caller's notify callback
    /// must be invoked now — before the handle is ever observed — since
    /// the host never took ownership of the original pointer.
    Copied(usize),
}

/// Inputs the protocol refuses outright: a null pointer for a non-empty
/// region, or a region aliasing the process's sentinel empty-vector
/// address.
pub open spec fn rejects_region(env: VmEnv, addr: usize, len: nat) -> bool {
    (len > 0 && addr == 0) || addr == env.sentinel_addr
}

/// The finalizer duty a store's ownership tag calls for: borrowed regions
/// carry a notify obligation, native vectors are rebuilt and freed.
pub open spec fn duty_of(store: BackingStore) -> FinalizerDuty {
    FinalizerDuty::ReleaseNative {
        len: store.bytes@.len() as usize,
        capacity: store.capacity,
        notify: store.origin is Unowned,
    }
}

/// What a copy into the host leaves behind: one new host-owned buffer with
/// the given contents, with accounting, registry, and references untouched.
pub open spec fn copied_to_host(
    pre: VmEnv,
    post: VmEnv,
    h: usize,
    contents: Seq<u8>,
    node_buffer: bool,
) -> bool {
    &&& VmEnv::objects_pushed(pre, post, h)
    &&& post.is_buffer_handle(h)
    &&& VmEnv::owned_buffer(post.buffer_at(h), contents, node_buffer)
    &&& post.heap_external == pre.heap_external
    &&& post.registry@ == pre.registry@
    &&& post.refs@ == pre.refs@
    &&& post.next_addr == pre.next_addr
    &&& VmEnv::same_host_caps(pre, post)
}

/// Hand a native region to the host, transferring or destroying it.
///
/// On `ZeroCopy` the host owns the region, its pointer is registered, and
/// heap accounting is charged with exactly the region's length. On
/// `Copied` the host owns a fresh copy of identical contents and the
/// native region has been destroyed; accounting and registry are untouched.
/// Binding a pointer that already backs a live external buffer is the
/// aliasing error; the caller must treat it as fatal.
pub fn bind_external(env: &mut VmEnv, store: BackingStore, node_buffer: bool) -> (r: Result<
    BindOutcome,
    BufferError,
>)
    requires
        old(env).wf(),
        store.wf(),
        !(store.origin is VmOwned),
        store.addr < usize::MAX,
        old(env).heap_external + store.bytes@.len() <= i64::MAX,
        old(env).objects@.len() < usize::MAX,
    ensures
        final(env).wf(),
        ({
            let len = store.bytes@.len();
            let addr = store.addr;
            &&& rejects_region(*old(env), addr, len) ==> r == Err::<BindOutcome, BufferError>(
                BufferError::InvalidArgument,
            ) && VmEnv::unchanged(*old(env), *final(env))
            &&& !rejects_region(*old(env), addr, len) && len == 0 ==> (r matches Ok(
                BindOutcome::Copied(h),
            ) && copied_to_host(*old(env), *final(env), h, store.bytes@, node_buffer))
            &&& !rejects_region(*old(env), addr, len) && len > 0 && old(env).allows_external && !old(env).registry@.contains(addr) ==> (r matches Ok(BindOutcome::ZeroCopy(h))
                && VmEnv::zero_copy_bound(
                *old(env),
                *final(env),
                h,
                addr,
                store.bytes@,
                duty_of(store),
                node_buffer,
            ))
            &&& !rejects_region(*old(env), addr, len) && len > 0 && old(env).allows_external && old(env).registry@.contains(addr) ==> r == Err::<BindOutcome, BufferError>(
                BufferError::AliasedPointer,
            ) && VmEnv::unchanged(*old(env), *final(env))
            &&& !rejects_region(*old(env), addr, len) && len > 0 && !old(env).allows_external ==> (
            r matches Ok(BindOutcome::Copied(h)) && copied_to_host(
                *old(env),
                *final(env),
                h,
                store.bytes@,
                node_buffer,
            ))
        }),
{
    let len = store.bytes.len();
    if (len > 0 && store.addr == 0) || store.addr == env.sentinel_addr {
        return Err(BufferError::InvalidArgument);
    }
    if len == 0 {
        let h = env.create_owned_copy(&store.bytes, node_buffer);
        return Ok(BindOutcome::Copied(h));
    }
    let notify = matches!(store.origin, Origin::Unowned);
    let duty = FinalizerDuty::ReleaseNative { len, capacity: store.capacity, notify };
    let addr = store.addr;
    match env.try_bind_external(addr, store.bytes, duty, node_buffer) {
        TryBindOutcome::Adopted(h) => Ok(BindOutcome::ZeroCopy(h)),
        TryBindOutcome::Refused(bytes) => {
            let h = env.create_owned_copy(&bytes, node_buffer);
            Ok(BindOutcome::Copied(h))
        },
        TryBindOutcome::Aliased => Err(BufferError::AliasedPointer),
    }
}

/// Always copy: a host-owned buffer with the same bytes, used where
/// zero-copy was never attempted.
pub fn copy_into_host(env: &mut VmEnv, bytes: &Vec<u8>, node_buffer: bool) -> (h: usize)
    requires
        old(env).wf(),
        old(env).objects@.len() < usize::MAX,
    ensures
        final(env).wf(),
        copied_to_host(*old(env), *final(env), h, bytes@, node_buffer),
{
    env.create_owned_copy(bytes, node_buffer)
}

} // verus!

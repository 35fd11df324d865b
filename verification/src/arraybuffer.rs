//! The host ArrayBuffer wrapper.
//!
//! A call-scoped view of a host ArrayBuffer object: no finalizer and no
//! reference count, because the host keeps the object alive for the
//! duration of the call that produced it. Constructors are the
//! external-binding creators for plain byte regions; every one of them
//! leaves the new buffer's contents equal to the caller's bytes, whichever
//! path — zero-copy or fallback copy — was taken.

use crate::backing::BackingStore;
use crate::bind::{bind_external, copied_to_host, copy_into_host, BindOutcome};
use crate::error::BufferError;
use crate::host::VmEnv;
use vstd::prelude::*;

verus! {

/// A host ArrayBuffer and its byte length.
#[derive(Clone, Copy)]
pub struct ArrayBuffer {
    pub handle: usize,
    pub len: usize,
}

impl ArrayBuffer {
    /// The handle denotes an ArrayBuffer object of this environment.
    pub open spec fn valid(self, env: VmEnv) -> bool {
        &&& env.is_buffer_handle(self.handle)
        &&& !env.buffer_at(self.handle).node_buffer
    }

    /// The buffer is valid, bound, not detached, and this view's length is
    /// its length.
    pub open spec fn live(self, env: VmEnv) -> bool {
        &&& self.valid(env)
        &&& env.buffer_at(self.handle).phase is Bound
        &&& !env.buffer_at(self.handle).detached
        &&& self.len == env.buffer_at(self.handle).bytes@.len()
    }

    /// Create an ArrayBuffer from a native vector, zero-copy where the
    /// host allows it.
    ///
    /// The vector's storage is offered to the host; on refusal a host-owned
    /// copy is made and the vector is destroyed here. Either way the new
    /// buffer holds exactly the vector's bytes. Empty vectors become
    /// host-owned empty buffers: no pointer is bound and no registry entry
    /// is made.
    pub fn from_data(env: &mut VmEnv, data: Vec<u8>) -> (r: (ArrayBuffer, BindOutcome))
        requires
            old(env).wf(),
            old(env).heap_external + data@.len() <= i64::MAX,
            old(env).objects@.len() < usize::MAX,
            old(env).next_addr < usize::MAX,
        ensures
            final(env).wf(),
            r.0.live(*final(env)),
            r.0.len == data@.len(),
            final(env).buffer_at(r.0.handle).bytes@ == data@,
            VmEnv::objects_pushed(*old(env), *final(env), r.0.handle),
            final(env).refs@ == old(env).refs@,
            VmEnv::same_host_caps(*old(env), *final(env)),
            ({
                let pre = *old(env);
                let post = *final(env);
                &&& data@.len() > 0 && pre.allows_external ==> {
                    &&& r.1 is ZeroCopy
                    &&& post.heap_external == pre.heap_external + data@.len()
                    &&& post.registry@ == pre.registry@.insert(pre.next_addr)
                    &&& post.buffer_at(r.0.handle).external
                    &&& post.buffer_at(r.0.handle).addr == pre.next_addr
                }
                &&& data@.len() == 0 || !pre.allows_external ==> {
                    &&& r.1 is Copied
                    &&& post.heap_external == pre.heap_external
                    &&& post.registry@ == pre.registry@
                    &&& !post.buffer_at(r.0.handle).external
                }
            }),
    {
        let len = data.len();
        let addr = env.alloc_addr();
        let store = BackingStore::from_vec(data, addr);
        match bind_external(env, store, false) {
            Ok(BindOutcome::ZeroCopy(h)) => (ArrayBuffer { handle: h, len }, BindOutcome::ZeroCopy(h)),
            Ok(BindOutcome::Copied(h)) => (ArrayBuffer { handle: h, len }, BindOutcome::Copied(h)),
            Err(_) => {
                proof {
                    assert(false);
                }
                (ArrayBuffer { handle: 0, len: 0 }, BindOutcome::Copied(0))
            },
        }
    }

    /// Create an ArrayBuffer over borrowed caller memory.
    ///
    /// A null or sentinel-valued pointer is refused as `InvalidArgument`.
    /// On `ZeroCopy` the host adopted the region and will notify the caller
    /// from its finalizer; on `Copied` the host never took the region, so
    /// the caller's notify callback must be run as soon as this returns —
    /// before the handle is used. Binding a pointer that already backs a
    /// live buffer is the fatal aliasing error.
    pub fn from_external(env: &mut VmEnv, addr: usize, bytes: Vec<u8>) -> (r: Result<
        (ArrayBuffer, BindOutcome),
        BufferError,
    >)
        requires
            old(env).wf(),
            addr < usize::MAX,
            old(env).heap_external + bytes@.len() <= i64::MAX,
            old(env).objects@.len() < usize::MAX,
        ensures
            final(env).wf(),
            ({
                let pre = *old(env);
                let post = *final(env);
                &&& addr == 0 || addr == pre.sentinel_addr ==> r == Err::<
                    (ArrayBuffer, BindOutcome),
                    BufferError,
                >(BufferError::InvalidArgument) && VmEnv::unchanged(pre, post)
                &&& addr != 0 && addr != pre.sentinel_addr && bytes@.len() > 0
                    && pre.allows_external && pre.registry@.contains(addr) ==> r == Err::<
                    (ArrayBuffer, BindOutcome),
                    BufferError,
                >(BufferError::AliasedPointer) && VmEnv::unchanged(pre, post)
                &&& addr != 0 && addr != pre.sentinel_addr && !(bytes@.len() > 0
                    && pre.allows_external && pre.registry@.contains(addr)) ==> (r matches Ok(ab)
                    && {
                    &&& ab.0.live(post)
                    &&& ab.0.len == bytes@.len()
                    &&& post.buffer_at(ab.0.handle).bytes@ == bytes@
                    &&& VmEnv::objects_pushed(pre, post, ab.0.handle)
                    &&& post.refs@ == pre.refs@
                    &&& VmEnv::same_host_caps(pre, post)
                    &&& bytes@.len() > 0 && pre.allows_external ==> {
                        &&& ab.1 is ZeroCopy
                        &&& post.heap_external == pre.heap_external + bytes@.len()
                        &&& post.registry@ == pre.registry@.insert(addr)
                    }
                    &&& bytes@.len() == 0 || !pre.allows_external ==> {
                        &&& ab.1 is Copied
                        &&& post.heap_external == pre.heap_external
                        &&& post.registry@ == pre.registry@
                    }
                })
            }),
    {
        if addr == 0 || addr == env.sentinel_addr {
            return Err(BufferError::InvalidArgument);
        }
        let len = bytes.len();
        let store = BackingStore::from_borrowed(bytes, addr);
        match bind_external(env, store, false) {
            Ok(BindOutcome::ZeroCopy(h)) => Ok(
                (ArrayBuffer { handle: h, len }, BindOutcome::ZeroCopy(h)),
            ),
            Ok(BindOutcome::Copied(h)) => Ok(
                (ArrayBuffer { handle: h, len }, BindOutcome::Copied(h)),
            ),
            Err(e) => Err(e),
        }
    }

    /// Copy bytes into a fresh host-owned ArrayBuffer; zero-copy is never
    /// attempted.
    pub fn copy_from(env: &mut VmEnv, data: &Vec<u8>) -> (ab: ArrayBuffer)
        requires
            old(env).wf(),
            old(env).objects@.len() < usize::MAX,
        ensures
            final(env).wf(),
            ab.live(*final(env)),
            ab.len == data@.len(),
            copied_to_host(*old(env), *final(env), ab.handle, data@, false),
    {
        let len = data.len();
        let h = copy_into_host(env, data, false);
        ArrayBuffer { handle: h, len }
    }

    /// Wrap an incoming host value, reading its length back
    /// (`read_buffer_info`). Fails with `InvalidArgument` when the handle
    /// is not an ArrayBuffer.
    pub fn from_value(env: &VmEnv, handle: usize) -> (r: Result<ArrayBuffer, BufferError>)
        ensures
            (env.is_buffer_handle(handle) && !env.buffer_at(handle).node_buffer) <==> (r matches Ok(
                ab,
            ) && ab.handle == handle && ab.len == env.buffer_at(handle).bytes@.len()),
            !(env.is_buffer_handle(handle) && !env.buffer_at(handle).node_buffer) ==> r == Err::<
                ArrayBuffer,
                BufferError,
            >(BufferError::InvalidArgument),
    {
        if !env.is_typed_array(handle) && handle < env.objects_len() && !env.is_node_buffer(handle)
        {
            let len = env.buffer_len(handle);
            Ok(ArrayBuffer { handle, len })
        } else {
            Err(BufferError::InvalidArgument)
        }
    }

    /// Read one byte through the view.
    pub fn read_byte(&self, env: &VmEnv, i: usize) -> (v: u8)
        requires
            self.live(*env),
            i < self.len,
        ensures
            v == env.buffer_at(self.handle).bytes@[i as int],
    {
        env.buffer_read(self.handle, i)
    }

    /// Write one byte through the view; the underlying host buffer sees
    /// the mutation at once, as the region is shared.
    pub fn write_byte(&self, env: &mut VmEnv, i: usize, v: u8)
        requires
            old(env).wf(),
            self.live(*old(env)),
            i < self.len,
        ensures
            final(env).wf(),
            self.live(*final(env)),
            VmEnv::objects_updated(*old(env), *final(env), self.handle),
            final(env).buffer_at(self.handle).bytes@ == old(env).buffer_at(
                self.handle,
            ).bytes@.update(i as int, v),
            final(env).heap_external == old(env).heap_external,
            final(env).registry@ == old(env).registry@,
            final(env).refs@ == old(env).refs@,
            VmEnv::same_host_caps(*old(env), *final(env)),
    {
        env.buffer_write(self.handle, i, v);
    }

    /// Read the whole region back into native memory.
    pub fn to_vec(&self, env: &VmEnv) -> (r: Vec<u8>)
        requires
            self.live(*env),
        ensures
            r@ == env.buffer_at(self.handle).bytes@,
            r@.len() == self.len,
    {
        env.buffer_to_vec(self.handle)
    }

    /// Detach the buffer. The host detaches only externally backed, still
    /// bound buffers.
    pub fn detach(self, env: &mut VmEnv) -> (r: Result<(), BufferError>)
        requires
            old(env).wf(),
        ensures
            final(env).wf(),
            ({
                let ok = old(env).is_buffer_handle(self.handle) && old(env).buffer_at(
                    self.handle,
                ).external && old(env).buffer_at(self.handle).phase is Bound;
                &&& ok <==> r == Ok::<(), BufferError>(())
                &&& !ok ==> r == Err::<(), BufferError>(BufferError::InvalidArgument)
                    && VmEnv::unchanged(*old(env), *final(env))
                &&& ok ==> final(env).buffer_at(self.handle).detached && final(env).buffer_at(
                    self.handle,
                ).bytes@.len() == 0 && VmEnv::objects_updated(*old(env), *final(env), self.handle)
                    && final(env).heap_external == old(env).heap_external && final(env).registry@
                    == old(env).registry@ && final(env).refs@ == old(env).refs@
            }),
    {
        env.detach_buffer(self.handle)
    }

    /// Whether the buffer has been detached.
    pub fn is_detached(&self, env: &VmEnv) -> (r: Result<bool, BufferError>)
        ensures
            env.is_buffer_handle(self.handle) <==> r == Ok::<bool, BufferError>(
                env.buffer_at(self.handle).detached,
            ),
            !env.is_buffer_handle(self.handle) ==> r == Err::<bool, BufferError>(
                BufferError::InvalidArgument,
            ),
    {
        env.buffer_is_detached(self.handle)
    }
}

} // verus!

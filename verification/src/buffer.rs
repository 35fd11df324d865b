//! The long-lived, reference-counted Buffer handle.
//!
//! A byte buffer that can outlive the native call that produced it. It is
//! either native memory that never touched the host's collector — released
//! directly, the fast path — or a persistent reference to a host Buffer
//! object. The two cases are an explicit tagged variant, so which side owns
//! cleanup is always visible. Releasing is an explicit, verified operation:
//! Rust's implicit drop cannot carry a contract, and the release decision
//! depends on the thread and the host, so the embedder drives it and learns
//! which path was taken.

use crate::backing::BackingStore;
use crate::bind::{bind_external, BindOutcome};
use crate::error::BufferError;
use crate::host::{ExecContext, RefState, VmEnv, VmRef};
use vstd::prelude::*;

verus! {

/// Where a buffer's bytes live and who must release them.
pub enum BufferSource {
    /// Native memory; the native side frees it, the host knows nothing of
    /// it.
    Native { data: Vec<u8>, capacity: usize },
    /// A persistent reference keeping a host Buffer object alive.
    Referenced { ref_id: usize, len: usize },
}

/// A byte buffer that survives past the current native call.
pub struct Buffer {
    pub source: BufferSource,
}

/// What releasing a Buffer did.
#[derive(Clone, Copy, Debug, PartialEq, Eq, Structural)]
pub enum ReleaseOutcome {
    /// Native memory was freed directly; the host was not involved.
    FreedNative,
    /// Other holders of the same reference remain; nothing further.
    StillShared,
    /// The count reached zero on the environment's thread: the reference
    /// was deleted at once.
    DeletedNow,
    /// The count reached zero off the environment's thread: deletion was
    /// queued for the host to run when it next can.
    DeletionQueued,
    /// The count reached zero off-thread after the deletion channel was
    /// torn down: the reference is abandoned, and the host's own teardown
    /// reclaims it.
    Abandoned,
}

impl Buffer {
    pub open spec fn is_native(self) -> bool {
        self.source is Native
    }

    pub open spec fn native_bytes(self) -> Seq<u8> {
        self.source->Native_data@
    }

    pub open spec fn ref_id(self) -> usize {
        self.source->Referenced_ref_id
    }

    pub open spec fn spec_len(self) -> nat {
        match self.source {
            BufferSource::Native { data, .. } => data@.len(),
            BufferSource::Referenced { len, .. } => len as nat,
        }
    }

    /// The handle is in a coherent state with respect to `env`: a native
    /// buffer is always coherent; a referenced one holds a live reference,
    /// with at least this holder counted, to a bound host Buffer object of
    /// the remembered length.
    pub open spec fn valid(self, env: VmEnv) -> bool {
        match self.source {
            BufferSource::Native { data, capacity } => data@.len() <= capacity,
            BufferSource::Referenced { ref_id, len } => {
                &&& env.is_ref(ref_id)
                &&& env.ref_at(ref_id).state is Live
                &&& env.ref_at(ref_id).count >= 1
                &&& env.is_buffer_handle(env.ref_at(ref_id).target)
                &&& env.buffer_at(env.ref_at(ref_id).target).node_buffer
                &&& env.buffer_at(env.ref_at(ref_id).target).phase is Bound
                &&& env.buffer_at(env.ref_at(ref_id).target).bytes@.len() == len
            },
        }
    }

    /// The bytes this handle denotes.
    pub open spec fn contents(self, env: VmEnv) -> Seq<u8> {
        match self.source {
            BufferSource::Native { data, .. } => data@,
            BufferSource::Referenced { ref_id, .. } => env.buffer_at(
                env.ref_at(ref_id).target,
            ).bytes@,
        }
    }

    /// Take ownership of a native vector; the host is not involved until
    /// the buffer is moved to it.
    pub fn from_vec(data: Vec<u8>) -> (b: Buffer)
        ensures
            b.is_native(),
            b.native_bytes() == data@,
            b.spec_len() == data@.len(),
            forall|env: VmEnv| b.valid(env),
    {
        let capacity = data.len();
        Buffer { source: BufferSource::Native { data, capacity } }
    }

    /// Byte length.
    pub fn len(&self) -> (n: usize)
        ensures
            n == self.spec_len(),
    {
        match &self.source {
            BufferSource::Native { data, .. } => data.len(),
            BufferSource::Referenced { len, .. } => *len,
        }
    }

    /// Wrap an incoming host value, acquiring one persistent reference
    /// (initial count 1) so the object survives past this call. Fails with
    /// `InvalidArgument` when the handle is not a host Buffer.
    pub fn from_value(env: &mut VmEnv, handle: usize) -> (r: Result<Buffer, BufferError>)
        requires
            old(env).wf(),
            old(env).refs@.len() < usize::MAX,
        ensures
            final(env).wf(),
            ({
                let ok = old(env).is_buffer_handle(handle) && old(env).buffer_at(
                    handle,
                ).node_buffer;
                &&& !ok ==> r == Err::<Buffer, BufferError>(BufferError::InvalidArgument)
                    && VmEnv::unchanged(*old(env), *final(env))
                &&& ok ==> (r matches Ok(b) && {
                    &&& b.source matches BufferSource::Referenced { ref_id, len } && ref_id == old(env).refs@.len() && len == old(env).buffer_at(handle).bytes@.len()
                    &&& final(env).refs@ == old(env).refs@.push(
                        VmRef { target: handle, count: 1, state: RefState::Live },
                    )
                    &&& old(env).buffer_at(handle).phase is Bound ==> b.valid(*final(env))
                    &&& final(env).objects@ == old(env).objects@
                    &&& final(env).heap_external == old(env).heap_external
                    &&& final(env).registry@ == old(env).registry@
                    &&& final(env).next_addr == old(env).next_addr
                    &&& VmEnv::same_host_caps(*old(env), *final(env))
                })
            }),
    {
        if !env.is_node_buffer(handle) {
            return Err(BufferError::InvalidArgument);
        }
        let len = env.buffer_len(handle);
        let ref_id = env.create_reference(handle, 1);
        Ok(Buffer { source: BufferSource::Referenced { ref_id, len } })
    }

    /// Another holder of the same buffer. A native buffer is deep-copied;
    /// a referenced one has its reference count incremented and shares the
    /// reference, so the host object is kept alive until the last holder
    /// releases it.
    pub fn duplicate(&self, env: &mut VmEnv) -> (b: Buffer)
        requires
            old(env).wf(),
            self.valid(*old(env)),
            self.source matches BufferSource::Referenced { ref_id, .. } ==> old(env).ref_at(
                ref_id,
            ).count < u32::MAX,
        ensures
            final(env).wf(),
            b.valid(*final(env)),
            self.valid(*final(env)),
            b.spec_len() == self.spec_len(),
            b.contents(*final(env)) == self.contents(*old(env)),
            self.is_native() ==> b.is_native() && b.native_bytes() == self.native_bytes()
                && VmEnv::unchanged(*old(env), *final(env)),
            !self.is_native() ==> {
                &&& b.source == self.source
                &&& VmEnv::refs_updated(*old(env), *final(env), self.ref_id())
                &&& final(env).ref_at(self.ref_id()) == (VmRef {
                    count: (old(env).ref_at(self.ref_id()).count + 1) as u32,
                    ..old(env).ref_at(self.ref_id())
                })
                &&& final(env).objects@ == old(env).objects@
                &&& final(env).heap_external == old(env).heap_external
                &&& final(env).registry@ == old(env).registry@
                &&& VmEnv::same_host_caps(*old(env), *final(env))
            },
    {
        match &self.source {
            BufferSource::Native { data, .. } => {
                let copied = crate::host::copy_bytes(data);
                let capacity = copied.len();
                Buffer { source: BufferSource::Native { data: copied, capacity } }
            },
            BufferSource::Referenced { ref_id, len } => {
                env.reference_ref(*ref_id);
                Buffer { source: BufferSource::Referenced { ref_id: *ref_id, len: *len } }
            },
        }
    }

    /// Read the buffer's bytes back into native memory.
    pub fn to_vec(&self, env: &VmEnv) -> (r: Vec<u8>)
        requires
            env.wf(),
            self.valid(*env),
        ensures
            r@ == self.contents(*env),
    {
        match &self.source {
            BufferSource::Native { data, .. } => crate::host::copy_bytes(data),
            BufferSource::Referenced { ref_id, .. } => {
                let target = env.get_reference_value(*ref_id);
                env.buffer_to_vec(target)
            },
        }
    }

    /// Release this holder.
    ///
    /// Native memory is freed directly — no host involvement. For a
    /// referenced buffer the count is decremented; if holders remain,
    /// nothing further happens. When the count reaches zero the reference
    /// must be cleaned up by the host: on the environment's own thread it
    /// is deleted at once; off-thread the deletion is marshalled — queued
    /// after the current finalizer on hosts that support it, or through
    /// the cross-thread channel on older hosts — and if the channel is
    /// already torn down, the reference is abandoned for the host's own
    /// teardown to reclaim. Deletion is requested exactly once: only the
    /// holder that takes the count to zero requests it.
    pub fn release(self, env: &mut VmEnv, ctx: &ExecContext) -> (o: ReleaseOutcome)
        requires
            old(env).wf(),
            self.valid(*old(env)),
        ensures
            final(env).wf(),
            final(env).objects@ == old(env).objects@,
            final(env).heap_external == old(env).heap_external,
            final(env).registry@ == old(env).registry@,
            final(env).next_addr == old(env).next_addr,
            VmEnv::same_host_caps(*old(env), *final(env)),
            self.is_native() ==> o == ReleaseOutcome::FreedNative && final(env).refs@ == old(env).refs@,
            !self.is_native() ==> ({
                let r = self.ref_id();
                let pre = old(env).ref_at(r);
                &&& VmEnv::refs_updated(*old(env), *final(env), r)
                &&& pre.count > 1 ==> o == ReleaseOutcome::StillShared && final(env).ref_at(r) == (
                VmRef { count: (pre.count - 1) as u32, ..pre })
                &&& pre.count == 1 ==> {
                    &&& ctx.on_vm_thread ==> o == ReleaseOutcome::DeletedNow && final(env).ref_at(
                        r,
                    ) == (VmRef { count: 0, state: RefState::Deleted, ..pre })
                    &&& !ctx.on_vm_thread && old(env).post_finalizer_supported ==> o
                        == ReleaseOutcome::DeletionQueued && final(env).ref_at(r) == (VmRef {
                        count: 0,
                        state: RefState::QueuedForDeletion,
                        ..pre
                    })
                    &&& !ctx.on_vm_thread && !old(env).post_finalizer_supported && old(env).channel_alive ==> o == ReleaseOutcome::DeletionQueued && final(env).ref_at(r)
                        == (VmRef { count: 0, state: RefState::QueuedForDeletion, ..pre })
                    &&& !ctx.on_vm_thread && !old(env).post_finalizer_supported && !old(env).channel_alive ==> o == ReleaseOutcome::Abandoned && final(env).ref_at(r) == (
                    VmRef { count: 0, ..pre })
                }
            }),
    {
        match self.source {
            BufferSource::Native { data, .. } => {
                let _ = data;
                ReleaseOutcome::FreedNative
            },
            BufferSource::Referenced { ref_id, .. } => {
                let c = env.reference_unref(ref_id);
                if c > 0 {
                    ReleaseOutcome::StillShared
                } else if ctx.on_vm_thread {
                    env.delete_reference(ref_id);
                    ReleaseOutcome::DeletedNow
                } else if env.post_finalizer_supported {
                    env.queue_reference_deletion(ref_id);
                    ReleaseOutcome::DeletionQueued
                } else if env.channel_alive {
                    env.queue_reference_deletion(ref_id);
                    ReleaseOutcome::DeletionQueued
                } else {
                    ReleaseOutcome::Abandoned
                }
            },
        }
    }

    /// Move this buffer to the host as a call result.
    ///
    /// A referenced buffer transfers its existing reference: the host value
    /// is read out and the reference deleted, so this holder's cleanup is
    /// already done. A native buffer is bound through the backing-store
    /// protocol — zero-copy where the host allows it, by copy otherwise —
    /// and an empty one becomes a host-owned empty Buffer with no registry
    /// entry.
    pub fn into_value(self, env: &mut VmEnv) -> (r: (usize, BindOutcome))
        requires
            old(env).wf(),
            self.valid(*old(env)),
            old(env).heap_external + self.spec_len() <= i64::MAX,
            old(env).objects@.len() < usize::MAX,
            old(env).next_addr < usize::MAX,
        ensures
            final(env).wf(),
            VmEnv::same_host_caps(*old(env), *final(env)),
            !self.is_native() ==> ({
                let rf = self.ref_id();
                &&& r.0 == old(env).ref_at(rf).target
                &&& r.1 is ZeroCopy
                &&& final(env).objects@ == old(env).objects@
                &&& final(env).heap_external == old(env).heap_external
                &&& final(env).registry@ == old(env).registry@
                &&& VmEnv::refs_updated(*old(env), *final(env), rf)
                &&& final(env).ref_at(rf) == (VmRef {
                    count: 0,
                    state: RefState::Deleted,
                    ..old(env).ref_at(rf)
                })
            }),
            self.is_native() ==> ({
                let pre = *old(env);
                let post = *final(env);
                let data = self.native_bytes();
                &&& post.is_buffer_handle(r.0)
                &&& post.buffer_at(r.0).node_buffer
                &&& post.buffer_at(r.0).phase is Bound
                &&& post.buffer_at(r.0).bytes@ == data
                &&& VmEnv::objects_pushed(pre, post, r.0)
                &&& post.refs@ == pre.refs@
                &&& data.len() > 0 && pre.allows_external ==> {
                    &&& r.1 is ZeroCopy
                    &&& post.heap_external == pre.heap_external + data.len()
                    &&& post.registry@ == pre.registry@.insert(pre.next_addr)
                }
                &&& data.len() == 0 || !pre.allows_external ==> {
                    &&& r.1 is Copied
                    &&& post.heap_external == pre.heap_external
                    &&& post.registry@ == pre.registry@
                }
            }),
    {
        match self.source {
            BufferSource::Referenced { ref_id, .. } => {
                let h = env.get_reference_value(ref_id);
                env.delete_reference(ref_id);
                (h, BindOutcome::ZeroCopy(h))
            },
            BufferSource::Native { data, .. } => {
                let addr = env.alloc_addr();
                let store = BackingStore::from_vec(data, addr);
                match bind_external(env, store, true) {
                    Ok(BindOutcome::ZeroCopy(h)) => (h, BindOutcome::ZeroCopy(h)),
                    Ok(BindOutcome::Copied(h)) => (h, BindOutcome::Copied(h)),
                    Err(_) => {
                        proof {
                            assert(false);
                        }
                        (0, BindOutcome::Copied(0))
                    },
                }
            },
        }
    }
}

impl Default for Buffer {
    /// An empty native buffer.
    fn default() -> (b: Buffer)
        ensures
            b.is_native(),
            b.spec_len() == 0,
    {
        Buffer::from_vec(Vec::new())
    }
}

} // verus!

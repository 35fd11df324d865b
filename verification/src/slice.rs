//! Call-scoped zero-copy views.
//!
//! A slice view exposes read and write access to host-owned memory for the
//! duration of a single native call, with no ownership bookkeeping at all:
//! no finalizer and no reference count, because the host keeps the value
//! alive as a live call argument. A view that must outlive the call is
//! promoted explicitly to a long-lived handle, which acquires a persistent
//! reference.

use crate::arraybuffer::ArrayBuffer;
use crate::backing::BackingStore;
use crate::bind::{bind_external, copied_to_host, copy_into_host, BindOutcome};
use crate::buffer::Buffer;
use crate::element::TypedArrayType;
use crate::error::BufferError;
use crate::host::{VmEnv, VmTypedArray};
use crate::typed::TypedArray;
use vstd::prelude::*;

verus! {

/// A call-scoped view of a host Buffer object.
#[derive(Clone, Copy)]
pub struct BufferSlice {
    pub handle: usize,
    pub len: usize,
}

impl BufferSlice {
    /// The handle denotes a host Buffer object.
    pub open spec fn valid(self, env: VmEnv) -> bool {
        &&& env.is_buffer_handle(self.handle)
        &&& env.buffer_at(self.handle).node_buffer
    }

    /// The buffer is valid, bound, not detached, and of this length.
    pub open spec fn live(self, env: VmEnv) -> bool {
        &&& self.valid(env)
        &&& env.buffer_at(self.handle).phase is Bound
        &&& !env.buffer_at(self.handle).detached
        &&& self.len == env.buffer_at(self.handle).bytes@.len()
    }

    /// Create a host Buffer from a native vector, zero-copy where the host
    /// allows it. An empty vector becomes a host-owned zero-length Buffer:
    /// no pointer is bound and no registry entry is made.
    pub fn from_data(env: &mut VmEnv, data: Vec<u8>) -> (r: (BufferSlice, BindOutcome))
        requires
            old(env).wf(),
            old(env).heap_external + data@.len() <= i64::MAX,
            old(env).objects@.len() < usize::MAX,
            old(env).next_addr < usize::MAX,
        ensures
            final(env).wf(),
            r.0.live(*final(env)),
            r.0.len == data@.len(),
            final(env).buffer_at(r.0.handle).bytes@ == data@,
            VmEnv::objects_pushed(*old(env), *final(env), r.0.handle),
            final(env).refs@ == old(env).refs@,
            VmEnv::same_host_caps(*old(env), *final(env)),
            ({
                let pre = *old(env);
                let post = *final(env);
                &&& data@.len() > 0 && pre.allows_external ==> {
                    &&& r.1 is ZeroCopy
                    &&& post.heap_external == pre.heap_external + data@.len()
                    &&& post.registry@ == pre.registry@.insert(pre.next_addr)
                    &&& post.buffer_at(r.0.handle).external
                }
                &&& data@.len() == 0 || !pre.allows_external ==> {
                    &&& r.1 is Copied
                    &&& post.heap_external == pre.heap_external
                    &&& post.registry@ == pre.registry@
                    &&& !post.buffer_at(r.0.handle).external
                }
            }),
    {
        let len = data.len();
        let addr = env.alloc_addr();
        let store = BackingStore::from_vec(data, addr);
        match bind_external(env, store, true) {
            Ok(BindOutcome::ZeroCopy(h)) => (BufferSlice { handle: h, len }, BindOutcome::ZeroCopy(h)),
            Ok(BindOutcome::Copied(h)) => (BufferSlice { handle: h, len }, BindOutcome::Copied(h)),
            Err(_) => {
                proof {
                    assert(false);
                }
                (BufferSlice { handle: 0, len: 0 }, BindOutcome::Copied(0))
            },
        }
    }

    /// Create a host Buffer over borrowed caller memory. A null or
    /// sentinel-valued pointer is refused as `InvalidArgument`; on `Copied`
    /// the caller's notify callback must run as soon as this returns.
    pub fn from_external(env: &mut VmEnv, addr: usize, bytes: Vec<u8>) -> (r: Result<
        (BufferSlice, BindOutcome),
        BufferError,
    >)
        requires
            old(env).wf(),
            addr < usize::MAX,
            old(env).heap_external + bytes@.len() <= i64::MAX,
            old(env).objects@.len() < usize::MAX,
        ensures
            final(env).wf(),
            ({
                let pre = *old(env);
                let post = *final(env);
                &&& addr == 0 || addr == pre.sentinel_addr ==> r == Err::<
                    (BufferSlice, BindOutcome),
                    BufferError,
                >(BufferError::InvalidArgument) && VmEnv::unchanged(pre, post)
                &&& addr != 0 && addr != pre.sentinel_addr && bytes@.len() > 0
                    && pre.allows_external && pre.registry@.contains(addr) ==> r == Err::<
                    (BufferSlice, BindOutcome),
                    BufferError,
                >(BufferError::AliasedPointer) && VmEnv::unchanged(pre, post)
                &&& addr != 0 && addr != pre.sentinel_addr && !(bytes@.len() > 0
                    && pre.allows_external && pre.registry@.contains(addr)) ==> (r matches Ok(s)
                    && {
                    &&& s.0.live(post)
                    &&& s.0.len == bytes@.len()
                    &&& post.buffer_at(s.0.handle).bytes@ == bytes@
                    &&& VmEnv::objects_pushed(pre, post, s.0.handle)
                    &&& post.refs@ == pre.refs@
                    &&& VmEnv::same_host_caps(pre, post)
                    &&& bytes@.len() > 0 && pre.allows_external ==> {
                        &&& s.1 is ZeroCopy
                        &&& post.heap_external == pre.heap_external + bytes@.len()
                        &&& post.registry@ == pre.registry@.insert(addr)
                    }
                    &&& bytes@.len() == 0 || !pre.allows_external ==> {
                        &&& s.1 is Copied
                        &&& post.heap_external == pre.heap_external
                        &&& post.registry@ == pre.registry@
                    }
                })
            }),
    {
        if addr == 0 || addr == env.sentinel_addr {
            return Err(BufferError::InvalidArgument);
        }
        let len = bytes.len();
        let store = BackingStore::from_borrowed(bytes, addr);
        match bind_external(env, store, true) {
            Ok(BindOutcome::ZeroCopy(h)) => Ok(
                (BufferSlice { handle: h, len }, BindOutcome::ZeroCopy(h)),
            ),
            Ok(BindOutcome::Copied(h)) => Ok(
                (BufferSlice { handle: h, len }, BindOutcome::Copied(h)),
            ),
            Err(e) => Err(e),
        }
    }

    /// Copy bytes into a fresh host-owned Buffer; zero-copy is never
    /// attempted.
    pub fn copy_from(env: &mut VmEnv, data: &Vec<u8>) -> (s: BufferSlice)
        requires
            old(env).wf(),
            old(env).objects@.len() < usize::MAX,
        ensures
            final(env).wf(),
            s.live(*final(env)),
            s.len == data@.len(),
            copied_to_host(*old(env), *final(env), s.handle, data@, true),
    {
        let len = data.len();
        let h = copy_into_host(env, data, true);
        BufferSlice { handle: h, len }
    }

    /// Wrap an incoming host value, reading its length back
    /// (`read_buffer_info`). Fails with `InvalidArgument` when the handle
    /// is not a host Buffer.
    pub fn from_value(env: &VmEnv, handle: usize) -> (r: Result<BufferSlice, BufferError>)
        ensures
            (env.is_buffer_handle(handle) && env.buffer_at(handle).node_buffer) <==> (r matches Ok(
                s,
            ) && s.handle == handle && s.len == env.buffer_at(handle).bytes@.len()),
            !(env.is_buffer_handle(handle) && env.buffer_at(handle).node_buffer) ==> r == Err::<
                BufferSlice,
                BufferError,
            >(BufferError::InvalidArgument),
    {
        if env.is_node_buffer(handle) {
            let len = env.buffer_len(handle);
            Ok(BufferSlice { handle, len })
        } else {
            Err(BufferError::InvalidArgument)
        }
    }

    /// Check that a host value is a Buffer without wrapping it.
    pub fn validate(env: &VmEnv, handle: usize) -> (r: Result<(), BufferError>)
        ensures
            (env.is_buffer_handle(handle) && env.buffer_at(handle).node_buffer) <==> r == Ok::<
                (),
                BufferError,
            >(()),
            !(env.is_buffer_handle(handle) && env.buffer_at(handle).node_buffer) ==> r == Err::<
                (),
                BufferError,
            >(BufferError::InvalidArgument),
    {
        if env.is_node_buffer(handle) {
            Ok(())
        } else {
            Err(BufferError::InvalidArgument)
        }
    }

    /// Read one byte through the view.
    pub fn read_byte(&self, env: &VmEnv, i: usize) -> (v: u8)
        requires
            self.live(*env),
            i < self.len,
        ensures
            v == env.buffer_at(self.handle).bytes@[i as int],
    {
        env.buffer_read(self.handle, i)
    }

    /// Write one byte through the view; the underlying host buffer sees
    /// the mutation at once.
    pub fn write_byte(&self, env: &mut VmEnv, i: usize, v: u8)
        requires
            old(env).wf(),
            self.live(*old(env)),
            i < self.len,
        ensures
            final(env).wf(),
            self.live(*final(env)),
            VmEnv::objects_updated(*old(env), *final(env), self.handle),
            final(env).buffer_at(self.handle).bytes@ == old(env).buffer_at(
                self.handle,
            ).bytes@.update(i as int, v),
            final(env).heap_external == old(env).heap_external,
            final(env).registry@ == old(env).registry@,
            final(env).refs@ == old(env).refs@,
            VmEnv::same_host_caps(*old(env), *final(env)),
    {
        env.buffer_write(self.handle, i, v);
    }

    /// Read the whole region back into native memory.
    pub fn to_vec(&self, env: &VmEnv) -> (r: Vec<u8>)
        requires
            self.live(*env),
        ensures
            r@ == env.buffer_at(self.handle).bytes@,
            r@.len() == self.len,
    {
        env.buffer_to_vec(self.handle)
    }

    /// Promote this call-scoped view to a long-lived [`Buffer`], acquiring
    /// a persistent reference so it survives past the current call.
    pub fn into_buffer(self, env: &mut VmEnv) -> (r: Result<Buffer, BufferError>)
        requires
            old(env).wf(),
            old(env).refs@.len() < usize::MAX,
        ensures
            final(env).wf(),
            self.valid(*old(env)) <==> r is Ok,
            !self.valid(*old(env)) ==> r == Err::<Buffer, BufferError>(
                BufferError::InvalidArgument,
            ) && VmEnv::unchanged(*old(env), *final(env)),
            self.valid(*old(env)) ==> (r matches Ok(b) && !b.is_native() && b.spec_len() == old(
                env,
            ).buffer_at(self.handle).bytes@.len() && (old(env).buffer_at(self.handle).phase
                is Bound ==> b.valid(*final(env)))),
    {
        Buffer::from_value(env, self.handle)
    }
}

/// A call-scoped view of a host `Uint8ClampedArray`.
#[derive(Clone, Copy)]
pub struct Uint8ClampedSlice {
    /// The typed-array value this view wraps.
    pub handle: usize,
    /// The ArrayBuffer object holding the elements.
    pub buffer: usize,
    /// Where the elements start inside that buffer.
    pub byte_offset: usize,
    /// Element count; clamped-byte elements are one byte wide.
    pub len: usize,
}

impl Uint8ClampedSlice {
    /// The handle denotes a clamped-byte host array with exactly this
    /// view's geometry.
    pub open spec fn valid(self, env: VmEnv) -> bool {
        &&& env.is_array_handle(self.handle)
        &&& env.array_at(self.handle) == (VmTypedArray {
            kind: TypedArrayType::Uint8Clamped,
            buffer: self.buffer,
            byte_offset: self.byte_offset,
            length: self.len,
        })
    }

    /// The view is valid and its underlying buffer is bound, not detached,
    /// and large enough.
    pub open spec fn live(self, env: VmEnv) -> bool {
        &&& self.valid(env)
        &&& env.is_buffer_handle(self.buffer)
        &&& env.buffer_at(self.buffer).phase is Bound
        &&& !env.buffer_at(self.buffer).detached
        &&& self.byte_offset + self.len <= env.buffer_at(self.buffer).bytes@.len()
    }

    /// The elements this view exposes.
    pub open spec fn view_bytes(self, env: VmEnv) -> Seq<u8> {
        env.buffer_at(self.buffer).bytes@.subrange(
            self.byte_offset as int,
            self.byte_offset + self.len,
        )
    }

    /// A fresh view created over a fresh buffer holding `contents`.
    pub open spec fn created_over(self, pre: VmEnv, post: VmEnv, contents: Seq<u8>) -> bool {
        &&& self.live(post)
        &&& self.view_bytes(post) == contents
        &&& self.len == contents.len()
        &&& self.byte_offset == 0
        &&& self.buffer == pre.objects@.len()
        &&& self.handle == pre.objects@.len() + 1
        &&& post.objects@.len() == pre.objects@.len() + 2
        &&& forall|i: int| 0 <= i < pre.objects@.len() ==> post.objects@[i] == pre.objects@[i]
        &&& post.refs@ == pre.refs@
        &&& VmEnv::same_host_caps(pre, post)
    }

    /// Create a clamped-byte host array from a native vector, zero-copy
    /// where the host allows it, and a typed array over the resulting
    /// buffer.
    pub fn from_data(env: &mut VmEnv, data: Vec<u8>) -> (r: (Uint8ClampedSlice, BindOutcome))
        requires
            old(env).wf(),
            old(env).heap_external + data@.len() <= i64::MAX,
            old(env).objects@.len() + 2 <= usize::MAX,
            old(env).next_addr < usize::MAX,
        ensures
            final(env).wf(),
            r.0.created_over(*old(env), *final(env), data@),
            ({
                let pre = *old(env);
                let post = *final(env);
                &&& data@.len() > 0 && pre.allows_external ==> {
                    &&& r.1 is ZeroCopy
                    &&& post.heap_external == pre.heap_external + data@.len()
                    &&& post.registry@ == pre.registry@.insert(pre.next_addr)
                }
                &&& data@.len() == 0 || !pre.allows_external ==> {
                    &&& r.1 is Copied
                    &&& post.heap_external == pre.heap_external
                    &&& post.registry@ == pre.registry@
                }
            }),
    {
        let len = data.len();
        let addr = env.alloc_addr();
        let store = BackingStore::from_vec(data, addr);
        let (bufh, outcome) = match bind_external(env, store, false) {
            Ok(BindOutcome::ZeroCopy(h)) => (h, BindOutcome::ZeroCopy(h)),
            Ok(BindOutcome::Copied(h)) => (h, BindOutcome::Copied(h)),
            Err(_) => {
                proof {
                    assert(false);
                }
                (0, BindOutcome::Copied(0))
            },
        };
        match env.create_typed_array(TypedArrayType::Uint8Clamped, len, bufh, 0) {
            Ok(th) => {
                let s = Uint8ClampedSlice { handle: th, buffer: bufh, byte_offset: 0, len };
                proof {
                    assert(s.view_bytes(*env) =~= final(env).buffer_at(bufh).bytes@);
                }
                (s, outcome)
            },
            Err(_) => {
                proof {
                    assert(false);
                }
                (Uint8ClampedSlice { handle: 0, buffer: 0, byte_offset: 0, len: 0 }, outcome)
            },
        }
    }

    /// Create a clamped-byte host array over borrowed caller memory. A
    /// null or sentinel-valued pointer is refused; on `Copied` the
    /// caller's notify callback must run as soon as this returns.
    pub fn from_external(env: &mut VmEnv, addr: usize, bytes: Vec<u8>) -> (r: Result<
        (Uint8ClampedSlice, BindOutcome),
        BufferError,
    >)
        requires
            old(env).wf(),
            addr < usize::MAX,
            old(env).heap_external + bytes@.len() <= i64::MAX,
            old(env).objects@.len() + 2 <= usize::MAX,
        ensures
            final(env).wf(),
            ({
                let pre = *old(env);
                let post = *final(env);
                &&& addr == 0 || addr == pre.sentinel_addr ==> r == Err::<
                    (Uint8ClampedSlice, BindOutcome),
                    BufferError,
                >(BufferError::InvalidArgument) && VmEnv::unchanged(pre, post)
                &&& addr != 0 && addr != pre.sentinel_addr && bytes@.len() > 0
                    && pre.allows_external && pre.registry@.contains(addr) ==> r == Err::<
                    (Uint8ClampedSlice, BindOutcome),
                    BufferError,
                >(BufferError::AliasedPointer) && VmEnv::unchanged(pre, post)
                &&& addr != 0 && addr != pre.sentinel_addr && !(bytes@.len() > 0
                    && pre.allows_external && pre.registry@.contains(addr)) ==> (r matches Ok(s)
                    && {
                    &&& s.0.created_over(pre, post, bytes@)
                    &&& bytes@.len() > 0 && pre.allows_external ==> {
                        &&& s.1 is ZeroCopy
                        &&& post.heap_external == pre.heap_external + bytes@.len()
                        &&& post.registry@ == pre.registry@.insert(addr)
                    }
                    &&& bytes@.len() == 0 || !pre.allows_external ==> {
                        &&& s.1 is Copied
                        &&& post.heap_external == pre.heap_external
                        &&& post.registry@ == pre.registry@
                    }
                })
            }),
    {
        if addr == 0 || addr == env.sentinel_addr {
            return Err(BufferError::InvalidArgument);
        }
        let len = bytes.len();
        let store = BackingStore::from_borrowed(bytes, addr);
        let (bufh, outcome) = match bind_external(env, store, false) {
            Ok(BindOutcome::ZeroCopy(h)) => (h, BindOutcome::ZeroCopy(h)),
            Ok(BindOutcome::Copied(h)) => (h, BindOutcome::Copied(h)),
            Err(e) => {
                return Err(e);
            },
        };
        match env.create_typed_array(TypedArrayType::Uint8Clamped, len, bufh, 0) {
            Ok(th) => {
                let s = Uint8ClampedSlice { handle: th, buffer: bufh, byte_offset: 0, len };
                proof {
                    assert(s.view_bytes(*env) =~= final(env).buffer_at(bufh).bytes@);
                }
                Ok((s, outcome))
            },
            Err(e) => {
                proof {
                    assert(false);
                }
                Err(e)
            },
        }
    }

    /// Copy bytes into a fresh host-owned buffer and view it; zero-copy is
    /// never attempted.
    pub fn copy_from(env: &mut VmEnv, data: &Vec<u8>) -> (s: Uint8ClampedSlice)
        requires
            old(env).wf(),
            old(env).objects@.len() + 2 <= usize::MAX,
        ensures
            final(env).wf(),
            s.created_over(*old(env), *final(env), data@),
            final(env).heap_external == old(env).heap_external,
            final(env).registry@ == old(env).registry@,
    {
        let len = data.len();
        let bufh = copy_into_host(env, data, false);
        match env.create_typed_array(TypedArrayType::Uint8Clamped, len, bufh, 0) {
            Ok(th) => {
                let s = Uint8ClampedSlice { handle: th, buffer: bufh, byte_offset: 0, len };
                proof {
                    assert(s.view_bytes(*env) =~= final(env).buffer_at(bufh).bytes@);
                }
                s
            },
            Err(_) => {
                proof {
                    assert(false);
                }
                Uint8ClampedSlice { handle: 0, buffer: 0, byte_offset: 0, len: 0 }
            },
        }
    }

    /// View part of an existing ArrayBuffer as clamped bytes. The host
    /// refuses views that reach past the end of the buffer.
    pub fn from_arraybuffer(
        env: &mut VmEnv,
        arraybuffer: &ArrayBuffer,
        byte_offset: usize,
        length: usize,
    ) -> (r: Result<Uint8ClampedSlice, BufferError>)
        requires
            old(env).wf(),
            old(env).objects@.len() < usize::MAX,
        ensures
            final(env).wf(),
            ({
                let ok = old(env).typed_array_args_ok(
                    TypedArrayType::Uint8Clamped,
                    length,
                    arraybuffer.handle,
                    byte_offset,
                );
                &&& !ok ==> r == Err::<Uint8ClampedSlice, BufferError>(
                    BufferError::InvalidArgument,
                ) && VmEnv::unchanged(*old(env), *final(env))
                &&& ok ==> (r matches Ok(s) && {
                    &&& s.live(*final(env))
                    &&& s.buffer == arraybuffer.handle
                    &&& s.byte_offset == byte_offset
                    &&& s.len == length
                    &&& s.handle == old(env).objects@.len()
                    &&& VmEnv::objects_pushed(*old(env), *final(env), s.handle)
                    &&& s.view_bytes(*final(env)) == old(env).buffer_at(
                        arraybuffer.handle,
                    ).bytes@.subrange(byte_offset as int, byte_offset + length)
                    &&& final(env).heap_external == old(env).heap_external
                    &&& final(env).registry@ == old(env).registry@
                    &&& final(env).refs@ == old(env).refs@
                    &&& VmEnv::same_host_caps(*old(env), *final(env))
                })
            }),
    {
        match env.create_typed_array(
            TypedArrayType::Uint8Clamped,
            length,
            arraybuffer.handle,
            byte_offset,
        ) {
            Ok(th) => Ok(
                Uint8ClampedSlice {
                    handle: th,
                    buffer: arraybuffer.handle,
                    byte_offset,
                    len: length,
                },
            ),
            Err(e) => Err(e),
        }
    }

    /// Wrap an incoming host typed-array value, validating its element
    /// kind; an array of any other kind is refused, naming the expected
    /// and actual kinds.
    pub fn from_value(env: &VmEnv, handle: usize) -> (r: Result<Uint8ClampedSlice, BufferError>)
        ensures
            !env.is_array_handle(handle) ==> r == Err::<Uint8ClampedSlice, BufferError>(
                BufferError::InvalidArgument,
            ),
            env.is_array_handle(handle) && env.array_at(handle).kind
                != TypedArrayType::Uint8Clamped ==> r == Err::<Uint8ClampedSlice, BufferError>(
                BufferError::KindMismatch(TypedArrayType::Uint8Clamped, env.array_at(handle).kind),
            ),
            env.is_array_handle(handle) && env.array_at(handle).kind
                == TypedArrayType::Uint8Clamped ==> (r matches Ok(s) && s.valid(*env) && s.handle
                == handle && s.len == env.array_at(handle).length),
    {
        match env.typed_array_info(handle) {
            Err(e) => Err(e),
            Ok((kind, length, buffer, byte_offset)) => {
                if kind != TypedArrayType::Uint8Clamped {
                    Err(BufferError::KindMismatch(TypedArrayType::Uint8Clamped, kind))
                } else {
                    Ok(Uint8ClampedSlice { handle, buffer, byte_offset, len: length })
                }
            },
        }
    }

    /// Check that a host value is a typed array without wrapping it.
    pub fn validate(env: &VmEnv, handle: usize) -> (r: Result<(), BufferError>)
        ensures
            env.is_array_handle(handle) <==> r == Ok::<(), BufferError>(()),
            !env.is_array_handle(handle) ==> r == Err::<(), BufferError>(
                BufferError::InvalidArgument,
            ),
    {
        if env.is_typed_array(handle) {
            Ok(())
        } else {
            Err(BufferError::InvalidArgument)
        }
    }

    /// Read one element through the view.
    pub fn read_elem(&self, env: &VmEnv, i: usize) -> (v: u8)
        requires
            self.live(*env),
            i < self.len,
        ensures
            v == self.view_bytes(*env)[i as int],
    {
        let blen = env.buffer_len(self.buffer);
        proof {
            assert(self.byte_offset + i < blen);
        }
        env.buffer_read(self.buffer, self.byte_offset + i)
    }

    /// Write one element through the view; the underlying host buffer
    /// sees the mutation at once.
    pub fn write_elem(&self, env: &mut VmEnv, i: usize, v: u8)
        requires
            old(env).wf(),
            self.live(*old(env)),
            i < self.len,
        ensures
            final(env).wf(),
            self.live(*final(env)),
            VmEnv::objects_updated(*old(env), *final(env), self.buffer),
            self.view_bytes(*final(env)) == self.view_bytes(*old(env)).update(i as int, v),
            final(env).buffer_at(self.buffer).bytes@ == old(env).buffer_at(
                self.buffer,
            ).bytes@.update(self.byte_offset + i, v),
            final(env).heap_external == old(env).heap_external,
            final(env).registry@ == old(env).registry@,
            final(env).refs@ == old(env).refs@,
            VmEnv::same_host_caps(*old(env), *final(env)),
    {
        let blen = env.buffer_len(self.buffer);
        proof {
            assert(self.byte_offset + i < blen);
        }
        env.buffer_write(self.buffer, self.byte_offset + i, v);
        proof {
            assert(self.view_bytes(*env) =~= self.view_bytes(*old(env)).update(i as int, v));
        }
    }

    /// Read the elements back into native memory.
    pub fn to_vec(&self, env: &VmEnv) -> (r: Vec<u8>)
        requires
            self.live(*env),
        ensures
            r@ == self.view_bytes(*env),
            r@.len() == self.len,
    {
        let blen = env.buffer_len(self.buffer);
        let mut out: Vec<u8> = Vec::new();
        let mut i: usize = 0;
        while i < self.len
            invariant
                self.live(*env),
                i <= self.len,
                blen == env.buffer_at(self.buffer).bytes@.len(),
                out@ == self.view_bytes(*env).subrange(0, i as int),
            decreases self.len - i,
        {
            proof {
                assert(self.byte_offset + i < blen);
            }
            let v = env.buffer_read(self.buffer, self.byte_offset + i);
            out.push(v);
            proof {
                assert(out@ =~= self.view_bytes(*env).subrange(0, i + 1 as int));
            }
            i = i + 1;
        }
        proof {
            assert(out@ =~= self.view_bytes(*env));
        }
        out
    }

    /// Promote this call-scoped view to a long-lived [`TypedArray`],
    /// acquiring a persistent reference so it survives past the current
    /// call.
    pub fn into_typed_array(self, env: &mut VmEnv) -> (r: Result<TypedArray, BufferError>)
        requires
            old(env).wf(),
            old(env).refs@.len() < usize::MAX,
        ensures
            final(env).wf(),
            self.valid(*old(env)) ==> (r matches Ok(t) && t.kind == TypedArrayType::Uint8Clamped
                && t.length == self.len && t.valid(*final(env))),
    {
        TypedArray::promote(env, self.handle, TypedArrayType::Uint8Clamped)
    }
}

} // verus!

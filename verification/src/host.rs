//! The host runtime as an explicit state value.
//!
//! The garbage-collected host that buffers are shared with cannot be part of
//! verified code, so this module models it: one [`VmEnv`] value holds
//! everything the binding layer can observe of a host environment — its
//! buffer and typed-array objects, its persistent references, its external
//! heap accounting, the capability switch for externally backed buffers, and
//! the debug registry of backing pointers. Every operation of the native
//! boundary ABI is a verified function on this state, so the protocol that
//! drives a real host can be checked end to end: what binding does to
//! accounting and the registry, what a finalizer must undo, and when a
//! persistent reference may be deleted.
//!
//! Addresses are model values: the environment hands out fresh ones from a
//! watermark, and caller-supplied external addresses raise the watermark, so
//! a fresh address never collides with a registered one.

use crate::element::{spec_width, TypedArrayType};
use crate::error::BufferError;
use crate::registry::{register_backing_ptr, unregister_backing_ptr, PointerRegistry};
use vstd::prelude::*;

verus! {

/// The execution context of the current thread: whether it is the thread the
/// host environment belongs to, and whether it is currently inside a
/// finalizer. The finalizer flag is per thread, not global; it is threaded
/// through every call that a finalizer can reach instead of living in
/// ambient thread-local state.
pub struct ExecContext {
    pub on_vm_thread: bool,
    pub in_finalizer: bool,
}

impl ExecContext {
    /// A context outside any finalizer.
    pub fn new(on_vm_thread: bool) -> (c: ExecContext)
        ensures
            c.on_vm_thread == on_vm_thread,
            !c.in_finalizer,
    {
        ExecContext { on_vm_thread, in_finalizer: false }
    }
}

/// What the finalizer dispatcher owes the native side when the collector
/// releases a buffer.
#[derive(Clone, Copy, Debug, PartialEq, Eq, Structural)]
pub enum FinalizerDuty {
    /// The region is host-owned; nothing native remains to be done.
    HostOwned,
    /// The region is native memory of `len` bytes in an allocation of
    /// `capacity` bytes. If `notify` holds, the caller registered a notify
    /// callback that must be handed the pointer and length so it can
    /// reconstruct ownership; otherwise the region is rebuilt and freed as a
    /// plain vector.
    ReleaseNative { len: usize, capacity: usize, notify: bool },
}

/// The lifecycle of a host buffer object, as the finalizer dispatcher sees
/// it: bound, then (once the collector fires) finalizing while the notify
/// callback runs, then released.
#[derive(Clone, Copy, Debug, PartialEq, Eq, Structural)]
pub enum BufferPhase {
    Bound,
    Finalizing,
    Released,
}

/// A host buffer object: an ArrayBuffer, or a host Buffer when
/// `node_buffer` holds.
pub struct VmBuffer {
    /// Backing address; 0 for host-owned regions, which the registry never
    /// tracks.
    pub addr: usize,
    /// Current contents of the region.
    pub bytes: Vec<u8>,
    /// Whether the region is native memory handed to the host zero-copy.
    pub external: bool,
    /// Bytes currently charged to the host's external heap accounting for
    /// this buffer; zeroed when the finalizer runs.
    pub accounted: usize,
    pub duty: FinalizerDuty,
    pub phase: BufferPhase,
    pub node_buffer: bool,
    pub detached: bool,
}

/// A host typed-array object: a view of `length` elements of kind `kind`
/// over the buffer object `buffer`, starting `byte_offset` bytes in.
pub struct VmTypedArray {
    pub kind: TypedArrayType,
    pub buffer: usize,
    pub byte_offset: usize,
    pub length: usize,
}

/// A host object a handle can denote.
pub enum VmObject {
    Buf(VmBuffer),
    TypedArr(VmTypedArray),
}

/// The state of a persistent reference. A reference leaves `Live` at most
/// once: either it is deleted on the environment's thread, or its deletion
/// is queued to run when the host is next able to process it.
#[derive(Clone, Copy, Debug, PartialEq, Eq, Structural)]
pub enum RefState {
    Live,
    QueuedForDeletion,
    Deleted,
}

/// A persistent reference to a host object, with its cached count.
#[derive(Clone, Copy, Debug, PartialEq, Eq, Structural)]
pub struct VmRef {
    pub target: usize,
    pub count: u32,
    pub state: RefState,
}

/// What a buffer object contributes to external heap accounting.
pub open spec fn accounted_of(o: VmObject) -> int {
    match o {
        VmObject::Buf(b) => b.accounted as int,
        VmObject::TypedArr(_) => 0,
    }
}

/// Total bytes charged to external heap accounting.
pub open spec fn sum_accounted(s: Seq<VmObject>) -> int
    decreases s.len(),
{
    if s.len() == 0 {
        0
    } else {
        sum_accounted(s.drop_last()) + accounted_of(s.last())
    }
}

pub proof fn lemma_sum_push(s: Seq<VmObject>, o: VmObject)
    ensures
        sum_accounted(s.push(o)) == sum_accounted(s) + accounted_of(o),
{
    assert(s.push(o).drop_last() =~= s);
}

pub proof fn lemma_sum_nonneg(s: Seq<VmObject>)
    ensures
        0 <= sum_accounted(s),
    decreases s.len(),
{
    if s.len() > 0 {
        lemma_sum_nonneg(s.drop_last());
    }
}

pub proof fn lemma_sum_update(s: Seq<VmObject>, i: int, o: VmObject)
    requires
        0 <= i < s.len(),
    ensures
        sum_accounted(s.update(i, o)) == sum_accounted(s) - accounted_of(s[i]) + accounted_of(o),
    decreases s.len(),
{
    if i == s.len() - 1 {
        assert(s.update(i, o).drop_last() =~= s.drop_last());
    } else {
        assert(s.update(i, o).drop_last() =~= s.drop_last().update(i, o));
        lemma_sum_update(s.drop_last(), i, o);
    }
}

pub proof fn lemma_sum_at_least(s: Seq<VmObject>, i: int)
    requires
        0 <= i < s.len(),
    ensures
        accounted_of(s[i]) <= sum_accounted(s),
    decreases s.len(),
{
    if i == s.len() - 1 {
        lemma_sum_nonneg(s.drop_last());
    } else {
        lemma_sum_at_least(s.drop_last(), i);
    }
}

/// The host environment.
pub struct VmEnv {
    /// Whether the host allows externally backed buffers at all. Hosts that
    /// embed the runtime in a sandbox refuse them, and every zero-copy bind
    /// then falls back to a copy.
    pub allows_external: bool,
    /// Bytes of native memory the host believes live outside its managed
    /// heap. Incremented when a region is bound zero-copy, decremented by
    /// the matching finalizer; it must never drift.
    pub heap_external: i64,
    /// Host objects; a handle is an index into this sequence.
    pub objects: Vec<VmObject>,
    /// Persistent references; a reference id is an index into this sequence.
    pub refs: Vec<VmRef>,
    /// Debug registry of pointers currently backing a live external buffer.
    pub registry: PointerRegistry,
    /// Model address watermark: every address below it may be in use, every
    /// address at or above it is fresh.
    pub next_addr: usize,
    /// The process-wide sentinel address that stands for an empty vector's
    /// dangling pointer; external regions must never alias it.
    pub sentinel_addr: usize,
    /// Whether the host supports scheduling work after the current
    /// finalizer (newer hosts).
    pub post_finalizer_supported: bool,
    /// Whether the cross-thread deletion channel set up at environment
    /// initialization is still alive; torn down at environment shutdown.
    pub channel_alive: bool,
}

impl VmEnv {
    pub open spec fn n_objects(self) -> int {
        self.objects@.len() as int
    }

    pub open spec fn is_handle(self, h: usize) -> bool {
        h < self.objects@.len()
    }

    pub open spec fn is_buffer_handle(self, h: usize) -> bool {
        h < self.objects@.len() && self.objects@[h as int] is Buf
    }

    pub open spec fn buffer_at(self, h: usize) -> VmBuffer {
        self.objects@[h as int]->Buf_0
    }

    pub open spec fn is_array_handle(self, h: usize) -> bool {
        h < self.objects@.len() && self.objects@[h as int] is TypedArr
    }

    pub open spec fn array_at(self, h: usize) -> VmTypedArray {
        self.objects@[h as int]->TypedArr_0
    }

    pub open spec fn n_refs(self) -> int {
        self.refs@.len() as int
    }

    pub open spec fn is_ref(self, r: usize) -> bool {
        r < self.refs@.len()
    }

    pub open spec fn ref_at(self, r: usize) -> VmRef {
        self.refs@[r as int]
    }

    /// A buffer whose backing pointer the registry must track: native
    /// memory the host has adopted and not yet released.
    pub open spec fn tracked_external(self, i: int) -> bool {
        &&& self.objects@[i] is Buf
        &&& self.objects@[i]->Buf_0.external
        &&& (self.objects@[i]->Buf_0.phase is Bound || self.objects@[i]->Buf_0.phase
            is Finalizing)
    }

    /// Well-formedness of the modeled host state.
    pub open spec fn wf(self) -> bool {
        &&& self.heap_external as int == sum_accounted(self.objects@)
        &&& 0 < self.sentinel_addr < self.next_addr
        &&& forall|a: usize| self.registry@.contains(a) ==> 0 < a < self.next_addr
        &&& forall|i: int|
            0 <= i < self.objects@.len() && (#[trigger] self.objects@[i]) is Buf
                ==> self.buf_ok(self.objects@[i]->Buf_0)
        &&& forall|i: int|
            0 <= i < self.objects@.len() && #[trigger] self.tracked_external(i)
                ==> self.registry@.contains(self.objects@[i]->Buf_0.addr)
        &&& forall|i: int, j: int|
            0 <= i < self.objects@.len() && 0 <= j < self.objects@.len() && i != j
                && #[trigger] self.tracked_external(i) && #[trigger] self.tracked_external(j)
                ==> self.objects@[i]->Buf_0.addr != self.objects@[j]->Buf_0.addr
        &&& forall|i: int|
            0 <= i < self.refs@.len() ==> self.ref_ok(#[trigger] self.refs@[i])
    }

    pub open spec fn buf_ok(self, b: VmBuffer) -> bool {
        &&& b.accounted != 0 ==> b.external && b.phase is Bound
        &&& (b.external && (b.phase is Bound || b.phase is Finalizing)) ==> 0 < b.addr
            < self.next_addr
    }

    pub open spec fn ref_ok(self, r: VmRef) -> bool {
        &&& r.state != RefState::Live ==> r.count == 0
        &&& r.target < self.objects@.len()
    }

    /// The host capabilities and identity that no operation changes.
    pub open spec fn same_host_caps(pre: VmEnv, post: VmEnv) -> bool {
        &&& post.allows_external == pre.allows_external
        &&& post.sentinel_addr == pre.sentinel_addr
        &&& post.post_finalizer_supported == pre.post_finalizer_supported
        &&& post.channel_alive == pre.channel_alive
    }

    /// Nothing observable changed.
    pub open spec fn unchanged(pre: VmEnv, post: VmEnv) -> bool {
        &&& Self::same_host_caps(pre, post)
        &&& post.heap_external == pre.heap_external
        &&& post.objects@ == pre.objects@
        &&& post.refs@ == pre.refs@
        &&& post.registry@ == pre.registry@
        &&& post.next_addr == pre.next_addr
    }

    /// One object was appended; everything already present is untouched.
    pub open spec fn objects_pushed(pre: VmEnv, post: VmEnv, h: usize) -> bool {
        &&& h == pre.objects@.len()
        &&& post.objects@.len() == pre.objects@.len() + 1
        &&& forall|i: int| 0 <= i < pre.objects@.len() ==> post.objects@[i] == pre.objects@[i]
    }

    /// Exactly the object at `h` changed.
    pub open spec fn objects_updated(pre: VmEnv, post: VmEnv, h: usize) -> bool {
        &&& post.objects@.len() == pre.objects@.len()
        &&& forall|i: int|
            0 <= i < pre.objects@.len() && i != h ==> post.objects@[i] == pre.objects@[i]
    }

    /// Exactly the reference at `r` changed.
    pub open spec fn refs_updated(pre: VmEnv, post: VmEnv, r: usize) -> bool {
        &&& post.refs@.len() == pre.refs@.len()
        &&& forall|i: int| 0 <= i < pre.refs@.len() && i != r ==> post.refs@[i] == pre.refs@[i]
    }

    /// A freshly created host-owned buffer.
    pub open spec fn owned_buffer(b: VmBuffer, contents: Seq<u8>, node_buffer: bool) -> bool {
        &&& b.addr == 0
        &&& b.bytes@ == contents
        &&& !b.external
        &&& b.accounted == 0
        &&& b.duty is HostOwned
        &&& b.phase is Bound
        &&& b.node_buffer == node_buffer
        &&& !b.detached
    }

    /// A fresh environment.
    ///
    /// The capability switch and the host's finalizer-scheduling support are
    /// given by the embedder; the cross-thread deletion channel starts out
    /// alive, as it is created at environment initialization.
    pub fn new(allows_external: bool, post_finalizer_supported: bool) -> (env: VmEnv)
        ensures
            env.wf(),
            env.allows_external == allows_external,
            env.post_finalizer_supported == post_finalizer_supported,
            env.channel_alive,
            env.heap_external == 0,
            env.objects@.len() == 0,
            env.refs@.len() == 0,
            env.registry@ == Set::<usize>::empty(),
            env.sentinel_addr == 1,
            env.next_addr == 2,
    {
        VmEnv {
            allows_external,
            heap_external: 0,
            objects: Vec::new(),
            refs: Vec::new(),
            registry: PointerRegistry::new(),
            next_addr: 2,
            sentinel_addr: 1,
            post_finalizer_supported,
            channel_alive: true,
        }
    }

    /// A fresh model address for a native allocation. Fresh addresses are
    /// above the watermark, so they never collide with the sentinel or with
    /// any registered pointer.
    pub fn alloc_addr(&mut self) -> (a: usize)
        requires
            old(self).wf(),
            old(self).next_addr < usize::MAX,
        ensures
            final(self).wf(),
            a == old(self).next_addr,
            final(self).next_addr == old(self).next_addr + 1,
            0 < a,
            a != final(self).sentinel_addr,
            !final(self).registry@.contains(a),
            final(self).objects@ == old(self).objects@,
            final(self).refs@ == old(self).refs@,
            final(self).registry@ == old(self).registry@,
            final(self).heap_external == old(self).heap_external,
            Self::same_host_caps(*old(self), *final(self)),
    {
        let a = self.next_addr;
        self.next_addr = self.next_addr + 1;
        proof {
            lemma_next_addr_grow_wf(*old(self), *self);
        }
        a
    }

    /// Host allocation of an empty buffer object.
    ///
    /// Zero-length buffers are host-owned with a null backing address: the
    /// host only permits distinct buffers to share a data pointer when that
    /// pointer is null, so an empty buffer is never backed by native memory
    /// and never touches the registry.
    pub fn create_empty(&mut self, node_buffer: bool) -> (h: usize)
        requires
            old(self).wf(),
            old(self).objects@.len() < usize::MAX,
        ensures
            final(self).wf(),
            Self::objects_pushed(*old(self), *final(self), h),
            final(self).is_buffer_handle(h),
            Self::owned_buffer(final(self).buffer_at(h), Seq::<u8>::empty(), node_buffer),
            final(self).heap_external == old(self).heap_external,
            final(self).registry@ == old(self).registry@,
            final(self).refs@ == old(self).refs@,
            final(self).next_addr == old(self).next_addr,
            Self::same_host_caps(*old(self), *final(self)),
    {
        let h = self.objects.len();
        let b = VmBuffer {
            addr: 0,
            bytes: Vec::new(),
            external: false,
            accounted: 0,
            duty: FinalizerDuty::HostOwned,
            phase: BufferPhase::Bound,
            node_buffer,
            detached: false,
        };
        let ghost gb = b;
        self.objects.push(VmObject::Buf(b));
        proof {
            lemma_push_owned_preserves_wf(*old(self), *self, VmObject::Buf(gb));
        }
        h
    }

    /// Host allocation of an owned buffer holding a copy of `src`
    /// (`create_owned_copy` of the boundary ABI). The host owns the new
    /// region, so nothing is charged to external accounting and the registry
    /// is untouched.
    pub fn create_owned_copy(&mut self, src: &Vec<u8>, node_buffer: bool) -> (h: usize)
        requires
            old(self).wf(),
            old(self).objects@.len() < usize::MAX,
        ensures
            final(self).wf(),
            Self::objects_pushed(*old(self), *final(self), h),
            final(self).is_buffer_handle(h),
            Self::owned_buffer(final(self).buffer_at(h), src@, node_buffer),
            final(self).heap_external == old(self).heap_external,
            final(self).registry@ == old(self).registry@,
            final(self).refs@ == old(self).refs@,
            final(self).next_addr == old(self).next_addr,
            Self::same_host_caps(*old(self), *final(self)),
    {
        let h = self.objects.len();
        let copied = copy_bytes(src);
        let b = VmBuffer {
            addr: 0,
            bytes: copied,
            external: false,
            accounted: 0,
            duty: FinalizerDuty::HostOwned,
            phase: BufferPhase::Bound,
            node_buffer,
            detached: false,
        };
        let ghost gb = b;
        self.objects.push(VmObject::Buf(b));
        proof {
            lemma_push_owned_preserves_wf(*old(self), *self, VmObject::Buf(gb));
        }
        h
    }
}

/// Outcome of attempting to hand native memory to the host zero-copy.
pub enum TryBindOutcome {
    /// The host adopted the region: the handle of the new external buffer.
    /// Native ownership has transferred; the native side must not free the
    /// region.
    Adopted(usize),
    /// The host forbids externally backed buffers. The region is handed
    /// back unchanged so the caller can fall back to a copy and destroy it.
    Refused(Vec<u8>),
    /// Another live external buffer is already backed by the same pointer;
    /// a fatal programming error.
    Aliased,
}

impl VmEnv {
    /// What a successful zero-copy bind leaves behind: the new external
    /// buffer object itself.
    pub open spec fn zero_copy_buffer(
        b: VmBuffer,
        addr: usize,
        contents: Seq<u8>,
        duty: FinalizerDuty,
        node_buffer: bool,
    ) -> bool {
        &&& b.addr == addr
        &&& b.bytes@ == contents
        &&& b.external
        &&& b.accounted == contents.len()
        &&& b.duty == duty
        &&& b.phase is Bound
        &&& b.node_buffer == node_buffer
        &&& !b.detached
    }

    /// What a successful zero-copy bind does to the environment: one new
    /// external buffer, its pointer registered, external heap accounting
    /// charged with exactly its length.
    pub open spec fn zero_copy_bound(
        pre: VmEnv,
        post: VmEnv,
        h: usize,
        addr: usize,
        contents: Seq<u8>,
        duty: FinalizerDuty,
        node_buffer: bool,
    ) -> bool {
        &&& Self::objects_pushed(pre, post, h)
        &&& post.is_buffer_handle(h)
        &&& Self::zero_copy_buffer(post.buffer_at(h), addr, contents, duty, node_buffer)
        &&& !pre.registry@.contains(addr)
        &&& post.registry@ == pre.registry@.insert(addr)
        &&& post.heap_external == pre.heap_external + contents.len()
        &&& post.refs@ == pre.refs@
        &&& pre.next_addr <= post.next_addr
        &&& Self::same_host_caps(pre, post)
    }

    /// Attempt to hand the native region at `addr` to the host as the
    /// storage of a new buffer object (`try_bind_external` of the boundary
    /// ABI).
    ///
    /// Zero-length regions never reach this call: the binding layer gives
    /// them a host-owned empty buffer, so no null or dangling pointer is
    /// ever passed into a zero-copy bind.
    pub fn try_bind_external(
        &mut self,
        addr: usize,
        bytes: Vec<u8>,
        duty: FinalizerDuty,
        node_buffer: bool,
    ) -> (r: TryBindOutcome)
        requires
            old(self).wf(),
            addr != 0,
            addr < usize::MAX,
            bytes@.len() > 0,
            duty matches FinalizerDuty::ReleaseNative { len, capacity, notify } && len
                == bytes@.len() && capacity >= len,
            old(self).heap_external + bytes@.len() <= i64::MAX,
            old(self).objects@.len() < usize::MAX,
        ensures
            final(self).wf(),
            !old(self).allows_external ==> (r matches TryBindOutcome::Refused(v) && v@ == bytes@)
                && Self::unchanged(*old(self), *final(self)),
            old(self).allows_external && old(self).registry@.contains(addr) ==> r
                is Aliased && Self::unchanged(*old(self), *final(self)),
            old(self).allows_external && !old(self).registry@.contains(addr) ==> (r matches
                TryBindOutcome::Adopted(h) && Self::zero_copy_bound(
                *old(self),
                *final(self),
                h,
                addr,
                bytes@,
                duty,
                node_buffer,
            )),
    {
        if !self.allows_external {
            return TryBindOutcome::Refused(bytes);
        }
        match register_backing_ptr(&mut self.registry, addr) {
            Err(_) => {
                proof {
                    lemma_wf_congruence(*old(self), *self);
                }
                return TryBindOutcome::Aliased;
            },
            Ok(()) => {},
        }
        if addr >= self.next_addr {
            self.next_addr = addr + 1;
        }
        proof {
            lemma_sum_nonneg(self.objects@);
        }
        let len = bytes.len();
        self.heap_external = self.heap_external + (len as i64);
        let h = self.objects.len();
        let b = VmBuffer {
            addr,
            bytes,
            external: true,
            accounted: len,
            duty,
            phase: BufferPhase::Bound,
            node_buffer,
            detached: false,
        };
        let ghost gb = b;
        self.objects.push(VmObject::Buf(b));
        proof {
            lemma_bind_push_preserves_wf(*old(self), *self, VmObject::Buf(gb), addr);
        }
        TryBindOutcome::Adopted(h)
    }
}

impl VmEnv {
    /// What entering the finalizer does: the buffer moves to `Finalizing`
    /// and external heap accounting is credited back exactly what the bind
    /// charged — the exact inverse, so accounting never drifts.
    pub open spec fn finalize_begun(pre: VmEnv, post: VmEnv, h: usize) -> bool {
        &&& pre.is_buffer_handle(h)
        &&& pre.buffer_at(h).external
        &&& pre.buffer_at(h).phase is Bound
        &&& Self::objects_updated(pre, post, h)
        &&& post.is_buffer_handle(h)
        &&& post.buffer_at(h).phase is Finalizing
        &&& post.buffer_at(h).accounted == 0
        &&& post.buffer_at(h).addr == pre.buffer_at(h).addr
        &&& post.buffer_at(h).bytes@ == pre.buffer_at(h).bytes@
        &&& post.buffer_at(h).external == pre.buffer_at(h).external
        &&& post.buffer_at(h).duty == pre.buffer_at(h).duty
        &&& post.buffer_at(h).node_buffer == pre.buffer_at(h).node_buffer
        &&& post.buffer_at(h).detached == pre.buffer_at(h).detached
        &&& post.heap_external == pre.heap_external - pre.buffer_at(h).accounted
        &&& post.registry@ == pre.registry@
        &&& post.refs@ == pre.refs@
        &&& post.next_addr == pre.next_addr
        &&& Self::same_host_caps(pre, post)
    }

    /// What leaving the finalizer does: the buffer is `Released`, its region
    /// is gone, and its pointer has left the registry, free to back a new
    /// buffer.
    pub open spec fn finalize_ended(pre: VmEnv, post: VmEnv, h: usize) -> bool {
        &&& pre.is_buffer_handle(h)
        &&& pre.buffer_at(h).external
        &&& pre.buffer_at(h).phase is Finalizing
        &&& Self::objects_updated(pre, post, h)
        &&& post.is_buffer_handle(h)
        &&& post.buffer_at(h).phase is Released
        &&& post.buffer_at(h).accounted == pre.buffer_at(h).accounted
        &&& post.buffer_at(h).bytes@.len() == 0
        &&& post.buffer_at(h).addr == pre.buffer_at(h).addr
        &&& post.buffer_at(h).external == pre.buffer_at(h).external
        &&& post.buffer_at(h).duty == pre.buffer_at(h).duty
        &&& post.buffer_at(h).node_buffer == pre.buffer_at(h).node_buffer
        &&& post.buffer_at(h).detached == pre.buffer_at(h).detached
        &&& post.heap_external == pre.heap_external
        &&& post.registry@ == pre.registry@.remove(pre.buffer_at(h).addr)
        &&& post.refs@ == pre.refs@
        &&& post.next_addr == pre.next_addr
        &&& Self::same_host_caps(pre, post)
    }

    /// The collector has decided to release the external buffer `h`: enter
    /// the finalizer.
    ///
    /// This must run before any other finalization work, because hosts
    /// forbid some calls from finalizer context and every caller reached
    /// from here consults the context flag. Returns the buffer's finalizer
    /// duty and its backing address; if the duty asks for notification, the
    /// caller runs the notify callback between this call and
    /// [`Self::end_finalize`], handing it the address and length so it can
    /// reconstruct ownership.
    pub fn begin_finalize(&mut self, ctx: &mut ExecContext, h: usize) -> (r: (FinalizerDuty, usize))
        requires
            old(self).wf(),
            old(self).is_buffer_handle(h),
            old(self).buffer_at(h).external,
            old(self).buffer_at(h).phase is Bound,
            !old(ctx).in_finalizer,
        ensures
            final(self).wf(),
            Self::finalize_begun(*old(self), *final(self), h),
            final(ctx).in_finalizer,
            final(ctx).on_vm_thread == old(ctx).on_vm_thread,
            r.0 == old(self).buffer_at(h).duty,
            r.1 == old(self).buffer_at(h).addr,
    {
        ctx.in_finalizer = true;
        let (duty, addr, acc) = match &self.objects[h] {
            VmObject::Buf(b) => (b.duty, b.addr, b.accounted),
            VmObject::TypedArr(_) => (FinalizerDuty::HostOwned, 0, 0),
        };
        proof {
            lemma_sum_at_least(self.objects@, h as int);
            lemma_sum_nonneg(self.objects@);
        }
        self.heap_external = self.heap_external - (acc as i64);
        match &mut self.objects[h] {
            VmObject::Buf(b) => {
                b.phase = BufferPhase::Finalizing;
                b.accounted = 0;
            },
            VmObject::TypedArr(_) => {},
        }
        proof {
            lemma_finalize_begin_wf(*old(self), *self, h);
        }
        (duty, addr)
    }

    /// The finalizer's work is done: unregister the backing pointer, drop
    /// the region, move the buffer to `Released`, and leave finalizer
    /// context. This runs on every exit path, whatever the notify callback
    /// did.
    pub fn end_finalize(&mut self, ctx: &mut ExecContext, h: usize)
        requires
            old(self).wf(),
            old(self).is_buffer_handle(h),
            old(self).buffer_at(h).external,
            old(self).buffer_at(h).phase is Finalizing,
            old(ctx).in_finalizer,
        ensures
            final(self).wf(),
            Self::finalize_ended(*old(self), *final(self), h),
            !final(ctx).in_finalizer,
            final(ctx).on_vm_thread == old(ctx).on_vm_thread,
    {
        let addr = match &self.objects[h] {
            VmObject::Buf(b) => b.addr,
            VmObject::TypedArr(_) => 0,
        };
        unregister_backing_ptr(&mut self.registry, addr);
        match &mut self.objects[h] {
            VmObject::Buf(b) => {
                b.phase = BufferPhase::Released;
                b.bytes = Vec::new();
            },
            VmObject::TypedArr(_) => {},
        }
        ctx.in_finalizer = false;
        proof {
            lemma_finalize_end_wf(*old(self), *self, h);
        }
    }
}

impl VmEnv {
    /// How many objects this environment has created; handles below this
    /// count are in use.
    pub fn objects_len(&self) -> (n: usize)
        ensures
            n == self.objects@.len(),
    {
        self.objects.len()
    }

    /// `is_buffer` of the boundary ABI: whether `h` denotes a host Buffer
    /// object.
    pub fn is_node_buffer(&self, h: usize) -> (b: bool)
        ensures
            b == (self.is_buffer_handle(h) && self.buffer_at(h).node_buffer),
    {
        if h < self.objects.len() {
            match &self.objects[h] {
                VmObject::Buf(b) => b.node_buffer,
                VmObject::TypedArr(_) => false,
            }
        } else {
            false
        }
    }

    /// `is_typed_array` of the boundary ABI.
    pub fn is_typed_array(&self, h: usize) -> (b: bool)
        ensures
            b == self.is_array_handle(h),
    {
        if h < self.objects.len() {
            match &self.objects[h] {
                VmObject::Buf(_) => false,
                VmObject::TypedArr(_) => true,
            }
        } else {
            false
        }
    }

    /// Byte length of the buffer object `h` (from `read_buffer_info`).
    pub fn buffer_len(&self, h: usize) -> (n: usize)
        requires
            self.is_buffer_handle(h),
        ensures
            n == self.buffer_at(h).bytes@.len(),
    {
        match &self.objects[h] {
            VmObject::Buf(b) => b.bytes.len(),
            VmObject::TypedArr(_) => 0,
        }
    }

    /// Read one byte of the region backing buffer `h`.
    pub fn buffer_read(&self, h: usize, i: usize) -> (v: u8)
        requires
            self.is_buffer_handle(h),
            i < self.buffer_at(h).bytes@.len(),
        ensures
            v == self.buffer_at(h).bytes@[i as int],
    {
        match &self.objects[h] {
            VmObject::Buf(b) => b.bytes[i],
            VmObject::TypedArr(_) => 0,
        }
    }

    /// Write one byte of the region backing buffer `h`. Script code and
    /// native code share the region without synchronization by design; the
    /// model serializes the writes it can see.
    pub fn buffer_write(&mut self, h: usize, i: usize, v: u8)
        requires
            old(self).wf(),
            old(self).is_buffer_handle(h),
            i < old(self).buffer_at(h).bytes@.len(),
        ensures
            final(self).wf(),
            Self::objects_updated(*old(self), *final(self), h),
            final(self).is_buffer_handle(h),
            (final(self).buffer_at(h)) == (VmBuffer {
                bytes: final(self).buffer_at(h).bytes,
                ..old(self).buffer_at(h)
            }),
            final(self).buffer_at(h).bytes@ == old(self).buffer_at(h).bytes@.update(i as int, v),
            final(self).heap_external == old(self).heap_external,
            final(self).registry@ == old(self).registry@,
            final(self).refs@ == old(self).refs@,
            final(self).next_addr == old(self).next_addr,
            Self::same_host_caps(*old(self), *final(self)),
    {
        match &mut self.objects[h] {
            VmObject::Buf(b) => {
                b.bytes.set(i, v);
            },
            VmObject::TypedArr(_) => {},
        }
        proof {
            lemma_bytes_update_wf(*old(self), *self, h);
        }
    }

    /// A copy of the whole region backing buffer `h` (reading it back into
    /// native code).
    pub fn buffer_to_vec(&self, h: usize) -> (r: Vec<u8>)
        requires
            self.is_buffer_handle(h),
        ensures
            r@ == self.buffer_at(h).bytes@,
    {
        match &self.objects[h] {
            VmObject::Buf(b) => copy_bytes(&b.bytes),
            VmObject::TypedArr(_) => Vec::new(),
        }
    }

    /// Detach the buffer `h`. The host only detaches externally created
    /// buffers; afterwards the buffer's data is gone.
    pub fn detach_buffer(&mut self, h: usize) -> (r: Result<(), BufferError>)
        requires
            old(self).wf(),
        ensures
            final(self).wf(),
            ({
                let ok = old(self).is_buffer_handle(h) && old(self).buffer_at(h).external && old(self).buffer_at(h).phase is Bound;
                &&& ok <==> r == Ok::<(), BufferError>(())
                &&& !ok ==> r == Err::<(), BufferError>(BufferError::InvalidArgument)
                    && Self::unchanged(*old(self), *final(self))
                &&& ok ==> {
                    &&& Self::objects_updated(*old(self), *final(self), h)
                    &&& final(self).is_buffer_handle(h)
                    &&& final(self).buffer_at(h).detached
                    &&& final(self).buffer_at(h).bytes@.len() == 0
                    &&& final(self).buffer_at(h).addr == old(self).buffer_at(h).addr
                    &&& final(self).buffer_at(h).external == old(self).buffer_at(h).external
                    &&& final(self).buffer_at(h).accounted == old(self).buffer_at(h).accounted
                    &&& final(self).buffer_at(h).duty == old(self).buffer_at(h).duty
                    &&& final(self).buffer_at(h).phase == old(self).buffer_at(h).phase
                    &&& final(self).buffer_at(h).node_buffer == old(self).buffer_at(h).node_buffer
                    &&& final(self).heap_external == old(self).heap_external
                    &&& final(self).registry@ == old(self).registry@
                    &&& final(self).refs@ == old(self).refs@
                    &&& final(self).next_addr == old(self).next_addr
                    &&& Self::same_host_caps(*old(self), *final(self))
                }
            }),
    {
        if h >= self.objects.len() {
            return Err(BufferError::InvalidArgument);
        }
        let ok = match &self.objects[h] {
            VmObject::Buf(b) => b.external && matches!(b.phase, BufferPhase::Bound),
            VmObject::TypedArr(_) => false,
        };
        if !ok {
            return Err(BufferError::InvalidArgument);
        }
        match &mut self.objects[h] {
            VmObject::Buf(b) => {
                b.detached = true;
                b.bytes = Vec::new();
            },
            VmObject::TypedArr(_) => {},
        }
        proof {
            lemma_bytes_update_wf(*old(self), *self, h);
        }
        Ok(())
    }

    /// Whether the buffer `h` has been detached.
    pub fn buffer_is_detached(&self, h: usize) -> (r: Result<bool, BufferError>)
        ensures
            self.is_buffer_handle(h) <==> r == Ok::<bool, BufferError>(self.buffer_at(h).detached),
            !self.is_buffer_handle(h) ==> r == Err::<bool, BufferError>(
                BufferError::InvalidArgument,
            ),
    {
        if h >= self.objects.len() {
            return Err(BufferError::InvalidArgument);
        }
        match &self.objects[h] {
            VmObject::Buf(b) => Ok(b.detached),
            VmObject::TypedArr(_) => Err(BufferError::InvalidArgument),
        }
    }

    /// Whether a typed array of `length` elements of `kind` can be created
    /// over buffer `buf` starting at `byte_offset`.
    pub open spec fn typed_array_args_ok(
        self,
        kind: TypedArrayType,
        length: usize,
        buf: usize,
        byte_offset: usize,
    ) -> bool {
        &&& self.is_buffer_handle(buf)
        &&& self.buffer_at(buf).phase is Bound
        &&& !self.buffer_at(buf).detached
        &&& byte_offset + length * spec_width(kind) <= self.buffer_at(buf).bytes@.len()
    }

    /// Create a typed-array object viewing `buf`. The host refuses views
    /// that reach past the end of the buffer.
    pub fn create_typed_array(
        &mut self,
        kind: TypedArrayType,
        length: usize,
        buf: usize,
        byte_offset: usize,
    ) -> (r: Result<usize, BufferError>)
        requires
            old(self).wf(),
            kind != TypedArrayType::Unknown,
            old(self).objects@.len() < usize::MAX,
        ensures
            final(self).wf(),
            ({
                let ok = old(self).typed_array_args_ok(kind, length, buf, byte_offset);
                &&& !ok ==> r == Err::<usize, BufferError>(BufferError::InvalidArgument)
                    && Self::unchanged(*old(self), *final(self))
                &&& ok ==> (r matches Ok(h) && {
                    &&& Self::objects_pushed(*old(self), *final(self), h)
                    &&& final(self).is_array_handle(h)
                    &&& final(self).array_at(h) == (VmTypedArray {
                        kind,
                        buffer: buf,
                        byte_offset,
                        length,
                    })
                    &&& final(self).heap_external == old(self).heap_external
                    &&& final(self).registry@ == old(self).registry@
                    &&& final(self).refs@ == old(self).refs@
                    &&& final(self).next_addr == old(self).next_addr
                    &&& Self::same_host_caps(*old(self), *final(self))
                })
            }),
    {
        if buf >= self.objects.len() {
            return Err(BufferError::InvalidArgument);
        }
        let blen = match &self.objects[buf] {
            VmObject::Buf(b) => {
                if matches!(b.phase, BufferPhase::Bound) && !b.detached {
                    b.bytes.len()
                } else {
                    return Err(BufferError::InvalidArgument);
                }
            },
            VmObject::TypedArr(_) => {
                return Err(BufferError::InvalidArgument);
            },
        };
        let w = kind.element_width();
        proof {
            assert((length as int) * (w as int) <= (length as int) * 8) by (nonlinear_arith)
                requires
                    1 <= w <= 8,
                    0 <= length,
            ;
        }
        let need: u128 = (byte_offset as u128) + (length as u128) * (w as u128);
        if need > (blen as u128) {
            return Err(BufferError::InvalidArgument);
        }
        let h = self.objects.len();
        let a = VmTypedArray { kind, buffer: buf, byte_offset, length };
        self.objects.push(VmObject::TypedArr(a));
        proof {
            lemma_push_array_preserves_wf(*old(self), *self, VmObject::TypedArr(a));
        }
        Ok(h)
    }

    /// `read_typed_array_info` of the boundary ABI: element kind, element
    /// count, owning buffer handle, and byte offset of the typed array `h`.
    pub fn typed_array_info(&self, h: usize) -> (r: Result<
        (TypedArrayType, usize, usize, usize),
        BufferError,
    >)
        ensures
            self.is_array_handle(h) <==> r == Ok::<(TypedArrayType, usize, usize, usize),
                BufferError,
            >(
                (
                    self.array_at(h).kind,
                    self.array_at(h).length,
                    self.array_at(h).buffer,
                    self.array_at(h).byte_offset,
                ),
            ),
            !self.is_array_handle(h) ==> r == Err::<(TypedArrayType, usize, usize, usize),
                BufferError,
            >(BufferError::InvalidArgument),
    {
        if h >= self.objects.len() {
            return Err(BufferError::InvalidArgument);
        }
        match &self.objects[h] {
            VmObject::Buf(_) => Err(BufferError::InvalidArgument),
            VmObject::TypedArr(a) => Ok((a.kind, a.length, a.buffer, a.byte_offset)),
        }
    }
}

impl VmEnv {
    /// Acquire a persistent reference to the object `target`
    /// (`create_persistent_reference` of the boundary ABI).
    pub fn create_reference(&mut self, target: usize, initial: u32) -> (r: usize)
        requires
            old(self).wf(),
            target < old(self).objects@.len(),
            old(self).refs@.len() < usize::MAX,
        ensures
            final(self).wf(),
            r == old(self).refs@.len(),
            final(self).refs@ == old(self).refs@.push(
                VmRef { target, count: initial, state: RefState::Live },
            ),
            final(self).objects@ == old(self).objects@,
            final(self).heap_external == old(self).heap_external,
            final(self).registry@ == old(self).registry@,
            final(self).next_addr == old(self).next_addr,
            Self::same_host_caps(*old(self), *final(self)),
    {
        let r = self.refs.len();
        self.refs.push(VmRef { target, count: initial, state: RefState::Live });
        proof {
            lemma_refs_change_wf(*old(self), *self);
        }
        r
    }

    /// Increment the count of a live reference (`increment_ref`).
    pub fn reference_ref(&mut self, r: usize) -> (c: u32)
        requires
            old(self).wf(),
            old(self).is_ref(r),
            old(self).ref_at(r).state is Live,
            old(self).ref_at(r).count < u32::MAX,
        ensures
            final(self).wf(),
            Self::refs_updated(*old(self), *final(self), r),
            final(self).ref_at(r) == (VmRef {
                count: (old(self).ref_at(r).count + 1) as u32,
                ..old(self).ref_at(r)
            }),
            c == old(self).ref_at(r).count + 1,
            final(self).objects@ == old(self).objects@,
            final(self).heap_external == old(self).heap_external,
            final(self).registry@ == old(self).registry@,
            final(self).next_addr == old(self).next_addr,
            Self::same_host_caps(*old(self), *final(self)),
    {
        let entry = self.refs[r];
        let c = entry.count + 1;
        self.refs.set(r, VmRef { count: c, ..entry });
        proof {
            lemma_refs_change_wf(*old(self), *self);
        }
        c
    }

    /// Decrement the count of a live reference (`decrement_ref`),
    /// returning the new count. A decrement below zero is a lifecycle bug,
    /// excluded here rather than detected at run time.
    pub fn reference_unref(&mut self, r: usize) -> (c: u32)
        requires
            old(self).wf(),
            old(self).is_ref(r),
            old(self).ref_at(r).state is Live,
            old(self).ref_at(r).count > 0,
        ensures
            final(self).wf(),
            Self::refs_updated(*old(self), *final(self), r),
            final(self).ref_at(r) == (VmRef {
                count: (old(self).ref_at(r).count - 1) as u32,
                ..old(self).ref_at(r)
            }),
            c == old(self).ref_at(r).count - 1,
            final(self).objects@ == old(self).objects@,
            final(self).heap_external == old(self).heap_external,
            final(self).registry@ == old(self).registry@,
            final(self).next_addr == old(self).next_addr,
            Self::same_host_caps(*old(self), *final(self)),
    {
        let entry = self.refs[r];
        let c = entry.count - 1;
        self.refs.set(r, VmRef { count: c, ..entry });
        proof {
            lemma_refs_change_wf(*old(self), *self);
        }
        c
    }

    /// The handle a live reference keeps reachable.
    pub fn get_reference_value(&self, r: usize) -> (h: usize)
        requires
            self.wf(),
            self.is_ref(r),
            self.ref_at(r).state is Live,
        ensures
            h == self.ref_at(r).target,
            h < self.objects@.len(),
    {
        self.refs[r].target
    }

    /// Delete a live reference on the environment's own thread
    /// (`delete_reference`). A reference leaves `Live` at most once, so
    /// deletion can be requested at most once.
    pub fn delete_reference(&mut self, r: usize)
        requires
            old(self).wf(),
            old(self).is_ref(r),
            old(self).ref_at(r).state is Live,
        ensures
            final(self).wf(),
            Self::refs_updated(*old(self), *final(self), r),
            final(self).ref_at(r) == (VmRef {
                count: 0,
                state: RefState::Deleted,
                ..old(self).ref_at(r)
            }),
            final(self).objects@ == old(self).objects@,
            final(self).heap_external == old(self).heap_external,
            final(self).registry@ == old(self).registry@,
            final(self).next_addr == old(self).next_addr,
            Self::same_host_caps(*old(self), *final(self)),
    {
        let entry = self.refs[r];
        self.refs.set(r, VmRef { count: 0, state: RefState::Deleted, ..entry });
        proof {
            lemma_refs_change_wf(*old(self), *self);
        }
    }

    /// Queue deletion of a reference to run when the host next can
    /// (`schedule_post_finalizer` on newer hosts, `call_threadsafe` through
    /// the deletion channel on older ones). Only a fully released
    /// reference may be queued, and only once.
    pub fn queue_reference_deletion(&mut self, r: usize)
        requires
            old(self).wf(),
            old(self).is_ref(r),
            old(self).ref_at(r).state is Live,
            old(self).ref_at(r).count == 0,
            old(self).post_finalizer_supported || old(self).channel_alive,
        ensures
            final(self).wf(),
            Self::refs_updated(*old(self), *final(self), r),
            final(self).ref_at(r) == (VmRef {
                state: RefState::QueuedForDeletion,
                ..old(self).ref_at(r)
            }),
            final(self).objects@ == old(self).objects@,
            final(self).heap_external == old(self).heap_external,
            final(self).registry@ == old(self).registry@,
            final(self).next_addr == old(self).next_addr,
            Self::same_host_caps(*old(self), *final(self)),
    {
        let entry = self.refs[r];
        self.refs.set(r, VmRef { state: RefState::QueuedForDeletion, ..entry });
        proof {
            lemma_refs_change_wf(*old(self), *self);
        }
    }

    /// The host processes its queue of deferred deletions: every queued
    /// reference is deleted, each exactly once.
    pub fn run_post_finalizers(&mut self)
        requires
            old(self).wf(),
        ensures
            final(self).wf(),
            final(self).refs@.len() == old(self).refs@.len(),
            forall|i: int|
                0 <= i < old(self).refs@.len() ==> final(self).refs@[i] == (
                if old(self).refs@[i].state is QueuedForDeletion {
                    (VmRef { state: RefState::Deleted, ..old(self).refs@[i] })
                } else {
                    old(self).refs@[i]
                }),
            final(self).objects@ == old(self).objects@,
            final(self).heap_external == old(self).heap_external,
            final(self).registry@ == old(self).registry@,
            final(self).next_addr == old(self).next_addr,
            Self::same_host_caps(*old(self), *final(self)),
    {
        let n = self.refs.len();
        let mut i: usize = 0;
        while i < n
            invariant
                old(self).wf(),
                n == old(self).refs@.len(),
                i <= n,
                self.refs@.len() == n,
                forall|k: int|
                    0 <= k < i ==> self.refs@[k] == (
                    if old(self).refs@[k].state is QueuedForDeletion {
                        (VmRef { state: RefState::Deleted, ..old(self).refs@[k] })
                    } else {
                        old(self).refs@[k]
                    }),
                forall|k: int| i <= k < n ==> self.refs@[k] == old(self).refs@[k],
                self.objects@ == old(self).objects@,
                self.heap_external == old(self).heap_external,
                self.registry@ == old(self).registry@,
                self.next_addr == old(self).next_addr,
                Self::same_host_caps(*old(self), *self),
            decreases n - i,
        {
            let entry = self.refs[i];
            if matches!(entry.state, RefState::QueuedForDeletion) {
                self.refs.set(i, VmRef { state: RefState::Deleted, ..entry });
            }
            i = i + 1;
        }
        proof {
            lemma_refs_change_wf(*old(self), *self);
        }
    }

    /// Tear down the cross-thread deletion channel (environment shutdown).
    /// Deletion requests after this are dropped rather than attempted.
    pub fn teardown_channel(&mut self)
        requires
            old(self).wf(),
        ensures
            final(self).wf(),
            !final(self).channel_alive,
            final(self).allows_external == old(self).allows_external,
            final(self).sentinel_addr == old(self).sentinel_addr,
            final(self).post_finalizer_supported == old(self).post_finalizer_supported,
            final(self).heap_external == old(self).heap_external,
            final(self).objects@ == old(self).objects@,
            final(self).refs@ == old(self).refs@,
            final(self).registry@ == old(self).registry@,
            final(self).next_addr == old(self).next_addr,
    {
        self.channel_alive = false;
        proof {
            lemma_refs_change_wf(*old(self), *self);
        }
    }
}

/// Changes that touch only the references, and keep each reference's
/// invariant, preserve well-formedness.
proof fn lemma_refs_change_wf(pre: VmEnv, post: VmEnv)
    requires
        pre.wf(),
        post.objects@ == pre.objects@,
        post.registry@ == pre.registry@,
        post.heap_external == pre.heap_external,
        post.next_addr == pre.next_addr,
        post.allows_external == pre.allows_external,
        post.sentinel_addr == pre.sentinel_addr,
        post.post_finalizer_supported == pre.post_finalizer_supported,
        forall|i: int|
            0 <= i < post.refs@.len() ==> (#[trigger] post.refs@[i]).state != RefState::Live
                ==> post.refs@[i].count == 0,
        forall|i: int|
            0 <= i < post.refs@.len() ==> (#[trigger] post.refs@[i]).target
                < post.objects@.len(),
    ensures
        post.wf(),
{
    assert forall|i: int|
        0 <= i < post.objects@.len() && (#[trigger] post.objects@[i]) is Buf implies post.buf_ok(
        post.objects@[i]->Buf_0,
    ) by {
        assert(pre.buf_ok(pre.objects@[i]->Buf_0));
    }
    assert forall|i: int|
        0 <= i < post.objects@.len() && #[trigger] post.tracked_external(i)
        implies post.registry@.contains(post.objects@[i]->Buf_0.addr) by {
        assert(pre.tracked_external(i));
    }
    assert forall|i: int, j: int|
        0 <= i < post.objects@.len() && 0 <= j < post.objects@.len() && i != j
            && #[trigger] post.tracked_external(i) && #[trigger] post.tracked_external(j)
        implies post.objects@[i]->Buf_0.addr != post.objects@[j]->Buf_0.addr by {
        assert(pre.tracked_external(i));
        assert(pre.tracked_external(j));
    }
}

/// Replacing only the contents, detach flag aside, of one buffer object
/// preserves well-formedness: the invariant never mentions a buffer's
/// bytes.
proof fn lemma_bytes_update_wf(pre: VmEnv, post: VmEnv, h: usize)
    requires
        pre.wf(),
        pre.is_buffer_handle(h),
        VmEnv::objects_updated(pre, post, h),
        post.is_buffer_handle(h),
        post.buffer_at(h).addr == pre.buffer_at(h).addr,
        post.buffer_at(h).external == pre.buffer_at(h).external,
        post.buffer_at(h).accounted == pre.buffer_at(h).accounted,
        post.buffer_at(h).duty == pre.buffer_at(h).duty,
        post.buffer_at(h).phase == pre.buffer_at(h).phase,
        post.buffer_at(h).node_buffer == pre.buffer_at(h).node_buffer,
        post.heap_external == pre.heap_external,
        post.registry@ == pre.registry@,
        post.refs@ == pre.refs@,
        post.next_addr == pre.next_addr,
        VmEnv::same_host_caps(pre, post),
    ensures
        post.wf(),
{
    lemma_sum_update(pre.objects@, h as int, post.objects@[h as int]);
    assert(post.objects@ =~= pre.objects@.update(h as int, post.objects@[h as int]));
    assert forall|i: int|
        0 <= i < post.objects@.len() && (#[trigger] post.objects@[i]) is Buf implies post.buf_ok(
        post.objects@[i]->Buf_0,
    ) by {
        if i != h {
            assert(pre.objects@[i] is Buf);
        }
        assert(pre.buf_ok(pre.objects@[i]->Buf_0));
    }
    assert forall|i: int|
        0 <= i < post.objects@.len() && #[trigger] post.tracked_external(i)
        implies post.registry@.contains(post.objects@[i]->Buf_0.addr) by {
        assert(pre.tracked_external(i));
    }
    assert forall|i: int, j: int|
        0 <= i < post.objects@.len() && 0 <= j < post.objects@.len() && i != j
            && #[trigger] post.tracked_external(i) && #[trigger] post.tracked_external(j)
        implies post.objects@[i]->Buf_0.addr != post.objects@[j]->Buf_0.addr by {
        assert(pre.tracked_external(i));
        assert(pre.tracked_external(j));
    }
    assert forall|i: int| 0 <= i < post.refs@.len() implies post.ref_ok(
        #[trigger] post.refs@[i],
    ) by {
        assert(pre.ref_ok(pre.refs@[i]));
    }
}

/// Appending a typed-array object preserves well-formedness.
proof fn lemma_push_array_preserves_wf(pre: VmEnv, post: VmEnv, o: VmObject)
    requires
        pre.wf(),
        post.objects@ == pre.objects@.push(o),
        o is TypedArr,
        post.heap_external == pre.heap_external,
        post.registry@ == pre.registry@,
        post.refs@ == pre.refs@,
        post.next_addr == pre.next_addr,
        VmEnv::same_host_caps(pre, post),
    ensures
        post.wf(),
{
    lemma_sum_push(pre.objects@, o);
    let n = pre.objects@.len() as int;
    assert forall|i: int|
        0 <= i < post.objects@.len() && (#[trigger] post.objects@[i]) is Buf implies post.buf_ok(
        post.objects@[i]->Buf_0,
    ) by {
        assert(i < n);
        assert(pre.objects@[i] is Buf);
        assert(pre.buf_ok(pre.objects@[i]->Buf_0));
    }
    assert forall|i: int|
        0 <= i < post.objects@.len() && #[trigger] post.tracked_external(i)
        implies post.registry@.contains(post.objects@[i]->Buf_0.addr) by {
        assert(i < n);
        assert(pre.tracked_external(i));
    }
    assert forall|i: int, j: int|
        0 <= i < post.objects@.len() && 0 <= j < post.objects@.len() && i != j
            && #[trigger] post.tracked_external(i) && #[trigger] post.tracked_external(j)
        implies post.objects@[i]->Buf_0.addr != post.objects@[j]->Buf_0.addr by {
        assert(i < n && j < n);
        assert(pre.tracked_external(i));
        assert(pre.tracked_external(j));
    }
    assert forall|i: int| 0 <= i < post.refs@.len() implies post.ref_ok(
        #[trigger] post.refs@[i],
    ) by {
        assert(pre.ref_ok(pre.refs@[i]));
    }
}

/// Entering the finalizer preserves well-formedness.
proof fn lemma_finalize_begin_wf(pre: VmEnv, post: VmEnv, h: usize)
    requires
        pre.wf(),
        VmEnv::finalize_begun(pre, post, h),
    ensures
        post.wf(),
{
    lemma_sum_update(pre.objects@, h as int, post.objects@[h as int]);
    assert(post.objects@ =~= pre.objects@.update(h as int, post.objects@[h as int]));
    assert forall|i: int|
        0 <= i < post.objects@.len() && (#[trigger] post.objects@[i]) is Buf implies post.buf_ok(
        post.objects@[i]->Buf_0,
    ) by {
        if i != h {
            assert(pre.objects@[i] is Buf);
            assert(pre.buf_ok(pre.objects@[i]->Buf_0));
        } else {
            assert(pre.buf_ok(pre.buffer_at(h)));
        }
    }
    assert forall|i: int|
        0 <= i < post.objects@.len() && #[trigger] post.tracked_external(i)
        implies post.registry@.contains(post.objects@[i]->Buf_0.addr) by {
        assert(pre.tracked_external(i));
    }
    assert forall|i: int, j: int|
        0 <= i < post.objects@.len() && 0 <= j < post.objects@.len() && i != j
            && #[trigger] post.tracked_external(i) && #[trigger] post.tracked_external(j)
        implies post.objects@[i]->Buf_0.addr != post.objects@[j]->Buf_0.addr by {
        assert(pre.tracked_external(i));
        assert(pre.tracked_external(j));
    }
    assert forall|i: int| 0 <= i < post.refs@.len() implies post.ref_ok(
        #[trigger] post.refs@[i],
    ) by {
        assert(pre.ref_ok(pre.refs@[i]));
    }
}

/// Leaving the finalizer preserves well-formedness.
proof fn lemma_finalize_end_wf(pre: VmEnv, post: VmEnv, h: usize)
    requires
        pre.wf(),
        VmEnv::finalize_ended(pre, post, h),
    ensures
        post.wf(),
{
    lemma_sum_update(pre.objects@, h as int, post.objects@[h as int]);
    assert(post.objects@ =~= pre.objects@.update(h as int, post.objects@[h as int]));
    let a = pre.buffer_at(h).addr;
    assert forall|x: usize| post.registry@.contains(x) implies 0 < x < post.next_addr by {
        assert(pre.registry@.contains(x));
    }
    assert forall|i: int|
        0 <= i < post.objects@.len() && (#[trigger] post.objects@[i]) is Buf implies post.buf_ok(
        post.objects@[i]->Buf_0,
    ) by {
        if i != h {
            assert(pre.objects@[i] is Buf);
            assert(pre.buf_ok(pre.objects@[i]->Buf_0));
        } else {
            assert(pre.buf_ok(pre.buffer_at(h)));
        }
    }
    assert forall|i: int|
        0 <= i < post.objects@.len() && #[trigger] post.tracked_external(i)
        implies post.registry@.contains(post.objects@[i]->Buf_0.addr) by {
        assert(pre.tracked_external(i));
        assert(pre.tracked_external(h as int));
        assert(i != h ==> post.objects@[i]->Buf_0.addr != a);
    }
    assert forall|i: int, j: int|
        0 <= i < post.objects@.len() && 0 <= j < post.objects@.len() && i != j
            && #[trigger] post.tracked_external(i) && #[trigger] post.tracked_external(j)
        implies post.objects@[i]->Buf_0.addr != post.objects@[j]->Buf_0.addr by {
        assert(pre.tracked_external(i));
        assert(pre.tracked_external(j));
    }
    assert forall|i: int| 0 <= i < post.refs@.len() implies post.ref_ok(
        #[trigger] post.refs@[i],
    ) by {
        assert(pre.ref_ok(pre.refs@[i]));
    }
}

/// Raising the address watermark preserves well-formedness.
proof fn lemma_next_addr_grow_wf(pre: VmEnv, post: VmEnv)
    requires
        pre.wf(),
        post.objects@ == pre.objects@,
        post.registry@ == pre.registry@,
        post.refs@ == pre.refs@,
        post.heap_external == pre.heap_external,
        pre.next_addr <= post.next_addr,
        VmEnv::same_host_caps(pre, post),
    ensures
        post.wf(),
{
    assert forall|i: int|
        0 <= i < post.objects@.len() && (#[trigger] post.objects@[i]) is Buf implies post.buf_ok(
        post.objects@[i]->Buf_0,
    ) by {
        assert(pre.buf_ok(pre.objects@[i]->Buf_0));
    }
    assert forall|i: int|
        0 <= i < post.objects@.len() && #[trigger] post.tracked_external(i)
        implies post.registry@.contains(post.objects@[i]->Buf_0.addr) by {
        assert(pre.tracked_external(i));
    }
    assert forall|i: int, j: int|
        0 <= i < post.objects@.len() && 0 <= j < post.objects@.len() && i != j
            && #[trigger] post.tracked_external(i) && #[trigger] post.tracked_external(j)
        implies post.objects@[i]->Buf_0.addr != post.objects@[j]->Buf_0.addr by {
        assert(pre.tracked_external(i));
        assert(pre.tracked_external(j));
    }
    assert forall|i: int| 0 <= i < post.refs@.len() implies post.ref_ok(
        #[trigger] post.refs@[i],
    ) by {
        assert(pre.ref_ok(pre.refs@[i]));
    }
}

/// Well-formedness depends only on the components listed here.
proof fn lemma_wf_congruence(pre: VmEnv, post: VmEnv)
    requires
        pre.wf(),
        post.objects@ == pre.objects@,
        post.registry@ == pre.registry@,
        post.refs@ == pre.refs@,
        post.heap_external == pre.heap_external,
        post.next_addr == pre.next_addr,
        VmEnv::same_host_caps(pre, post),
    ensures
        post.wf(),
{
    assert forall|i: int|
        0 <= i < post.objects@.len() && (#[trigger] post.objects@[i]) is Buf implies post.buf_ok(
        post.objects@[i]->Buf_0,
    ) by {
        assert(pre.buf_ok(pre.objects@[i]->Buf_0));
    }
    assert forall|i: int|
        0 <= i < post.objects@.len() && #[trigger] post.tracked_external(i)
        implies post.registry@.contains(post.objects@[i]->Buf_0.addr) by {
        assert(pre.tracked_external(i));
    }
    assert forall|i: int, j: int|
        0 <= i < post.objects@.len() && 0 <= j < post.objects@.len() && i != j
            && #[trigger] post.tracked_external(i) && #[trigger] post.tracked_external(j)
        implies post.objects@[i]->Buf_0.addr != post.objects@[j]->Buf_0.addr by {
        assert(pre.tracked_external(i));
        assert(pre.tracked_external(j));
    }
    assert forall|i: int| 0 <= i < post.refs@.len() implies post.ref_ok(
        #[trigger] post.refs@[i],
    ) by {
        assert(pre.ref_ok(pre.refs@[i]));
    }
}

/// Appending a freshly registered external buffer preserves
/// well-formedness.
proof fn lemma_bind_push_preserves_wf(pre: VmEnv, post: VmEnv, o: VmObject, addr: usize)
    requires
        pre.wf(),
        o is Buf,
        o->Buf_0.external,
        o->Buf_0.phase is Bound,
        o->Buf_0.addr == addr,
        0 < addr,
        !pre.registry@.contains(addr),
        post.objects@ == pre.objects@.push(o),
        post.registry@ == pre.registry@.insert(addr),
        addr < post.next_addr,
        pre.next_addr <= post.next_addr,
        post.heap_external as int == pre.heap_external + accounted_of(o),
        post.refs@ == pre.refs@,
        VmEnv::same_host_caps(pre, post),
    ensures
        post.wf(),
{
    lemma_sum_push(pre.objects@, o);
    let n = pre.objects@.len() as int;
    assert forall|a: usize| post.registry@.contains(a) implies 0 < a < post.next_addr by {
        if a != addr {
            assert(pre.registry@.contains(a));
        }
    }
    assert forall|i: int|
        0 <= i < post.objects@.len() && (#[trigger] post.objects@[i]) is Buf implies post.buf_ok(
        post.objects@[i]->Buf_0,
    ) by {
        if i < n {
            assert(pre.objects@[i] is Buf);
            assert(pre.buf_ok(pre.objects@[i]->Buf_0));
        }
    }
    assert forall|i: int|
        0 <= i < post.objects@.len() && #[trigger] post.tracked_external(i)
        implies post.registry@.contains(post.objects@[i]->Buf_0.addr) by {
        if i < n {
            assert(pre.tracked_external(i));
        }
    }
    assert forall|i: int, j: int|
        0 <= i < post.objects@.len() && 0 <= j < post.objects@.len() && i != j
            && #[trigger] post.tracked_external(i) && #[trigger] post.tracked_external(j)
        implies post.objects@[i]->Buf_0.addr != post.objects@[j]->Buf_0.addr by {
        if i < n && j < n {
            assert(pre.tracked_external(i));
            assert(pre.tracked_external(j));
        } else if i == n && j < n {
            assert(pre.tracked_external(j));
            assert(pre.registry@.contains(pre.objects@[j]->Buf_0.addr));
        } else if j == n && i < n {
            assert(pre.tracked_external(i));
            assert(pre.registry@.contains(pre.objects@[i]->Buf_0.addr));
        }
    }
    assert forall|i: int| 0 <= i < post.refs@.len() implies post.ref_ok(
        #[trigger] post.refs@[i],
    ) by {
        assert(pre.ref_ok(pre.refs@[i]));
    }
}

/// Appending a host-owned, unaccounted buffer object preserves
/// well-formedness.
proof fn lemma_push_owned_preserves_wf(pre: VmEnv, post: VmEnv, o: VmObject)
    requires
        pre.wf(),
        post.objects@ == pre.objects@.push(o),
        o is Buf,
        !o->Buf_0.external,
        o->Buf_0.accounted == 0,
        post.heap_external == pre.heap_external,
        post.registry@ == pre.registry@,
        post.refs@ == pre.refs@,
        post.next_addr == pre.next_addr,
        VmEnv::same_host_caps(pre, post),
    ensures
        post.wf(),
{
    lemma_sum_push(pre.objects@, o);
    let n = pre.objects@.len() as int;
    assert forall|i: int|
        0 <= i < post.objects@.len() && (#[trigger] post.objects@[i]) is Buf implies post.buf_ok(
        post.objects@[i]->Buf_0,
    ) by {
        if i < n {
            assert(pre.objects@[i] is Buf);
            assert(pre.buf_ok(pre.objects@[i]->Buf_0));
        }
    }
    assert forall|i: int|
        0 <= i < post.objects@.len() && #[trigger] post.tracked_external(i)
        implies post.registry@.contains(post.objects@[i]->Buf_0.addr) by {
        if i < n {
            assert(pre.tracked_external(i));
        } else {
            assert(!post.tracked_external(i));
        }
    }
    assert forall|i: int, j: int|
        0 <= i < post.objects@.len() && 0 <= j < post.objects@.len() && i != j
            && #[trigger] post.tracked_external(i) && #[trigger] post.tracked_external(j)
        implies post.objects@[i]->Buf_0.addr != post.objects@[j]->Buf_0.addr by {
        assert(!post.tracked_external(n));
        assert(pre.tracked_external(i));
        assert(pre.tracked_external(j));
    }
    assert forall|i: int| 0 <= i < post.refs@.len() implies post.ref_ok(
        #[trigger] post.refs@[i],
    ) by {
        assert(pre.ref_ok(pre.refs@[i]));
    }
}

/// A byte-for-byte copy.
pub fn copy_bytes(src: &Vec<u8>) -> (r: Vec<u8>)
    ensures
        r@ == src@,
{
    let mut out: Vec<u8> = Vec::new();
    let mut i: usize = 0;
    while i < src.len()
        invariant
            i <= src@.len(),
            out@ == src@.subrange(0, i as int),
        decreases src@.len() - i,
    {
        out.push(src[i]);
        proof {
            assert(out@ =~= src@.subrange(0, i + 1 as int));
        }
        i = i + 1;
    }
    proof {
        assert(out@ =~= src@);
    }
    out
}

} // verus!

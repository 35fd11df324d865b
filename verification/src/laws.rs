//! Laws of the binding protocol, proved once for every input.
//!
//! Each law is stated over the same postcondition predicates the
//! executable operations ensure, so it applies to every run of the real
//! code: whatever sequence of operations produced the states named here,
//! the conclusions hold.

use crate::bind::copied_to_host;
use crate::host::{FinalizerDuty, VmEnv};
use vstd::prelude::*;

verus! {

/// Accounting and the registry balance over a buffer's whole life.
///
/// For every non-empty region bound zero-copy: the host-visible length
/// equals the native length; the external-heap delta of the bind and the
/// delta of the matching finalizer sum to zero, so accounting never
/// drifts; and the pointer's registry entry is gone once the finalizer
/// completes, free to back a new buffer.
pub proof fn lemma_bind_finalize_balance(
    e0: VmEnv,
    e1: VmEnv,
    e2: VmEnv,
    e3: VmEnv,
    h: usize,
    addr: usize,
    contents: Seq<u8>,
    duty: FinalizerDuty,
    node_buffer: bool,
)
    requires
        VmEnv::zero_copy_bound(e0, e1, h, addr, contents, duty, node_buffer),
        VmEnv::finalize_begun(e1, e2, h),
        VmEnv::finalize_ended(e2, e3, h),
    ensures
        e1.buffer_at(h).bytes@.len() == contents.len(),
        e1.heap_external - e0.heap_external == contents.len(),
        e3.heap_external - e1.heap_external == -(contents.len() as int),
        e3.heap_external == e0.heap_external,
        e3.registry@ =~= e0.registry@,
{
    assert(e1.buffer_at(h).accounted == contents.len());
    assert(e2.heap_external == e1.heap_external - contents.len());
    assert(e2.buffer_at(h).addr == addr);
    assert(e3.registry@ == e1.registry@.remove(addr));
    assert(e3.registry@ =~= e0.registry@);
}

/// No two simultaneously live external buffers share a backing pointer.
///
/// This holds in every well-formed environment, whatever sequence of binds
/// and finalizations produced it: binding registers the pointer and a
/// duplicate registration is rejected before a second buffer exists.
pub proof fn lemma_no_live_aliasing(env: VmEnv, i: int, j: int)
    requires
        env.wf(),
        0 <= i < env.objects@.len(),
        0 <= j < env.objects@.len(),
        i != j,
        env.tracked_external(i),
        env.tracked_external(j),
    ensures
        env.objects@[i]->Buf_0.addr != env.objects@[j]->Buf_0.addr,
{
}

/// Zero-length regions never bind zero-copy.
///
/// Every empty region becomes a host-owned empty buffer: a valid view of
/// length zero with a null backing address that is never dereferenced, no
/// registry entry, and no accounting charge.
pub proof fn lemma_empty_region_copied(
    pre: VmEnv,
    post: VmEnv,
    h: usize,
    contents: Seq<u8>,
    node_buffer: bool,
)
    requires
        copied_to_host(pre, post, h, contents, node_buffer),
        contents.len() == 0,
    ensures
        post.registry@ == pre.registry@,
        post.heap_external == pre.heap_external,
        post.is_buffer_handle(h),
        post.buffer_at(h).bytes@.len() == 0,
        post.buffer_at(h).addr == 0,
        !post.buffer_at(h).external,
{
}

/// Sequential reuse of a freed pointer is legal.
///
/// Registry entries are removed when a buffer is finalized, so an address
/// observed to have left the registry is no longer a duplicate: a later
/// bind of the same address finds it absent. Only two simultaneously live
/// buffers sharing an address are rejected.
pub proof fn lemma_pointer_reuse(entries: Set<usize>, p: usize)
    ensures
        !entries.remove(p).contains(p),
{
}

/// The copy path is byte-faithful.
///
/// Every buffer constructed by the copy path holds bytes identical to its
/// source, element by element, so a typed read-back compares equal to what
/// was written; and the copy touches neither heap accounting nor the
/// registry, since the host owns the new region outright.
pub proof fn lemma_copy_round_trip(
    pre: VmEnv,
    post: VmEnv,
    h: usize,
    data: Seq<u8>,
    node_buffer: bool,
)
    requires
        copied_to_host(pre, post, h, data, node_buffer),
    ensures
        post.buffer_at(h).bytes@ == data,
        forall|i: int| 0 <= i < data.len() ==> post.buffer_at(h).bytes@[i] == data[i],
        post.heap_external == pre.heap_external,
        post.registry@ == pre.registry@,
{
}

} // verus!

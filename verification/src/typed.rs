//! The long-lived typed array, generic over its element kind.
//!
//! Every numeric element family shares this one ownership state machine;
//! elements are raw bytes read `width` at a time, so nothing is duplicated
//! per kind and no element value is ever interpreted here. The three
//! ownership states are explicit: native-owned bytes the host has not seen,
//! a borrowed view of a host value that neither side frees, and a persistent
//! reference acquired by promoting a call-scoped view.

use crate::backing::BackingStore;
use crate::bind::{bind_external, BindOutcome};
use crate::element::{spec_width, TypedArrayType};
use crate::error::BufferError;
use crate::host::{ExecContext, RefState, VmEnv, VmRef, VmTypedArray};
use vstd::prelude::*;
use vstd::string::StringSliceAdditionalSpecFns;
use vstd::utf8::encode_utf8;

verus! {

/// Who holds the elements of a typed array.
pub enum TypedSource {
    /// Native bytes the host has not adopted; if `notify` holds, the
    /// caller asked to be handed the region back when it is deallocated.
    NativeOwned { data: Vec<u8>, notify: bool },
    /// A host typed-array value borrowed for the current call; neither
    /// side frees anything.
    Borrowed { handle: usize, buffer: usize, byte_offset: usize },
    /// A persistent reference to a host typed-array value, acquired by
    /// promoting a call-scoped view.
    Referenced { ref_id: usize, handle: usize, buffer: usize, byte_offset: usize },
}

/// A typed array of `length` elements of kind `kind`.
pub struct TypedArray {
    pub kind: TypedArrayType,
    pub length: usize,
    pub source: TypedSource,
}

/// What releasing a typed array did.
#[derive(Clone, Copy, Debug, PartialEq, Eq, Structural)]
pub enum TypedReleaseOutcome {
    /// Native bytes were freed; `notified` says whether the caller's
    /// notify callback must run first, handed the region.
    FreedNative { notified: bool },
    /// A borrowed view: nothing was owned, nothing was done.
    NoOwnership,
    /// Inside a finalizer the host forbids touching references, so the
    /// reference is leaked; the host reclaims it at environment teardown.
    LeakedInFinalizer,
    /// Other holders remain.
    StillShared,
    /// The count reached zero and the reference was deleted.
    DeletedNow,
}

impl TypedArray {
    pub open spec fn is_native(self) -> bool {
        self.source is NativeOwned
    }

    pub open spec fn native_data(self) -> Seq<u8> {
        self.source->NativeOwned_data@
    }

    pub open spec fn has_notify(self) -> bool {
        self.source matches TypedSource::NativeOwned { notify, .. } && notify
    }

    /// Element count times element width.
    pub open spec fn byte_len(self) -> int {
        self.length * spec_width(self.kind)
    }

    pub open spec fn valid(self, env: VmEnv) -> bool {
        &&& self.kind != TypedArrayType::Unknown
        &&& match self.source {
            TypedSource::NativeOwned { data, .. } => data@.len() == self.byte_len(),
            TypedSource::Borrowed { handle, buffer, byte_offset } => {
                &&& env.is_array_handle(handle)
                &&& env.array_at(handle) == (VmTypedArray {
                    kind: self.kind,
                    buffer,
                    byte_offset,
                    length: self.length,
                })
            },
            TypedSource::Referenced { ref_id, handle, buffer, byte_offset } => {
                &&& env.is_ref(ref_id)
                &&& env.ref_at(ref_id).state is Live
                &&& env.ref_at(ref_id).count >= 1
                &&& env.ref_at(ref_id).target == handle
                &&& env.is_array_handle(handle)
                &&& env.array_at(handle) == (VmTypedArray {
                    kind: self.kind,
                    buffer,
                    byte_offset,
                    length: self.length,
                })
            },
        }
    }

    /// The buffer object a host-backed array reads through.
    pub open spec fn backing_buffer(self) -> usize {
        match self.source {
            TypedSource::NativeOwned { .. } => 0,
            TypedSource::Borrowed { buffer, .. } => buffer,
            TypedSource::Referenced { buffer, .. } => buffer,
        }
    }

    pub open spec fn backing_offset(self) -> usize {
        match self.source {
            TypedSource::NativeOwned { .. } => 0,
            TypedSource::Borrowed { byte_offset, .. } => byte_offset,
            TypedSource::Referenced { byte_offset, .. } => byte_offset,
        }
    }

    /// The array is valid and its elements can be read: a host-backed
    /// array's underlying buffer is bound, not detached, and large enough.
    pub open spec fn readable(self, env: VmEnv) -> bool {
        &&& self.valid(env)
        &&& !self.is_native() ==> {
            &&& env.is_buffer_handle(self.backing_buffer())
            &&& env.buffer_at(self.backing_buffer()).phase is Bound
            &&& !env.buffer_at(self.backing_buffer()).detached
            &&& self.backing_offset() + self.byte_len() <= env.buffer_at(
                self.backing_buffer(),
            ).bytes@.len()
        }
    }

    /// The element bytes this array denotes.
    pub open spec fn contents(self, env: VmEnv) -> Seq<u8> {
        match self.source {
            TypedSource::NativeOwned { data, .. } => data@,
            TypedSource::Borrowed { .. } => env.buffer_at(self.backing_buffer()).bytes@.subrange(
                self.backing_offset() as int,
                self.backing_offset() + self.byte_len(),
            ),
            TypedSource::Referenced { .. } => env.buffer_at(self.backing_buffer()).bytes@.subrange(
                self.backing_offset() as int,
                self.backing_offset() + self.byte_len(),
            ),
        }
    }

    /// Read the element bytes back into native memory.
    pub fn to_vec(&self, env: &VmEnv) -> (r: Vec<u8>)
        requires
            self.readable(*env),
        ensures
            r@ == self.contents(*env),
            r@.len() == self.byte_len(),
    {
        match &self.source {
            TypedSource::NativeOwned { data, .. } => crate::host::copy_bytes(data),
            TypedSource::Borrowed { buffer, byte_offset, .. } => {
                read_buffer_range(env, *buffer, *byte_offset, self.length, self.kind)
            },
            TypedSource::Referenced { buffer, byte_offset, .. } => {
                read_buffer_range(env, *buffer, *byte_offset, self.length, self.kind)
            },
        }
    }

    /// Wrap native bytes as a typed array of whole elements.
    pub fn new(kind: TypedArrayType, data: Vec<u8>) -> (t: TypedArray)
        requires
            kind != TypedArrayType::Unknown,
            data@.len() as int % spec_width(kind) == 0,
        ensures
            t.kind == kind,
            t.is_native(),
            !t.has_notify(),
            t.native_data() == data@,
            t.byte_len() == data@.len(),
            forall|env: VmEnv| t.valid(env),
    {
        let w = kind.element_width();
        let length = data.len() / w;
        proof {
            assert((data@.len() as int) / (w as int) * (w as int) == data@.len() as int)
                by (nonlinear_arith)
                requires
                    1 <= w,
                    data@.len() as int % (w as int) == 0,
            ;
        }
        TypedArray { kind, length, source: TypedSource::NativeOwned { data, notify: false } }
    }

    /// Wrap a copy of the caller's bytes.
    pub fn with_data_copied(kind: TypedArrayType, data: &Vec<u8>) -> (t: TypedArray)
        requires
            kind != TypedArrayType::Unknown,
            data@.len() as int % spec_width(kind) == 0,
        ensures
            t.kind == kind,
            t.is_native(),
            !t.has_notify(),
            t.native_data() == data@,
            t.byte_len() == data@.len(),
            forall|env: VmEnv| t.valid(env),
    {
        let copied = crate::host::copy_bytes(data);
        Self::new(kind, copied)
    }

    /// Wrap caller-owned bytes; the caller will be notified when the host
    /// deallocates the region.
    pub fn with_external_data(kind: TypedArrayType, data: Vec<u8>) -> (t: TypedArray)
        requires
            kind != TypedArrayType::Unknown,
            data@.len() as int % spec_width(kind) == 0,
        ensures
            t.kind == kind,
            t.is_native(),
            t.has_notify(),
            t.native_data() == data@,
            t.byte_len() == data@.len(),
            forall|env: VmEnv| t.valid(env),
    {
        let w = kind.element_width();
        let length = data.len() / w;
        proof {
            assert((data@.len() as int) / (w as int) * (w as int) == data@.len() as int)
                by (nonlinear_arith)
                requires
                    1 <= w,
                    data@.len() as int % (w as int) == 0,
            ;
        }
        TypedArray { kind, length, source: TypedSource::NativeOwned { data, notify: true } }
    }

    /// A byte array over a native string's storage, without copying: the
    /// string's bytes become the elements, and the string is rebuilt and
    /// freed when the host is done with them.
    pub fn from_string(s: String) -> (t: TypedArray)
        ensures
            t.kind == TypedArrayType::Uint8,
            t.is_native(),
            t.has_notify(),
            t.native_data() == encode_utf8(s@),
            forall|env: VmEnv| t.valid(env),
    {
        let bytes = slice_to_vec(s.as_str().as_bytes());
        Self::with_external_data(TypedArrayType::Uint8, bytes)
    }

    /// Element count.
    pub fn len(&self) -> (n: usize)
        ensures
            n == self.length,
    {
        self.length
    }

    /// Wrap an incoming host typed-array value as a borrowed view.
    ///
    /// The element kind is validated against the expectation; a host array
    /// of any other kind is refused, naming the expected and the actual
    /// kind.
    pub fn from_value(env: &VmEnv, handle: usize, expected: TypedArrayType) -> (r: Result<
        TypedArray,
        BufferError,
    >)
        requires
            expected != TypedArrayType::Unknown,
        ensures
            !env.is_array_handle(handle) ==> r == Err::<TypedArray, BufferError>(
                BufferError::InvalidArgument,
            ),
            env.is_array_handle(handle) && env.array_at(handle).kind != expected ==> r == Err::<
                TypedArray,
                BufferError,
            >(BufferError::KindMismatch(expected, env.array_at(handle).kind)),
            env.is_array_handle(handle) && env.array_at(handle).kind == expected ==> (r matches Ok(
                t,
            ) && {
                &&& t.kind == expected
                &&& t.length == env.array_at(handle).length
                &&& t.source == (TypedSource::Borrowed {
                    handle,
                    buffer: env.array_at(handle).buffer,
                    byte_offset: env.array_at(handle).byte_offset,
                })
                &&& t.valid(*env)
            }),
    {
        match env.typed_array_info(handle) {
            Err(e) => Err(e),
            Ok((kind, length, buffer, byte_offset)) => {
                if kind != expected {
                    Err(BufferError::KindMismatch(expected, kind))
                } else {
                    Ok(
                        TypedArray {
                            kind: expected,
                            length,
                            source: TypedSource::Borrowed { handle, buffer, byte_offset },
                        },
                    )
                }
            },
        }
    }

    /// Promote a host typed-array value to a long-lived handle by
    /// acquiring one persistent reference, so it survives past the call
    /// that received it.
    pub fn promote(env: &mut VmEnv, handle: usize, expected: TypedArrayType) -> (r: Result<
        TypedArray,
        BufferError,
    >)
        requires
            old(env).wf(),
            expected != TypedArrayType::Unknown,
            old(env).refs@.len() < usize::MAX,
        ensures
            final(env).wf(),
            !old(env).is_array_handle(handle) ==> r == Err::<TypedArray, BufferError>(
                BufferError::InvalidArgument,
            ) && VmEnv::unchanged(*old(env), *final(env)),
            old(env).is_array_handle(handle) && old(env).array_at(handle).kind != expected ==> r
                == Err::<TypedArray, BufferError>(
                BufferError::KindMismatch(expected, old(env).array_at(handle).kind),
            ) && VmEnv::unchanged(*old(env), *final(env)),
            old(env).is_array_handle(handle) && old(env).array_at(handle).kind == expected ==> (
            r matches Ok(t) && {
                &&& t.kind == expected
                &&& t.length == old(env).array_at(handle).length
                &&& t.source matches TypedSource::Referenced { ref_id, .. } && ref_id == old(env).refs@.len()
                &&& t.valid(*final(env))
                &&& final(env).refs@ == old(env).refs@.push(
                    VmRef { target: handle, count: 1, state: RefState::Live },
                )
                &&& final(env).objects@ == old(env).objects@
                &&& final(env).heap_external == old(env).heap_external
                &&& final(env).registry@ == old(env).registry@
                &&& VmEnv::same_host_caps(*old(env), *final(env))
            }),
    {
        match env.typed_array_info(handle) {
            Err(e) => Err(e),
            Ok((kind, length, buffer, byte_offset)) => {
                if kind != expected {
                    Err(BufferError::KindMismatch(expected, kind))
                } else {
                    let ref_id = env.create_reference(handle, 1);
                    Ok(
                        TypedArray {
                            kind: expected,
                            length,
                            source: TypedSource::Referenced {
                                ref_id,
                                handle,
                                buffer,
                                byte_offset,
                            },
                        },
                    )
                }
            },
        }
    }

    /// Move this typed array to the host as a call result.
    ///
    /// Native bytes are bound through the backing-store protocol —
    /// zero-copy where the host allows it, by copy otherwise — and a typed
    /// array of this kind is created over the resulting buffer. The second
    /// component says whether the caller's notify callback must be run now:
    /// it is run now exactly when a notify obligation exists and the host
    /// did not adopt the region (the copy fallback and the empty case);
    /// after a zero-copy bind the obligation moves into the host's
    /// finalizer instead. A borrowed or referenced array hands back the
    /// host value it wraps; a referenced one transfers its reference,
    /// deleting it, so this handle's cleanup is already done.
    pub fn to_value(self, env: &mut VmEnv) -> (r: Result<(usize, bool), BufferError>)
        requires
            old(env).wf(),
            self.valid(*old(env)),
            old(env).heap_external + self.byte_len() <= i64::MAX,
            old(env).objects@.len() + 2 <= usize::MAX,
            old(env).next_addr < usize::MAX,
        ensures
            final(env).wf(),
            VmEnv::same_host_caps(*old(env), *final(env)),
            self.source matches TypedSource::Borrowed { handle, .. } ==> r == Ok::<
                (usize, bool),
                BufferError,
            >((handle, false)) && VmEnv::unchanged(*old(env), *final(env)),
            self.source matches TypedSource::Referenced { ref_id, handle, .. } ==> ({
                &&& r == Ok::<(usize, bool), BufferError>((handle, false))
                &&& VmEnv::refs_updated(*old(env), *final(env), ref_id)
                &&& final(env).ref_at(ref_id) == (VmRef {
                    count: 0,
                    state: RefState::Deleted,
                    ..old(env).ref_at(ref_id)
                })
                &&& final(env).objects@ == old(env).objects@
                &&& final(env).heap_external == old(env).heap_external
                &&& final(env).registry@ == old(env).registry@
            }),
            self.is_native() ==> (r matches Ok(out) && {
                let pre = *old(env);
                let post = *final(env);
                let data = self.native_data();
                let bufh = pre.objects@.len() as usize;
                &&& out.0 == pre.objects@.len() + 1
                &&& post.objects@.len() == pre.objects@.len() + 2
                &&& forall|i: int| 0 <= i < pre.objects@.len() ==> post.objects@[i] == pre.objects@[i]
                &&& post.is_array_handle(out.0)
                &&& post.array_at(out.0) == (VmTypedArray {
                    kind: self.kind,
                    buffer: bufh,
                    byte_offset: 0,
                    length: self.length,
                })
                &&& post.is_buffer_handle(bufh)
                &&& post.buffer_at(bufh).bytes@ == data
                &&& post.buffer_at(bufh).phase is Bound
                &&& !post.buffer_at(bufh).detached
                &&& post.refs@ == pre.refs@
                &&& data.len() > 0 && pre.allows_external ==> {
                    &&& out.1 == false
                    &&& post.heap_external == pre.heap_external + data.len()
                    &&& post.registry@ == pre.registry@.insert(pre.next_addr)
                }
                &&& data.len() == 0 || !pre.allows_external ==> {
                    &&& out.1 == self.has_notify()
                    &&& post.heap_external == pre.heap_external
                    &&& post.registry@ == pre.registry@
                }
            }),
    {
        match self.source {
            TypedSource::Borrowed { handle, .. } => Ok((handle, false)),
            TypedSource::Referenced { ref_id, .. } => {
                let h = env.get_reference_value(ref_id);
                env.delete_reference(ref_id);
                Ok((h, false))
            },
            TypedSource::NativeOwned { data, notify } => {
                let addr = env.alloc_addr();
                let store = if notify {
                    BackingStore::from_borrowed(data, addr)
                } else {
                    BackingStore::from_vec(data, addr)
                };
                let (bufh, copied) = match bind_external(env, store, false) {
                    Ok(BindOutcome::ZeroCopy(h)) => (h, false),
                    Ok(BindOutcome::Copied(h)) => (h, true),
                    Err(e) => {
                        proof {
                            assert(false);
                        }
                        return Err(e);
                    },
                };
                match env.create_typed_array(self.kind, self.length, bufh, 0) {
                    Ok(th) => Ok((th, copied && notify)),
                    Err(e) => {
                        proof {
                            assert(false);
                        }
                        Err(e)
                    },
                }
            },
        }
    }

    /// Release this handle.
    ///
    /// Native bytes are freed — after the caller's notify callback, when
    /// one was registered. A borrowed view owns nothing. A promoted
    /// reference is left untouched inside a finalizer, where the host
    /// forbids reference calls, and leaks safely until environment
    /// teardown; otherwise it is decremented and, at zero, deleted.
    pub fn release(self, env: &mut VmEnv, ctx: &ExecContext) -> (o: TypedReleaseOutcome)
        requires
            old(env).wf(),
            self.valid(*old(env)),
        ensures
            final(env).wf(),
            final(env).objects@ == old(env).objects@,
            final(env).heap_external == old(env).heap_external,
            final(env).registry@ == old(env).registry@,
            VmEnv::same_host_caps(*old(env), *final(env)),
            self.is_native() ==> o == (TypedReleaseOutcome::FreedNative {
                notified: self.has_notify(),
            }) && final(env).refs@ == old(env).refs@,
            self.source is Borrowed ==> o == TypedReleaseOutcome::NoOwnership && final(env).refs@
                == old(env).refs@,
            self.source matches TypedSource::Referenced { ref_id, .. } ==> ({
                let pre = old(env).ref_at(ref_id);
                &&& ctx.in_finalizer ==> o == TypedReleaseOutcome::LeakedInFinalizer && final(env).refs@ == old(env).refs@
                &&& !ctx.in_finalizer ==> {
                    &&& VmEnv::refs_updated(*old(env), *final(env), ref_id)
                    &&& pre.count > 1 ==> o == TypedReleaseOutcome::StillShared && final(env).ref_at(ref_id) == (VmRef { count: (pre.count - 1) as u32, ..pre })
                    &&& pre.count == 1 ==> o == TypedReleaseOutcome::DeletedNow && final(env).ref_at(ref_id) == (VmRef { count: 0, state: RefState::Deleted, ..pre })
                }
            }),
    {
        match self.source {
            TypedSource::NativeOwned { data, notify } => {
                let _ = data;
                TypedReleaseOutcome::FreedNative { notified: notify }
            },
            TypedSource::Borrowed { .. } => TypedReleaseOutcome::NoOwnership,
            TypedSource::Referenced { ref_id, .. } => {
                if ctx.in_finalizer {
                    return TypedReleaseOutcome::LeakedInFinalizer;
                }
                let c = env.reference_unref(ref_id);
                if c > 0 {
                    TypedReleaseOutcome::StillShared
                } else {
                    env.delete_reference(ref_id);
                    TypedReleaseOutcome::DeletedNow
                }
            },
        }
    }
}

/// Copy `length` elements of `kind`, starting `byte_offset` bytes into the
/// buffer `buffer`, out of the environment.
fn read_buffer_range(
    env: &VmEnv,
    buffer: usize,
    byte_offset: usize,
    length: usize,
    kind: TypedArrayType,
) -> (r: Vec<u8>)
    requires
        kind != TypedArrayType::Unknown,
        env.is_buffer_handle(buffer),
        byte_offset + length * spec_width(kind) <= env.buffer_at(buffer).bytes@.len(),
    ensures
        r@ == env.buffer_at(buffer).bytes@.subrange(
            byte_offset as int,
            byte_offset + length * spec_width(kind),
        ),
{
    let blen = env.buffer_len(buffer);
    let w = kind.element_width();
    let byte_len = length * w;
    let mut out: Vec<u8> = Vec::new();
    let mut i: usize = 0;
    while i < byte_len
        invariant
            i <= byte_len,
            byte_len == length * spec_width(kind),
            kind != TypedArrayType::Unknown,
            env.is_buffer_handle(buffer),
            blen == env.buffer_at(buffer).bytes@.len(),
            byte_offset + byte_len <= blen,
            out@ == env.buffer_at(buffer).bytes@.subrange(
                byte_offset as int,
                byte_offset + i,
            ),
        decreases byte_len - i,
    {
        let v = env.buffer_read(buffer, byte_offset + i);
        out.push(v);
        proof {
            assert(out@ =~= env.buffer_at(buffer).bytes@.subrange(
                byte_offset as int,
                byte_offset + i + 1,
            ));
        }
        i = i + 1;
    }
    out
}

/// A vector holding a slice's bytes.
fn slice_to_vec(src: &[u8]) -> (r: Vec<u8>)
    ensures
        r@ == src@,
{
    let mut out: Vec<u8> = Vec::new();
    let mut i: usize = 0;
    while i < src.len()
        invariant
            i <= src@.len(),
            out@ == src@.subrange(0, i as int),
        decreases src@.len() - i,
    {
        out.push(src[i]);
        proof {
            assert(out@ =~= src@.subrange(0, i + 1 as int));
        }
        i = i + 1;
    }
    proof {
        assert(out@ =~= src@);
    }
    out
}

} // verus!

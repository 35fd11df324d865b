use napi_buffers::bind::BindOutcome;
use napi_buffers::buffer::{Buffer, ReleaseOutcome};
use napi_buffers::element::TypedArrayType;
use napi_buffers::error::BufferError;
use napi_buffers::host::{ExecContext, RefState, VmEnv};
use napi_buffers::slice::BufferSlice;
use napi_buffers::typed::{TypedArray, TypedReleaseOutcome};

fn bytes(n: usize) -> Vec<u8> {
    let mut v = Vec::new();
    for i in 0..n {
        v.push((i * 3 % 256) as u8);
    }
    v
}

#[test]
fn native_buffer_releases_without_host() {
    let mut env = VmEnv::new(true, true);
    let ctx = ExecContext::new(true);
    let b = Buffer::from_vec(bytes(10));
    assert_eq!(b.len(), 10);
    assert_eq!(b.release(&mut env, &ctx), ReleaseOutcome::FreedNative);
    assert_eq!(env.refs.len(), 0);
}

#[test]
fn clone_twice_drop_thrice_deletes_once() {
    let mut env = VmEnv::new(true, true);
    let ctx = ExecContext::new(true);
    let (slice, _) = BufferSlice::from_data(&mut env, bytes(32));
    let b = match slice.into_buffer(&mut env) {
        Ok(b) => b,
        Err(_) => panic!("promotion failed"),
    };
    let c1 = b.duplicate(&mut env);
    let c2 = b.duplicate(&mut env);
    assert_eq!(env.refs[0].count, 3);
    assert_eq!(b.release(&mut env, &ctx), ReleaseOutcome::StillShared);
    assert_eq!(c1.release(&mut env, &ctx), ReleaseOutcome::StillShared);
    assert_eq!(c2.release(&mut env, &ctx), ReleaseOutcome::DeletedNow);
    assert_eq!(env.refs[0].state, RefState::Deleted);
    assert_eq!(env.refs[0].count, 0);
}

#[test]
fn off_thread_release_queues_deletion_once() {
    let mut env = VmEnv::new(true, true);
    let off_thread = ExecContext::new(false);
    let (slice, _) = BufferSlice::from_data(&mut env, bytes(8));
    let b = slice.into_buffer(&mut env).ok().unwrap();
    assert_eq!(
        b.release(&mut env, &off_thread),
        ReleaseOutcome::DeletionQueued
    );
    assert_eq!(env.refs[0].state, RefState::QueuedForDeletion);
    env.run_post_finalizers();
    assert_eq!(env.refs[0].state, RefState::Deleted);
    env.run_post_finalizers();
    assert_eq!(env.refs[0].state, RefState::Deleted);
    assert_eq!(env.refs[0].count, 0);
}

#[test]
fn off_thread_release_uses_channel_on_older_hosts() {
    let mut env = VmEnv::new(true, false);
    let off_thread = ExecContext::new(false);
    let (slice, _) = BufferSlice::from_data(&mut env, bytes(8));
    let b = slice.into_buffer(&mut env).ok().unwrap();
    assert_eq!(
        b.release(&mut env, &off_thread),
        ReleaseOutcome::DeletionQueued
    );
    assert_eq!(env.refs[0].state, RefState::QueuedForDeletion);
}

#[test]
fn release_after_channel_teardown_abandons() {
    let mut env = VmEnv::new(true, false);
    let off_thread = ExecContext::new(false);
    let (slice, _) = BufferSlice::from_data(&mut env, bytes(8));
    let b = slice.into_buffer(&mut env).ok().unwrap();
    env.teardown_channel();
    assert_eq!(b.release(&mut env, &off_thread), ReleaseOutcome::Abandoned);
    assert_eq!(env.refs[0].state, RefState::Live);
    assert_eq!(env.refs[0].count, 0);
}

#[test]
fn buffer_round_trips_through_host_value() {
    let mut env = VmEnv::new(true, true);
    let data = bytes(20);
    let b = Buffer::from_vec(data.clone());
    let (handle, outcome) = b.into_value(&mut env);
    assert!(matches!(outcome, BindOutcome::ZeroCopy(_)));
    let back = match Buffer::from_value(&mut env, handle) {
        Ok(b) => b,
        Err(_) => panic!("read back failed"),
    };
    assert_eq!(back.len(), 20);
    assert_eq!(back.to_vec(&env), data);
}

#[test]
fn referenced_buffer_transfers_its_reference() {
    let mut env = VmEnv::new(true, true);
    let (slice, _) = BufferSlice::from_data(&mut env, bytes(12));
    let b = slice.into_buffer(&mut env).ok().unwrap();
    assert_eq!(env.refs[0].state, RefState::Live);
    let (handle, _) = b.into_value(&mut env);
    assert_eq!(handle, slice.handle);
    assert_eq!(env.refs[0].state, RefState::Deleted);
}

#[test]
fn empty_native_buffer_becomes_host_owned_value() {
    let mut env = VmEnv::new(true, true);
    let b = Buffer::from_vec(Vec::new());
    let (handle, outcome) = b.into_value(&mut env);
    assert!(matches!(outcome, BindOutcome::Copied(_)));
    assert_eq!(env.registry.len(), 0);
    let back = Buffer::from_value(&mut env, handle).ok().unwrap();
    assert_eq!(back.len(), 0);
}

#[test]
fn typed_array_kind_mismatch_names_both_kinds() {
    let mut env = VmEnv::new(true, true);
    let t = TypedArray::new(TypedArrayType::Uint16, bytes(8));
    let r = t.to_value(&mut env);
    let (handle, _) = r.ok().unwrap();
    let wrong = TypedArray::from_value(&env, handle, TypedArrayType::Int32);
    assert_eq!(
        wrong.map(|t| t.length),
        Err(BufferError::KindMismatch(
            TypedArrayType::Int32,
            TypedArrayType::Uint16
        ))
    );
    let right = TypedArray::from_value(&env, handle, TypedArrayType::Uint16);
    assert_eq!(right.map(|t| t.length), Ok(4));
}

#[test]
fn typed_array_to_value_zero_copy_defers_notify() {
    let mut env = VmEnv::new(true, true);
    let t = TypedArray::with_external_data(TypedArrayType::Uint8, bytes(16));
    let (handle, notify_now) = t.to_value(&mut env).ok().unwrap();
    assert!(!notify_now);
    assert_eq!(env.heap_external, 16);
    let info = env.typed_array_info(handle).ok().unwrap();
    assert_eq!(info.0, TypedArrayType::Uint8);
    assert_eq!(info.1, 16);
}

#[test]
fn typed_array_to_value_fallback_notifies_now() {
    let mut env = VmEnv::new(false, true);
    let t = TypedArray::with_external_data(TypedArrayType::Uint8, bytes(16));
    let (_, notify_now) = t.to_value(&mut env).ok().unwrap();
    assert!(notify_now);
    assert_eq!(env.heap_external, 0);
}

#[test]
fn typed_array_release_notifies_native_owner() {
    let mut env = VmEnv::new(true, true);
    let ctx = ExecContext::new(true);
    let t = TypedArray::with_external_data(TypedArrayType::Int16, bytes(4));
    assert_eq!(
        t.release(&mut env, &ctx),
        TypedReleaseOutcome::FreedNative { notified: true }
    );
    let plain = TypedArray::new(TypedArrayType::Int16, bytes(4));
    assert_eq!(
        plain.release(&mut env, &ctx),
        TypedReleaseOutcome::FreedNative { notified: false }
    );
}

#[test]
fn promoted_reference_is_leaked_inside_finalizer() {
    let mut env = VmEnv::new(true, true);
    let t = TypedArray::new(TypedArrayType::Uint8, bytes(6));
    let (handle, _) = t.to_value(&mut env).ok().unwrap();
    let promoted = TypedArray::promote(&mut env, handle, TypedArrayType::Uint8)
        .ok()
        .unwrap();
    let mut in_finalizer = ExecContext::new(true);
    in_finalizer.in_finalizer = true;
    assert_eq!(
        promoted.release(&mut env, &in_finalizer),
        TypedReleaseOutcome::LeakedInFinalizer
    );
    assert_eq!(env.refs[0].state, RefState::Live);
    assert_eq!(env.refs[0].count, 1);
}

#[test]
fn promoted_reference_deletes_outside_finalizer() {
    let mut env = VmEnv::new(true, true);
    let ctx = ExecContext::new(true);
    let t = TypedArray::new(TypedArrayType::Uint8, bytes(6));
    let (handle, _) = t.to_value(&mut env).ok().unwrap();
    let promoted = TypedArray::promote(&mut env, handle, TypedArrayType::Uint8)
        .ok()
        .unwrap();
    assert_eq!(
        promoted.release(&mut env, &ctx),
        TypedReleaseOutcome::DeletedNow
    );
    assert_eq!(env.refs[0].state, RefState::Deleted);
}

#[test]
fn typed_array_reads_back_through_host_value() {
    let mut env = VmEnv::new(true, true);
    let data = bytes(24);
    let t = TypedArray::new(TypedArrayType::Uint32, data.clone());
    assert_eq!(t.to_vec(&env), data);
    let (handle, _) = t.to_value(&mut env).ok().unwrap();
    let back = TypedArray::from_value(&env, handle, TypedArrayType::Uint32)
        .ok()
        .unwrap();
    assert_eq!(back.len(), 6);
    assert_eq!(back.to_vec(&env), data);
}

#[test]
fn from_string_exposes_utf8_bytes() {
    let mut env = VmEnv::new(true, true);
    let t = TypedArray::from_string(String::from("hei"));
    assert_eq!(t.kind, TypedArrayType::Uint8);
    assert_eq!(t.len(), 3);
    let (handle, _) = t.to_value(&mut env).ok().unwrap();
    let info = env.typed_array_info(handle).ok().unwrap();
    let buf = info.2;
    assert_eq!(env.buffer_to_vec(buf), b"hei".to_vec());
}

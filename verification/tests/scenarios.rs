use napi_buffers::arraybuffer::ArrayBuffer;
use napi_buffers::bind::BindOutcome;
use napi_buffers::buffer::ReleaseOutcome;
use napi_buffers::element::TypedArrayType;
use napi_buffers::error::BufferError;
use napi_buffers::host::{ExecContext, RefState, VmEnv};
use napi_buffers::slice::{BufferSlice, Uint8ClampedSlice};

fn bytes(n: usize) -> Vec<u8> {
    let mut v = Vec::new();
    for i in 0..n {
        v.push((i * 7 % 253) as u8);
    }
    v
}

#[test]
fn clamped_slice_round_trip() {
    let mut env = VmEnv::new(true, true);
    let data = bytes(40);
    let (s, _) = Uint8ClampedSlice::from_data(&mut env, data.clone());
    assert_eq!(s.len, 40);
    assert_eq!(s.to_vec(&env), data);
    let again = Uint8ClampedSlice::from_value(&env, s.handle).ok().unwrap();
    assert_eq!(again.to_vec(&env), data);
}

#[test]
fn clamped_slice_from_value_checks_kind() {
    let mut env = VmEnv::new(true, true);
    let (ab, _) = ArrayBuffer::from_data(&mut env, bytes(8));
    let th = env
        .create_typed_array(TypedArrayType::Int8, 8, ab.handle, 0)
        .ok()
        .unwrap();
    let r = Uint8ClampedSlice::from_value(&env, th);
    assert_eq!(
        r.map(|s| s.len),
        Err(BufferError::KindMismatch(
            TypedArrayType::Uint8Clamped,
            TypedArrayType::Int8
        ))
    );
    let not_an_array = Uint8ClampedSlice::from_value(&env, ab.handle);
    assert_eq!(not_an_array.map(|s| s.len), Err(BufferError::InvalidArgument));
}

#[test]
fn clamped_slice_from_arraybuffer_respects_bounds() {
    let mut env = VmEnv::new(true, true);
    let (ab, _) = ArrayBuffer::from_data(&mut env, bytes(10));
    let ok = Uint8ClampedSlice::from_arraybuffer(&mut env, &ab, 2, 8);
    let s = ok.ok().unwrap();
    assert_eq!(s.len, 8);
    assert_eq!(s.to_vec(&env), bytes(10)[2..10].to_vec());
    let too_long = Uint8ClampedSlice::from_arraybuffer(&mut env, &ab, 4, 8);
    assert_eq!(
        too_long.map(|s| s.len),
        Err(BufferError::InvalidArgument)
    );
}

#[test]
fn validate_checks_value_kinds() {
    let mut env = VmEnv::new(true, true);
    let (s, _) = Uint8ClampedSlice::from_data(&mut env, bytes(3));
    assert_eq!(Uint8ClampedSlice::validate(&env, s.handle), Ok(()));
    assert_eq!(
        Uint8ClampedSlice::validate(&env, s.buffer),
        Err(BufferError::InvalidArgument)
    );
    let (b, _) = BufferSlice::from_data(&mut env, bytes(3));
    assert_eq!(BufferSlice::validate(&env, b.handle), Ok(()));
    assert_eq!(
        BufferSlice::validate(&env, s.handle),
        Err(BufferError::InvalidArgument)
    );
}

#[test]
fn buffer_slice_zero_length_special_path() {
    let mut env = VmEnv::new(true, true);
    let (b, outcome) = BufferSlice::from_data(&mut env, Vec::new());
    assert!(matches!(outcome, BindOutcome::Copied(_)));
    assert_eq!(b.len, 0);
    assert_eq!(env.registry.len(), 0);
    assert_eq!(b.to_vec(&env), Vec::<u8>::new());
}

#[test]
fn end_to_end_scenario() {
    // Bind a zero-length region: success, empty view, no registry entry.
    let mut env = VmEnv::new(true, true);
    let (empty, _) = ArrayBuffer::from_data(&mut env, Vec::new());
    assert_eq!(empty.len, 0);
    assert_eq!(empty.to_vec(&env), Vec::<u8>::new());
    assert_eq!(env.registry.len(), 0);

    // Bind 1024 bytes where the host refuses external buffers: a copy,
    // original freed, contents equal to the source.
    let mut refusing = VmEnv::new(false, true);
    let src = bytes(1024);
    let (copied, outcome) = ArrayBuffer::from_data(&mut refusing, src.clone());
    assert!(matches!(outcome, BindOutcome::Copied(_)));
    assert_eq!(copied.to_vec(&refusing), src);
    assert_eq!(refusing.registry.len(), 0);

    // Create a typed view, mutate three elements, drop the view: the
    // underlying buffer reflects the mutation.
    let (view, _) = Uint8ClampedSlice::from_data(&mut env, bytes(16));
    view.write_elem(&mut env, 0, 100);
    view.write_elem(&mut env, 7, 101);
    view.write_elem(&mut env, 15, 102);
    let under = ArrayBuffer::from_value(&env, view.buffer).ok().unwrap();
    let raw = under.to_vec(&env);
    assert_eq!(raw[0], 100);
    assert_eq!(raw[7], 101);
    assert_eq!(raw[15], 102);
    assert_eq!(raw[1], bytes(16)[1]);

    // Clone a long-lived handle twice, drop all three copies: the host
    // reference delete happens exactly once, on the third drop.
    let ctx = ExecContext::new(true);
    let (slice, _) = BufferSlice::from_data(&mut env, bytes(64));
    let b = slice.into_buffer(&mut env).ok().unwrap();
    let c1 = b.duplicate(&mut env);
    let c2 = b.duplicate(&mut env);
    assert_eq!(b.release(&mut env, &ctx), ReleaseOutcome::StillShared);
    assert_eq!(c1.release(&mut env, &ctx), ReleaseOutcome::StillShared);
    assert_eq!(c2.release(&mut env, &ctx), ReleaseOutcome::DeletedNow);
    assert_eq!(env.refs[0].state, RefState::Deleted);
}

#[test]
fn detached_buffer_refuses_new_views() {
    let mut env = VmEnv::new(true, true);
    let (ab, _) = ArrayBuffer::from_data(&mut env, bytes(8));
    assert_eq!(ab.detach(&mut env), Ok(()));
    let r = Uint8ClampedSlice::from_arraybuffer(&mut env, &ab, 0, 1);
    assert_eq!(r.map(|s| s.len), Err(BufferError::InvalidArgument));
}

#[test]
fn native_duplicate_is_an_independent_copy() {
    let mut env = VmEnv::new(true, true);
    let ctx = ExecContext::new(true);
    let b = napi_buffers::buffer::Buffer::from_vec(bytes(5));
    let c = b.duplicate(&mut env);
    assert_eq!(c.len(), 5);
    assert_eq!(c.to_vec(&env), bytes(5));
    assert_eq!(env.refs.len(), 0);
    assert_eq!(b.release(&mut env, &ctx), ReleaseOutcome::FreedNative);
    assert_eq!(c.release(&mut env, &ctx), ReleaseOutcome::FreedNative);
}

#[test]
fn offset_view_writes_land_in_the_base_buffer() {
    let mut env = VmEnv::new(true, true);
    let (ab, _) = ArrayBuffer::from_data(&mut env, bytes(10));
    let view = Uint8ClampedSlice::from_arraybuffer(&mut env, &ab, 4, 3)
        .ok()
        .unwrap();
    view.write_elem(&mut env, 1, 0xEE);
    assert_eq!(ab.read_byte(&env, 5), 0xEE);
    assert_eq!(view.read_elem(&env, 1), 0xEE);
    let second = Uint8ClampedSlice::from_arraybuffer(&mut env, &ab, 0, 10)
        .ok()
        .unwrap();
    assert_eq!(second.read_elem(&env, 5), 0xEE);
}

#[test]
fn round_trip_many_repetitions_varying_length() {
    let mut ctx = ExecContext::new(true);
    for rep in 0..10_000usize {
        let mut env = VmEnv::new(rep % 2 == 0, true);
        let n = rep % 19;
        let data = bytes(n);
        let (view, _) = Uint8ClampedSlice::from_data(&mut env, data.clone());
        assert_eq!(view.len, n);
        let back = view.to_vec(&env);
        assert_eq!(back.len(), data.len());
        for i in 0..n {
            assert_eq!(back[i], data[i]);
        }
        // Release the region the way its path demands: external regions
        // through the finalizer dispatcher, host-owned copies are the
        // host's to collect.
        if env.heap_external > 0 {
            env.begin_finalize(&mut ctx, view.buffer);
            env.end_finalize(&mut ctx, view.buffer);
        }
        assert_eq!(env.heap_external, 0);
        assert_eq!(env.registry.len(), 0);
    }
}

use napi_buffers::arraybuffer::ArrayBuffer;
use napi_buffers::bind::BindOutcome;
use napi_buffers::error::BufferError;
use napi_buffers::host::{ExecContext, VmEnv};

fn bytes(n: usize) -> Vec<u8> {
    let mut v = Vec::new();
    for i in 0..n {
        v.push((i % 251) as u8);
    }
    v
}

#[test]
fn zero_copy_bind_charges_accounting_and_registry() {
    let mut env = VmEnv::new(true, true);
    let data = bytes(64);
    let (ab, outcome) = ArrayBuffer::from_data(&mut env, data.clone());
    assert!(matches!(outcome, BindOutcome::ZeroCopy(_)));
    assert_eq!(ab.len, 64);
    assert_eq!(env.heap_external, 64);
    assert_eq!(env.registry.len(), 1);
    assert_eq!(ab.to_vec(&env), data);
}

#[test]
fn finalizer_balances_accounting_exactly() {
    let mut env = VmEnv::new(true, true);
    let mut ctx = ExecContext::new(true);
    let (ab, _) = ArrayBuffer::from_data(&mut env, bytes(128));
    assert_eq!(env.heap_external, 128);
    let (duty, addr) = env.begin_finalize(&mut ctx, ab.handle);
    assert!(ctx.in_finalizer);
    assert_eq!(env.heap_external, 0);
    let _ = duty;
    assert!(env.registry.contains(addr));
    env.end_finalize(&mut ctx, ab.handle);
    assert!(!ctx.in_finalizer);
    assert_eq!(env.heap_external, 0);
    assert!(!env.registry.contains(addr));
    assert_eq!(env.registry.len(), 0);
}

#[test]
fn copy_fallback_is_byte_identical() {
    let mut env = VmEnv::new(false, true);
    let data = bytes(1024);
    let (ab, outcome) = ArrayBuffer::from_data(&mut env, data.clone());
    assert!(matches!(outcome, BindOutcome::Copied(_)));
    assert_eq!(ab.len, 1024);
    assert_eq!(env.heap_external, 0);
    assert_eq!(env.registry.len(), 0);
    assert_eq!(ab.to_vec(&env), data);
}

#[test]
fn copy_from_always_copies() {
    let mut env = VmEnv::new(true, true);
    let data = bytes(33);
    let ab = ArrayBuffer::copy_from(&mut env, &data);
    assert_eq!(ab.len, 33);
    assert_eq!(env.heap_external, 0);
    assert_eq!(env.registry.len(), 0);
    assert_eq!(ab.to_vec(&env), data);
}

#[test]
fn empty_region_binds_without_registry_entry() {
    let mut env = VmEnv::new(true, true);
    let (ab, outcome) = ArrayBuffer::from_data(&mut env, Vec::new());
    assert!(matches!(outcome, BindOutcome::Copied(_)));
    assert_eq!(ab.len, 0);
    assert_eq!(env.registry.len(), 0);
    assert_eq!(env.heap_external, 0);
    assert_eq!(ab.to_vec(&env), Vec::<u8>::new());
}

#[test]
fn external_null_pointer_is_invalid_argument() {
    let mut env = VmEnv::new(true, true);
    let r = ArrayBuffer::from_external(&mut env, 0, bytes(8));
    assert_eq!(
        r.map(|(ab, _)| ab.len),
        Err(BufferError::InvalidArgument)
    );
}

#[test]
fn external_sentinel_pointer_is_invalid_argument() {
    let mut env = VmEnv::new(true, true);
    let sentinel = env.sentinel_addr;
    let r = ArrayBuffer::from_external(&mut env, sentinel, Vec::new());
    assert_eq!(
        r.map(|(ab, _)| ab.len),
        Err(BufferError::InvalidArgument)
    );
}

#[test]
fn simultaneously_live_alias_is_rejected() {
    let mut env = VmEnv::new(true, true);
    let first = ArrayBuffer::from_external(&mut env, 70000, bytes(16));
    assert!(first.is_ok());
    let second = ArrayBuffer::from_external(&mut env, 70000, bytes(16));
    assert_eq!(
        second.map(|(ab, _)| ab.len),
        Err(BufferError::AliasedPointer)
    );
}

#[test]
fn freed_pointer_value_may_be_reused() {
    let mut env = VmEnv::new(true, true);
    let mut ctx = ExecContext::new(true);
    let (ab, _) = match ArrayBuffer::from_external(&mut env, 90000, bytes(16)) {
        Ok(x) => x,
        Err(_) => panic!("first bind failed"),
    };
    env.begin_finalize(&mut ctx, ab.handle);
    env.end_finalize(&mut ctx, ab.handle);
    let again = ArrayBuffer::from_external(&mut env, 90000, bytes(16));
    assert!(again.is_ok());
}

#[test]
fn external_copy_fallback_reports_notify_now() {
    let mut env = VmEnv::new(false, true);
    let data = bytes(24);
    let (ab, outcome) = match ArrayBuffer::from_external(&mut env, 123456, data.clone()) {
        Ok(x) => x,
        Err(_) => panic!("bind failed"),
    };
    assert!(matches!(outcome, BindOutcome::Copied(_)));
    assert_eq!(ab.to_vec(&env), data);
    assert_eq!(env.registry.len(), 0);
}

#[test]
fn detach_empties_an_external_buffer() {
    let mut env = VmEnv::new(true, true);
    let (ab, _) = ArrayBuffer::from_data(&mut env, bytes(10));
    assert_eq!(ab.is_detached(&env), Ok(false));
    assert_eq!(ab.detach(&mut env), Ok(()));
    assert_eq!(ab.is_detached(&env), Ok(true));
}

#[test]
fn detach_refuses_host_owned_buffers() {
    let mut env = VmEnv::new(true, true);
    let ab = ArrayBuffer::copy_from(&mut env, &bytes(10));
    assert_eq!(ab.detach(&mut env), Err(BufferError::InvalidArgument));
}

#[test]
fn view_writes_are_visible_through_the_buffer() {
    let mut env = VmEnv::new(true, true);
    let (ab, _) = ArrayBuffer::from_data(&mut env, bytes(4));
    ab.write_byte(&mut env, 2, 0xAA);
    assert_eq!(ab.read_byte(&env, 2), 0xAA);
    let back = ab.to_vec(&env);
    assert_eq!(back[2], 0xAA);
    assert_eq!(back[0], 0);
}

#[test]
fn from_value_reads_length_back() {
    let mut env = VmEnv::new(true, true);
    let (ab, _) = ArrayBuffer::from_data(&mut env, bytes(7));
    let again = ArrayBuffer::from_value(&env, ab.handle);
    assert_eq!(again.map(|x| x.len), Ok(7));
    let bogus = ArrayBuffer::from_value(&env, 999);
    assert_eq!(bogus.map(|x| x.len), Err(BufferError::InvalidArgument));
}

use napi_buffers::element::TypedArrayType;
use napi_buffers::error::BufferError;
use napi_buffers::registry::{register_backing_ptr, unregister_backing_ptr, PointerRegistry};

#[test]
fn element_codes_round_trip() {
    let kinds = [
        TypedArrayType::Int8,
        TypedArrayType::Uint8,
        TypedArrayType::Uint8Clamped,
        TypedArrayType::Int16,
        TypedArrayType::Uint16,
        TypedArrayType::Int32,
        TypedArrayType::Uint32,
        TypedArrayType::Float32,
        TypedArrayType::Float64,
        TypedArrayType::BigInt64,
        TypedArrayType::BigUint64,
    ];
    for k in kinds {
        assert_eq!(TypedArrayType::from_code(k.code()), k);
    }
    assert_eq!(TypedArrayType::Int8.code(), 0);
    assert_eq!(TypedArrayType::Float64.code(), 8);
    assert_eq!(TypedArrayType::Unknown.code(), 1024);
    assert_eq!(TypedArrayType::from_code(77), TypedArrayType::Unknown);
}

#[test]
fn element_widths() {
    assert_eq!(TypedArrayType::Uint8.element_width(), 1);
    assert_eq!(TypedArrayType::Uint8Clamped.element_width(), 1);
    assert_eq!(TypedArrayType::Int16.element_width(), 2);
    assert_eq!(TypedArrayType::Uint32.element_width(), 4);
    assert_eq!(TypedArrayType::Float32.element_width(), 4);
    assert_eq!(TypedArrayType::BigUint64.element_width(), 8);
}

#[test]
fn element_labels() {
    assert_eq!(TypedArrayType::Uint8Clamped.label(), "Uint8Clamped");
    assert_eq!(TypedArrayType::BigInt64.label(), "BigInt64");
    assert_eq!(TypedArrayType::Unknown.label(), "Unknown");
}

#[test]
fn registry_rejects_simultaneous_duplicates() {
    let mut reg = PointerRegistry::new();
    assert_eq!(register_backing_ptr(&mut reg, 4096), Ok(()));
    assert!(reg.contains(4096));
    assert_eq!(
        register_backing_ptr(&mut reg, 4096),
        Err(BufferError::AliasedPointer)
    );
    assert_eq!(reg.len(), 1);
}

#[test]
fn registry_allows_sequential_reuse() {
    let mut reg = PointerRegistry::new();
    assert_eq!(register_backing_ptr(&mut reg, 800), Ok(()));
    unregister_backing_ptr(&mut reg, 800);
    assert!(!reg.contains(800));
    assert_eq!(register_backing_ptr(&mut reg, 800), Ok(()));
    assert!(reg.contains(800));
}

#[test]
fn registry_ignores_null() {
    let mut reg = PointerRegistry::new();
    assert_eq!(register_backing_ptr(&mut reg, 0), Ok(()));
    assert_eq!(register_backing_ptr(&mut reg, 0), Ok(()));
    assert_eq!(reg.len(), 0);
    unregister_backing_ptr(&mut reg, 0);
    assert_eq!(reg.len(), 0);
}

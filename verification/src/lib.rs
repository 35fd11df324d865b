//! Cross-runtime byte-buffer ownership, verified.
//!
//! This crate models the protocol by which native code shares byte buffers
//! with a garbage-collected host runtime: zero-copy binding of native memory
//! with a fallback copy when the host forbids externally backed buffers,
//! heap-accounting that must never drift, a finalizer dispatcher that releases
//! native memory exactly once, reference-counted long-lived handles, and
//! call-scoped typed views. The host runtime itself is represented by an
//! explicit state value ([`host::VmEnv`]); the unsafe glue that drives a real
//! host through these decisions lives outside the verified library.

pub mod arraybuffer;
pub mod backing;
pub mod bind;
pub mod buffer;
pub mod element;
pub mod error;
pub mod host;
pub mod laws;
pub mod registry;
pub mod slice;
pub mod typed;

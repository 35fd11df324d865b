//! Errors surfaced by buffer construction and read-back.
//!
//! Host capability refusal is deliberately absent: it is the one recoverable
//! condition, absorbed by the fallback-copy path and never shown to a caller.

use crate::element::TypedArrayType;
use vstd::prelude::*;

verus! {

/// A caller-visible failure.
#[derive(Clone, Copy, Debug, PartialEq, Eq, Structural)]
pub enum BufferError {
    /// A pointer that must not be null or sentinel-valued was, or a host
    /// value was not the expected array-like kind.
    InvalidArgument,
    /// A typed read-back found a host array of a different element kind
    /// than the one requested: expected, then actual.
    KindMismatch(TypedArrayType, TypedArrayType),
    /// Two simultaneously live external buffers were given the same backing
    /// pointer. A programming error: callers must treat it as fatal rather
    /// than continue towards a double free.
    AliasedPointer,
}

} // verus!

//! Element kinds of host typed arrays.
//!
//! Every numeric element family shares one ownership state machine; the only
//! thing that distinguishes the families is the element kind tag, its ABI
//! code, and its element width in bytes. Buffers hold raw bytes, and a typed
//! view interprets those bytes `width` at a time, so no per-kind code is
//! duplicated.

use vstd::prelude::*;

verus! {

/// The element kind of a host typed array.
///
/// `Unknown` stands for any kind a newer host may add; it has no width and no
/// typed view can be built over it.
#[derive(Clone, Copy, Debug, PartialEq, Eq, Structural)]
pub enum TypedArrayType {
    Int8,
    Uint8,
    Uint8Clamped,
    Int16,
    Uint16,
    Int32,
    Uint32,
    Float32,
    Float64,
    BigInt64,
    BigUint64,
    Unknown,
}

/// The host ABI's numeric code for each element kind.
pub open spec fn spec_code(t: TypedArrayType) -> int {
    match t {
        TypedArrayType::Int8 => 0,
        TypedArrayType::Uint8 => 1,
        TypedArrayType::Uint8Clamped => 2,
        TypedArrayType::Int16 => 3,
        TypedArrayType::Uint16 => 4,
        TypedArrayType::Int32 => 5,
        TypedArrayType::Uint32 => 6,
        TypedArrayType::Float32 => 7,
        TypedArrayType::Float64 => 8,
        TypedArrayType::BigInt64 => 9,
        TypedArrayType::BigUint64 => 10,
        TypedArrayType::Unknown => 1024,
    }
}

/// The element kind a host ABI code denotes; codes this library does not
/// know map to `Unknown`.
pub open spec fn spec_kind_of_code(code: int) -> TypedArrayType {
    if code == 0 {
        TypedArrayType::Int8
    } else if code == 1 {
        TypedArrayType::Uint8
    } else if code == 2 {
        TypedArrayType::Uint8Clamped
    } else if code == 3 {
        TypedArrayType::Int16
    } else if code == 4 {
        TypedArrayType::Uint16
    } else if code == 5 {
        TypedArrayType::Int32
    } else if code == 6 {
        TypedArrayType::Uint32
    } else if code == 7 {
        TypedArrayType::Float32
    } else if code == 8 {
        TypedArrayType::Float64
    } else if code == 9 {
        TypedArrayType::BigInt64
    } else if code == 10 {
        TypedArrayType::BigUint64
    } else {
        TypedArrayType::Unknown
    }
}

/// Bytes per element of each kind; `Unknown` has none.
pub open spec fn spec_width(t: TypedArrayType) -> int {
    match t {
        TypedArrayType::Int8 => 1,
        TypedArrayType::Uint8 => 1,
        TypedArrayType::Uint8Clamped => 1,
        TypedArrayType::Int16 => 2,
        TypedArrayType::Uint16 => 2,
        TypedArrayType::Int32 => 4,
        TypedArrayType::Uint32 => 4,
        TypedArrayType::Float32 => 4,
        TypedArrayType::Float64 => 8,
        TypedArrayType::BigInt64 => 8,
        TypedArrayType::BigUint64 => 8,
        TypedArrayType::Unknown => 0,
    }
}

impl TypedArrayType {
    /// The numeric code the host ABI uses for this kind.
    pub fn code(self) -> (c: i32)
        ensures
            c == spec_code(self),
    {
        match self {
            TypedArrayType::Int8 => 0,
            TypedArrayType::Uint8 => 1,
            TypedArrayType::Uint8Clamped => 2,
            TypedArrayType::Int16 => 3,
            TypedArrayType::Uint16 => 4,
            TypedArrayType::Int32 => 5,
            TypedArrayType::Uint32 => 6,
            TypedArrayType::Float32 => 7,
            TypedArrayType::Float64 => 8,
            TypedArrayType::BigInt64 => 9,
            TypedArrayType::BigUint64 => 10,
            TypedArrayType::Unknown => 1024,
        }
    }

    /// The element kind denoted by a host ABI code.
    pub fn from_code(code: i32) -> (t: TypedArrayType)
        ensures
            t == spec_kind_of_code(code as int),
    {
        if code == 0 {
            TypedArrayType::Int8
        } else if code == 1 {
            TypedArrayType::Uint8
        } else if code == 2 {
            TypedArrayType::Uint8Clamped
        } else if code == 3 {
            TypedArrayType::Int16
        } else if code == 4 {
            TypedArrayType::Uint16
        } else if code == 5 {
            TypedArrayType::Int32
        } else if code == 6 {
            TypedArrayType::Uint32
        } else if code == 7 {
            TypedArrayType::Float32
        } else if code == 8 {
            TypedArrayType::Float64
        } else if code == 9 {
            TypedArrayType::BigInt64
        } else if code == 10 {
            TypedArrayType::BigUint64
        } else {
            TypedArrayType::Unknown
        }
    }

    /// Bytes per element.
    pub fn element_width(self) -> (w: usize)
        requires
            self != TypedArrayType::Unknown,
        ensures
            w == spec_width(self),
            1 <= w <= 8,
    {
        match self {
            TypedArrayType::Int8 => 1,
            TypedArrayType::Uint8 => 1,
            TypedArrayType::Uint8Clamped => 1,
            TypedArrayType::Int16 => 2,
            TypedArrayType::Uint16 => 2,
            TypedArrayType::Int32 => 4,
            TypedArrayType::Uint32 => 4,
            TypedArrayType::Float32 => 4,
            TypedArrayType::Float64 => 8,
            TypedArrayType::BigInt64 => 8,
            TypedArrayType::BigUint64 => 8,
            TypedArrayType::Unknown => 1,
        }
    }

    /// The kind's name, as shown in element-kind mismatch errors.
    pub fn label(self) -> (s: String)
        ensures
            s@ == spec_label(self),
    {
        match self {
            TypedArrayType::Int8 => "Int8".to_owned(),
            TypedArrayType::Uint8 => "Uint8".to_owned(),
            TypedArrayType::Uint8Clamped => "Uint8Clamped".to_owned(),
            TypedArrayType::Int16 => "Int16".to_owned(),
            TypedArrayType::Uint16 => "Uint16".to_owned(),
            TypedArrayType::Int32 => "Int32".to_owned(),
            TypedArrayType::Uint32 => "Uint32".to_owned(),
            TypedArrayType::Float32 => "Float32".to_owned(),
            TypedArrayType::Float64 => "Float64".to_owned(),
            TypedArrayType::BigInt64 => "BigInt64".to_owned(),
            TypedArrayType::BigUint64 => "BigUint64".to_owned(),
            TypedArrayType::Unknown => "Unknown".to_owned(),
        }
    }
}

/// The name of each element kind.
pub open spec fn spec_label(t: TypedArrayType) -> Seq<char> {
    match t {
        TypedArrayType::Int8 => "Int8"@,
        TypedArrayType::Uint8 => "Uint8"@,
        TypedArrayType::Uint8Clamped => "Uint8Clamped"@,
        TypedArrayType::Int16 => "Int16"@,
        TypedArrayType::Uint16 => "Uint16"@,
        TypedArrayType::Int32 => "Int32"@,
        TypedArrayType::Uint32 => "Uint32"@,
        TypedArrayType::Float32 => "Float32"@,
        TypedArrayType::Float64 => "Float64"@,
        TypedArrayType::BigInt64 => "BigInt64"@,
        TypedArrayType::BigUint64 => "BigUint64"@,
        TypedArrayType::Unknown => "Unknown"@,
    }
}

} // verus!

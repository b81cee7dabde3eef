//! The decode error taxonomy.
//!
//! Every component reports its first failure as one of these values and the
//! failure propagates unchanged to the caller of the entry point: there is
//! no retry and no partial result.

use vstd::prelude::*;

verus! {

/// A structured decode failure.
///
/// * `NotImplemented` — the runtime shape of the dynamic value has no
///   mapping to the requested primitive (for example, bytes were requested
///   but the value is not a byte buffer).  `name` says which dispatch path
///   gave up.
/// * `InvalidKeyType` — resolving a tagged-union value failed: the value at
///   the union position was an object with zero or several own keys, or not
///   a string or object at all; `key` describes what was found.
/// * `ArrayIndexOutOfBounds` — a property map cursor was asked for a value
///   with no unconsumed key left; carries the snapshotted `length` and the
///   offending `index`.
/// * `InvalidType` — a variant payload did not have the shape the requested
///   variant kind needs (unit, newtype, tuple or struct).
/// * `InvalidLength` — a tuple variant's schema asked for more elements
///   than its array payload holds; raised on the schema's behalf.
/// * `UnknownVariant` — the resolved variant name is not in the schema's
///   variant set; raised on the schema's behalf.
#[derive(Debug, PartialEq)]
pub enum DecodeError {
    NotImplemented { name: String },
    InvalidKeyType { key: String },
    ArrayIndexOutOfBounds { length: usize, index: usize },
    InvalidType { unexpected: String, expected: String },
    InvalidLength { need: usize, got: usize },
    UnknownVariant { name: String },
}

/// The mathematical model of a decode failure.
pub enum ErrorV {
    NotImplemented { name: Seq<char> },
    InvalidKeyType { key: Seq<char> },
    ArrayIndexOutOfBounds { length: int, index: int },
    InvalidType { unexpected: Seq<char>, expected: Seq<char> },
    InvalidLength { need: int, got: int },
    UnknownVariant { name: Seq<char> },
}

impl View for DecodeError {
    type V = ErrorV;

    open spec fn view(&self) -> ErrorV {
        match *self {
            DecodeError::NotImplemented { name } => ErrorV::NotImplemented { name: name@ },
            DecodeError::InvalidKeyType { key } => ErrorV::InvalidKeyType { key: key@ },
            DecodeError::ArrayIndexOutOfBounds { length, index } => (ErrorV::ArrayIndexOutOfBounds {
                length: length as int,
                index: index as int,
            }),
            DecodeError::InvalidType { unexpected, expected } => (ErrorV::InvalidType {
                unexpected: unexpected@,
                expected: expected@,
            }),
            DecodeError::InvalidLength { need, got } => (ErrorV::InvalidLength {
                need: need as int,
                got: got as int,
            }),
            DecodeError::UnknownVariant { name } => ErrorV::UnknownVariant { name: name@ },
        }
    }
}

} // verus!

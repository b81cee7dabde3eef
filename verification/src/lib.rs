//! Decoding of self-describing dynamic values, as produced by a
//! JavaScript-style embedding host, into strongly typed native values.
//!
//! The host hands over a tree of dynamic values (null, undefined, booleans,
//! IEEE-754 numbers, strings, byte buffers, ordered arrays and ordered
//! property maps).  A target schema says which shape it expects at each
//! node; the dispatch core inspects the runtime tag of the value, feeds the
//! matching data to the schema, and reports a structured error when the
//! runtime shape cannot satisfy the schema.  Reading the host's own memory
//! requires a live context capability and is therefore left to the thin
//! unverified host boundary, which converts host values into [`value::Dyn`]
//! trees before calling into this crate.

pub mod cursor;
pub mod de;
pub mod decoded;
pub mod error;
pub mod number;
pub mod shape;
pub mod text;
pub mod value;

pub use de::{from_value, from_value_opt, Deserializer};

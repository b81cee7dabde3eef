//! The dynamic value tree: the crate's own model of one node of the host's
//! value graph.
//!
//! A host value is self-describing: its runtime tag is one of a closed set
//! (undefined, null, boolean, number, string, byte buffer, array, object).
//! The host boundary reads each node once, under the host's context
//! capability, and builds a [`Dyn`] tree holding plain owned data: a number
//! as its raw IEEE-754 bit pattern, a byte buffer as an owned copy, an
//! object as its own keys in own-key enumeration order.

use vstd::prelude::*;

use crate::number;
use crate::text;

verus! {

/// One node of a dynamic value tree.
///
/// `Num` carries the raw bits of the host's 64-bit binary floating-point
/// number; the integer/float split is decided later by the dispatch core.
/// `Obj` keeps its entries in the host's own-key enumeration order and, by
/// the host's own guarantee, holds no duplicate keys.
#[derive(Debug, PartialEq)]
pub enum Dyn {
    Undefined,
    Null,
    Bool(bool),
    Num(u64),
    Str(String),
    Bytes(Vec<u8>),
    Arr(Vec<Dyn>),
    Obj(Vec<(String, Dyn)>),
}

impl Dyn {
    /// Whether this node is one of the host's two unit-like values.
    pub open spec fn spec_is_nullish(&self) -> bool {
        self is Undefined || self is Null
    }

    /// Tells the host's two unit-like tags (undefined and null) apart from
    /// every data-carrying tag.
    #[verifier::when_used_as_spec(spec_is_nullish)]
    pub fn is_nullish(&self) -> (r: bool)
        ensures
            r == self.spec_is_nullish(),
    {
        match self {
            Dyn::Undefined | Dyn::Null => true,
            _ => false,
        }
    }

    /// A short description of the value: the tag's name, the literal text
    /// of a boolean or string, or the digits of an integral number.
    pub open spec fn spec_describe(&self) -> Seq<char> {
        match *self {
            Dyn::Undefined => "undefined"@,
            Dyn::Null => "null"@,
            Dyn::Bool(b) => if b {
                "true"@
            } else {
                "false"@
            },
            Dyn::Num(bits) => if number::is_integral(bits) {
                text::dec_str_i64(number::integer_value(bits))
            } else {
                "number"@
            },
            Dyn::Str(s) => s@,
            Dyn::Bytes(_) => "buffer"@,
            Dyn::Arr(_) => "array"@,
            Dyn::Obj(_) => "object"@,
        }
    }

    /// Renders the short description of the value, for error reports.
    pub fn describe(&self) -> (r: String)
        ensures
            r@ == self.spec_describe(),
    {
        match self {
            Dyn::Undefined => "undefined".to_owned(),
            Dyn::Null => "null".to_owned(),
            Dyn::Bool(b) => if *b {
                "true".to_owned()
            } else {
                "false".to_owned()
            },
            Dyn::Num(bits) => match number::classify(*bits) {
                number::Number::Int(i) => text::i64_to_dec(i),
                number::Number::Float(_) => "number".to_owned(),
            },
            Dyn::Str(s) => s.clone(),
            Dyn::Bytes(_) => "buffer".to_owned(),
            Dyn::Arr(_) => "array".to_owned(),
            Dyn::Obj(_) => "object".to_owned(),
        }
    }
}

} // verus!

//! The target schema, as data: what shape the caller expects of one node.
//!
//! The host format is self-describing, so most static types are served by
//! the `Any` request: booleans, numbers, strings, sequences and maps (and
//! every structural alias of those — tuples, fixed-size arrays, named
//! structs, identifiers, newtype wrappers) are recovered from the value's
//! own runtime tag.  Only three expectations change the dispatch: bytes,
//! optionals and tagged unions; `Ignore` discards a value and always
//! succeeds.

use vstd::prelude::*;

verus! {

/// The caller's expectation for one node.
#[derive(Debug, PartialEq)]
pub enum Shape {
    /// Self-describing dispatch on the value's runtime tag.
    Any,
    /// An owned byte buffer; only a bytes-tagged value satisfies it.
    Bytes,
    /// Unit-like values become "missing"; anything else is decoded with
    /// the inner expectation and wrapped as "present".
    Optional(Box<Shape>),
    /// A tagged union: the value names one of these variants.
    Enum(Vec<VariantSchema>),
    /// Discard the value, whatever its shape.
    Ignore,
}

/// One variant a tagged-union schema knows: its wire name and the payload
/// kind its reconstruction needs.
#[derive(Debug, PartialEq)]
pub struct VariantSchema {
    pub name: String,
    pub kind: VariantKind,
}

/// The payload kind of one union variant.
#[derive(Debug, PartialEq)]
pub enum VariantKind {
    /// No payload (a unit-like payload is tolerated).
    Unit,
    /// A single payload value with its own expectation.
    Newtype(Box<Shape>),
    /// An array payload with one expectation per element.
    Tuple(Vec<Shape>),
    /// An object payload, decoded entry by entry.
    Struct,
}

/// The first variant of the schema's set bearing the given name, if any.
pub open spec fn find_variant(vs: Seq<VariantSchema>, name: Seq<char>) -> Option<VariantSchema>
    decreases vs.len(),
{
    if vs.len() == 0 {
        Option::None
    } else if vs[0].name@ == name {
        Option::Some(vs[0])
    } else {
        find_variant(vs.drop_first(), name)
    }
}

/// Looks the resolved variant name up in the schema's variant set.
pub fn lookup_variant<'a>(vs: &'a Vec<VariantSchema>, name: &String) -> (r: Option<
    &'a VariantSchema,
>)
    ensures
        match find_variant(vs@, name@) {
            Option::Some(sc) => r matches Option::Some(p) && *p == sc,
            Option::None => r is None,
        },
{
    let mut i: usize = 0;
    proof {
        assert(vs@.skip(0) =~= vs@);
    }
    while i < vs.len()
        invariant
            i <= vs@.len(),
            find_variant(vs@, name@) == find_variant(vs@.skip(i as int), name@),
        decreases vs@.len() - i,
    {
        proof {
            assert(vs@.skip(i as int)[0] == vs@[i as int]);
            assert(vs@.skip(i as int).drop_first() =~= vs@.skip(i as int + 1));
        }
        if vs[i].name == *name {
            return Option::Some(&vs[i]);
        }
        i = i + 1;
    }
    proof {
        assert(vs@.skip(i as int).len() == 0);
    }
    Option::None
}

} // verus!

//! The dispatch core: feeds one dynamic value to the target schema.
//!
//! Decoding is self-describing by default: the value's own runtime tag
//! picks the schema primitive, in a fixed priority order (unit-like,
//! boolean, string, number with the integer/float split, bytes, sequence,
//! map).  A schema may instead short-circuit that dispatch with one of the
//! specific expectations: bytes, optional, or tagged union.  Every
//! structural alias (tuples, fixed arrays, named structs, identifiers,
//! newtype wrappers) rides the self-describing path; an ignore request
//! succeeds on any value.
//!
//! The tagged-union wire convention: a bare string is a unit variant named
//! by the string; an object with exactly one own key is a variant named by
//! that key, with the key's value as payload.  Anything else at a union
//! position is rejected, as is an object with zero or several keys.

use vstd::prelude::*;

use crate::cursor::{ArrayAccess, ObjectAccess};
use crate::decoded::{dec_list_view, dec_rec_view, dec_view, lemma_dec_list_view,
    lemma_dec_rec_view, Decoded, DecodedV};
use crate::error::{DecodeError, ErrorV};
use crate::number;
use crate::shape::{find_variant, lookup_variant, Shape, VariantKind, VariantSchema};
use crate::text;
use crate::value::Dyn;
use vstd::string::StringExecFns;

verus! {

broadcast use vstd::std_specs::vec::group_vec_axioms, vstd::seq::group_seq_axioms;

/// The model of a decode outcome: the decoded value's model, or the
/// error's.
pub open spec fn res_view(r: Result<Decoded, DecodeError>) -> Result<DecodedV, ErrorV> {
    match r {
        Result::Ok(x) => Result::Ok(dec_view(x)),
        Result::Err(e) => Result::Err(e@),
    }
}

/// The description a union-position object with the wrong number of own
/// keys is rejected with.
pub open spec fn key_count_msg(n: nat) -> Seq<char> {
    "object key with "@ + text::dec_str(n) + " properties"@
}

/// What decoding one node with one expectation yields.
pub open spec fn sdecode(d: Dyn, s: Shape) -> Result<DecodedV, ErrorV>
    decreases d, s, 1int,
{
    match s {
        Shape::Any => match d {
            Dyn::Undefined => Result::Ok(DecodedV::Unit),
            Dyn::Null => Result::Ok(DecodedV::Unit),
            Dyn::Bool(b) => Result::Ok(DecodedV::Bool(b)),
            Dyn::Str(st) => Result::Ok(DecodedV::Str(st@)),
            Dyn::Num(bits) => if number::is_integral(bits) {
                Result::Ok(DecodedV::Int(number::integer_value(bits) as i64))
            } else {
                Result::Ok(DecodedV::Float(bits))
            },
            Dyn::Bytes(b) => Result::Ok(DecodedV::Bytes(b@)),
            Dyn::Arr(v) => match selems(v@, Shape::Any) {
                Result::Ok(xs) => Result::Ok(DecodedV::List(xs)),
                Result::Err(e) => Result::Err(e),
            },
            Dyn::Obj(v) => match sentries(v@) {
                Result::Ok(es) => Result::Ok(DecodedV::Record(es)),
                Result::Err(e) => Result::Err(e),
            },
        },
        Shape::Bytes => match d {
            Dyn::Bytes(b) => Result::Ok(DecodedV::Bytes(b@)),
            _ => Result::Err(ErrorV::NotImplemented {
                name: "Deserializer::deserialize_bytes"@,
            }),
        },
        Shape::Optional(inner) => if d.spec_is_nullish() {
            Result::Ok(DecodedV::Missing)
        } else {
            match sdecode(d, *inner) {
                Result::Ok(x) => Result::Ok(DecodedV::Present(Box::new(x))),
                Result::Err(e) => Result::Err(e),
            }
        },
        Shape::Enum(vs) => senum(d, vs),
        Shape::Ignore => Result::Ok(DecodedV::Unit),
    }
}

/// What decoding each element of a sequence with one shared expectation
/// yields: the decoded elements in order, or the first failure.
pub open spec fn selems(elems: Seq<Dyn>, s: Shape) -> Result<Seq<DecodedV>, ErrorV>
    decreases elems, s, 1int,
{
    if elems.len() == 0 {
        Result::Ok(Seq::empty())
    } else {
        match sdecode(elems[0], s) {
            Result::Err(e) => Result::Err(e),
            Result::Ok(x) => match selems(elems.drop_first(), s) {
                Result::Err(e) => Result::Err(e),
                Result::Ok(rest) => Result::Ok(seq![x] + rest),
            },
        }
    }
}

/// What decoding a property map yields: each key paired with its
/// self-describing decoded value, in own-key order, or the first failure.
pub open spec fn sentries(entries: Seq<(String, Dyn)>) -> Result<
    Seq<(Seq<char>, DecodedV)>,
    ErrorV,
>
    decreases entries, Shape::Any, 1int,
{
    if entries.len() == 0 {
        Result::Ok(Seq::empty())
    } else {
        match sdecode(entries[0].1, Shape::Any) {
            Result::Err(e) => Result::Err(e),
            Result::Ok(x) => match sentries(entries.drop_first()) {
                Result::Err(e) => Result::Err(e),
                Result::Ok(rest) => Result::Ok(seq![(entries[0].0@, x)] + rest),
            },
        }
    }
}

/// What decoding a tuple payload's elements against their per-element
/// expectations yields; elements beyond the expected arity are ignored.
pub open spec fn szip(elems: Seq<Dyn>, shapes: Seq<Shape>) -> Result<Seq<DecodedV>, ErrorV>
    decreases elems, Shape::Any, 1int,
{
    if shapes.len() == 0 {
        Result::Ok(Seq::empty())
    } else if elems.len() == 0 {
        Result::Err(ErrorV::InvalidLength { need: shapes.len() as int, got: 0 })
    } else {
        match sdecode(elems[0], shapes[0]) {
            Result::Err(e) => Result::Err(e),
            Result::Ok(x) => match szip(elems.drop_first(), shapes.drop_first()) {
                Result::Err(e) => Result::Err(e),
                Result::Ok(rest) => Result::Ok(seq![x] + rest),
            },
        }
    }
}

/// What decoding a tagged-union position yields: the wire convention
/// resolved against the schema's variant set.
pub open spec fn senum(d: Dyn, vs: Vec<VariantSchema>) -> Result<DecodedV, ErrorV>
    decreases d, Shape::Enum(vs), 0int,
{
    match d {
        Dyn::Str(name) => match find_variant(vs@, name@) {
            Option::None => Result::Err(ErrorV::UnknownVariant { name: name@ }),
            Option::Some(sc) => match sc.kind {
                VariantKind::Unit => Result::Ok(DecodedV::UnitVariant(name@)),
                VariantKind::Newtype(_) => Result::Err(ErrorV::InvalidType {
                    unexpected: "unit variant"@,
                    expected: "newtype variant"@,
                }),
                VariantKind::Tuple(_) => Result::Err(ErrorV::InvalidType {
                    unexpected: "unit variant"@,
                    expected: "tuple variant"@,
                }),
                VariantKind::Struct => Result::Err(ErrorV::InvalidType {
                    unexpected: "unit variant"@,
                    expected: "struct variant"@,
                }),
            },
        },
        Dyn::Obj(entries) => if entries@.len() != 1 {
            Result::Err(ErrorV::InvalidKeyType { key: key_count_msg(entries@.len() as nat) })
        } else {
            let name = entries@[0].0;
            let payload = entries@[0].1;
            match find_variant(vs@, name@) {
                Option::None => Result::Err(ErrorV::UnknownVariant { name: name@ }),
                Option::Some(sc) => match sc.kind {
                    VariantKind::Unit => if payload.spec_is_nullish() {
                        Result::Ok(DecodedV::UnitVariant(name@))
                    } else {
                        Result::Err(ErrorV::InvalidType {
                            unexpected: payload.spec_describe(),
                            expected: "unit"@,
                        })
                    },
                    VariantKind::Newtype(inner) => match sdecode(payload, *inner) {
                        Result::Ok(x) => Result::Ok(DecodedV::NewtypeVariant(
                            name@,
                            Box::new(x),
                        )),
                        Result::Err(e) => Result::Err(e),
                    },
                    VariantKind::Tuple(shapes) => match payload {
                        Dyn::Arr(pv) => if pv@.len() < shapes@.len() {
                            Result::Err(ErrorV::InvalidLength {
                                need: shapes@.len() as int,
                                got: pv@.len() as int,
                            })
                        } else {
                            match szip(pv@, shapes@) {
                                Result::Ok(xs) => Result::Ok(DecodedV::TupleVariant(name@, xs)),
                                Result::Err(e) => Result::Err(e),
                            }
                        },
                        _ => Result::Err(ErrorV::InvalidType {
                            unexpected: payload.spec_describe(),
                            expected: "tuple variant"@,
                        }),
                    },
                    VariantKind::Struct => match payload {
                        Dyn::Obj(pe) => match sentries(pe@) {
                            Result::Ok(es) => Result::Ok(DecodedV::StructVariant(name@, es)),
                            Result::Err(e) => Result::Err(e),
                        },
                        _ => Result::Err(ErrorV::InvalidType {
                            unexpected: payload.spec_describe(),
                            expected: "struct variant"@,
                        }),
                    },
                },
            }
        },
        _ => Result::Err(ErrorV::InvalidKeyType { key: d.spec_describe() }),
    }
}

/// An owned copy of a byte buffer.
fn clone_bytes(b: &Vec<u8>) -> (r: Vec<u8>)
    ensures
        r@ == b@,
{
    let mut out: Vec<u8> = Vec::new();
    let mut i: usize = 0;
    while i < b.len()
        invariant
            i <= b@.len(),
            out@ == b@.take(i as int),
        decreases b@.len() - i,
    {
        out.push(b[i]);
        i = i + 1;
        proof {
            assert(out@ =~= b@.take(i as int));
        }
    }
    proof {
        assert(b@.take(b@.len() as int) =~= b@);
    }
    out
}

/// Renders the wrong-key-count description for a union-position object.
fn key_count_message(n: usize) -> (r: String)
    ensures
        r@ == key_count_msg(n as nat),
{
    let mut s = "object key with ".to_owned();
    let digits = text::usize_to_dec(n);
    s.append(digits.as_str());
    s.append(" properties");
    proof {
        assert(s@ =~= key_count_msg(n as nat));
    }
    s
}

/// A payload-shape rejection: what was found, and what the requested
/// variant kind needed.
fn invalid_type(unexpected: String, expected: &str) -> (r: DecodeError)
    ensures
        r@ == (ErrorV::InvalidType { unexpected: unexpected@, expected: expected@ }),
{
    DecodeError::InvalidType { unexpected, expected: expected.to_owned() }
}

/// Decodes one dynamic value against one expectation.
pub fn decode(d: &Dyn, s: &Shape) -> (r: Result<Decoded, DecodeError>)
    ensures
        res_view(r) == sdecode(*d, *s),
    decreases *d, *s, 1int,
{
    match s {
        Shape::Any => match d {
            Dyn::Undefined => Result::Ok(Decoded::Unit),
            Dyn::Null => Result::Ok(Decoded::Unit),
            Dyn::Bool(b) => Result::Ok(Decoded::Bool(*b)),
            Dyn::Str(st) => Result::Ok(Decoded::Str(st.clone())),
            Dyn::Num(bits) => match number::classify(*bits) {
                number::Number::Int(i) => Result::Ok(Decoded::Int(i)),
                number::Number::Float(f) => Result::Ok(Decoded::Float(f)),
            },
            Dyn::Bytes(b) => Result::Ok(Decoded::Bytes(clone_bytes(b))),
            Dyn::Arr(v) => {
                let cur = ArrayAccess::new(v);
                proof {
                    assert(cur.remaining() =~= v@);
                }
                match decode_seq(cur, s) {
                    Result::Ok(items) => Result::Ok(Decoded::List(items)),
                    Result::Err(e) => Result::Err(e),
                }
            },
            Dyn::Obj(v) => {
                let cur = ObjectAccess::new(v);
                proof {
                    assert(cur.remaining() =~= v@);
                }
                match decode_map(cur) {
                    Result::Ok(es) => Result::Ok(Decoded::Record(es)),
                    Result::Err(e) => Result::Err(e),
                }
            },
        },
        Shape::Bytes => match d {
            Dyn::Bytes(b) => Result::Ok(Decoded::Bytes(clone_bytes(b))),
            _ => Result::Err(DecodeError::NotImplemented {
                name: "Deserializer::deserialize_bytes".to_owned(),
            }),
        },
        Shape::Optional(inner) => if d.is_nullish() {
            Result::Ok(Decoded::Missing)
        } else {
            match decode(d, inner) {
                Result::Ok(x) => Result::Ok(Decoded::Present(Box::new(x))),
                Result::Err(e) => Result::Err(e),
            }
        },
        Shape::Enum(vs) => decode_enum(d, vs),
        Shape::Ignore => Result::Ok(Decoded::Unit),
    }
}

/// Decodes every element the sequence cursor has left, each with the same
/// expectation.
fn decode_seq<'a>(cur: ArrayAccess<'a>, s: &Shape) -> (r: Result<Vec<Decoded>, DecodeError>)
    requires
        cur.wf(),
    ensures
        match r {
            Result::Ok(v) => selems(cur.remaining(), *s) == Result::<_, ErrorV>::Ok(
                dec_list_view(v@),
            ),
            Result::Err(e) => selems(cur.remaining(), *s) == Result::<Seq<DecodedV>, _>::Err(e@),
        },
    decreases cur.items_seq(), *s, cur.remaining().len(),
{
    let ghost rem = cur.remaining();
    let mut cur = cur;
    match cur.next() {
        Option::None => {
            let out: Vec<Decoded> = Vec::new();
            proof {
                assert(rem.len() == 0);
                assert(dec_list_view(out@) =~= Seq::<DecodedV>::empty());
            }
            Result::Ok(out)
        },
        Option::Some(el) => {
            proof {
                assert(rem[0] == *el);
                assert(cur.remaining() =~= rem.drop_first());
            }
            let x = match decode(el, s) {
                Result::Ok(x) => x,
                Result::Err(e) => {
                    return Result::Err(e);
                },
            };
            let rest = match decode_seq(cur, s) {
                Result::Ok(v) => v,
                Result::Err(e) => {
                    return Result::Err(e);
                },
            };
            let ghost restv = rest@;
            let mut out = rest;
            out.insert(0, x);
            proof {
                assert(out@ =~= seq![x] + restv);
                lemma_dec_list_view(out@);
                lemma_dec_list_view(restv);
                assert(dec_list_view(out@) =~= seq![dec_view(x)] + dec_list_view(restv));
                assert(selems(rem, *s) == Result::<Seq<DecodedV>, ErrorV>::Ok(
                    seq![dec_view(x)] + dec_list_view(restv),
                ));
            }
            Result::Ok(out)
        },
    }
}

/// Decodes every entry the property map cursor has left: pulls the key,
/// then the value, decodes the value self-describingly, and repeats.
fn decode_map<'a>(cur: ObjectAccess<'a>) -> (r: Result<Vec<(String, Decoded)>, DecodeError>)
    requires
        cur.wf(),
    ensures
        match r {
            Result::Ok(v) => sentries(cur.remaining()) == Result::<_, ErrorV>::Ok(
                dec_rec_view(v@),
            ),
            Result::Err(e) => sentries(cur.remaining()) == Result::<
                Seq<(Seq<char>, DecodedV)>,
                _,
            >::Err(e@),
        },
    decreases cur.entries_seq(), Shape::Any, cur.remaining().len(),
{
    let ghost rem = cur.remaining();
    let mut cur = cur;
    match cur.next_key() {
        Option::None => {
            let out: Vec<(String, Decoded)> = Vec::new();
            proof {
                assert(rem.len() == 0);
                assert(dec_rec_view(out@) =~= Seq::<(Seq<char>, DecodedV)>::empty());
            }
            Result::Ok(out)
        },
        Option::Some(k) => {
            let key = k.clone();
            let v = match cur.next_value() {
                Result::Ok(v) => v,
                Result::Err(e) => {
                    return Result::Err(e);
                },
            };
            proof {
                assert(rem[0].1 == *v);
                assert(cur.remaining() =~= rem.drop_first());
            }
            let x = match decode(v, &Shape::Any) {
                Result::Ok(x) => x,
                Result::Err(e) => {
                    return Result::Err(e);
                },
            };
            let rest = match decode_map(cur) {
                Result::Ok(v) => v,
                Result::Err(e) => {
                    return Result::Err(e);
                },
            };
            let ghost restv = rest@;
            let mut out = rest;
            out.insert(0, (key, x));
            proof {
                assert(out@ =~= seq![(key, x)] + restv);
                lemma_dec_rec_view(out@);
                lemma_dec_rec_view(restv);
                assert(key@ == rem[0].0@);
                assert(dec_rec_view(out@) =~= seq![(rem[0].0@, dec_view(x))] + dec_rec_view(
                    restv,
                ));
                assert(sentries(rem) == Result::<Seq<(Seq<char>, DecodedV)>, ErrorV>::Ok(
                    seq![(rem[0].0@, dec_view(x))] + dec_rec_view(restv),
                ));
            }
            Result::Ok(out)
        },
    }
}

/// Decodes the tuple payload's next elements, one per remaining
/// per-element expectation.
fn decode_zip<'a>(cur: ArrayAccess<'a>, shapes: &Vec<Shape>, j: usize) -> (r: Result<
    Vec<Decoded>,
    DecodeError,
>)
    requires
        cur.wf(),
        j <= shapes@.len(),
        cur.remaining().len() >= shapes@.len() - j,
    ensures
        match r {
            Result::Ok(v) => szip(cur.remaining(), shapes@.skip(j as int)) == Result::<
                _,
                ErrorV,
            >::Ok(dec_list_view(v@)),
            Result::Err(e) => szip(cur.remaining(), shapes@.skip(j as int)) == Result::<
                Seq<DecodedV>,
                _,
            >::Err(e@),
        },
    decreases cur.items_seq(), Shape::Any, shapes@.len() - j,
{
    let ghost rem = cur.remaining();
    let mut cur = cur;
    if j >= shapes.len() {
        let out: Vec<Decoded> = Vec::new();
        proof {
            assert(shapes@.skip(j as int).len() == 0);
            assert(dec_list_view(out@) =~= Seq::<DecodedV>::empty());
        }
        return Result::Ok(out);
    }
    match cur.next() {
        Option::None => {
            proof {
                assert(false);
            }
            Result::Err(DecodeError::InvalidLength { need: shapes.len(), got: 0 })
        },
        Option::Some(el) => {
            proof {
                assert(rem[0] == *el);
                assert(cur.remaining() =~= rem.drop_first());
                assert(shapes@.skip(j as int)[0] == shapes@[j as int]);
                assert(shapes@.skip(j as int).drop_first() =~= shapes@.skip(j as int + 1));
            }
            let x = match decode(el, &shapes[j]) {
                Result::Ok(x) => x,
                Result::Err(e) => {
                    return Result::Err(e);
                },
            };
            let rest = match decode_zip(cur, shapes, j + 1) {
                Result::Ok(v) => v,
                Result::Err(e) => {
                    return Result::Err(e);
                },
            };
            let ghost restv = rest@;
            let mut out = rest;
            out.insert(0, x);
            proof {
                assert(out@ =~= seq![x] + restv);
                lemma_dec_list_view(out@);
                lemma_dec_list_view(restv);
                assert(dec_list_view(out@) =~= seq![dec_view(x)] + dec_list_view(restv));
                assert(szip(rem, shapes@.skip(j as int)) == Result::<Seq<DecodedV>, ErrorV>::Ok(
                    seq![dec_view(x)] + dec_list_view(restv),
                ));
            }
            Result::Ok(out)
        },
    }
}

/// Decodes a tagged-union position: resolves the wire convention, looks
/// the variant name up, and reconstructs the payload the variant's kind
/// asks for.
pub fn decode_enum(d: &Dyn, vs: &Vec<VariantSchema>) -> (r: Result<Decoded, DecodeError>)
    ensures
        res_view(r) == senum(*d, *vs),
    decreases *d, Shape::Enum(*vs), 0int,
{
    match d {
        Dyn::Str(name) => match lookup_variant(vs, name) {
            Option::None => Result::Err(DecodeError::UnknownVariant { name: name.clone() }),
            Option::Some(sc) => match &sc.kind {
                VariantKind::Unit => Result::Ok(Decoded::UnitVariant(name.clone())),
                VariantKind::Newtype(_) => Result::Err(
                    invalid_type("unit variant".to_owned(), "newtype variant"),
                ),
                VariantKind::Tuple(_) => Result::Err(
                    invalid_type("unit variant".to_owned(), "tuple variant"),
                ),
                VariantKind::Struct => Result::Err(
                    invalid_type("unit variant".to_owned(), "struct variant"),
                ),
            },
        },
        Dyn::Obj(entries) => {
            if entries.len() != 1 {
                return Result::Err(DecodeError::InvalidKeyType {
                    key: key_count_message(entries.len()),
                });
            }
            let name = &entries[0].0;
            let payload = &entries[0].1;
            match lookup_variant(vs, name) {
                Option::None => Result::Err(DecodeError::UnknownVariant { name: name.clone() }),
                Option::Some(sc) => match &sc.kind {
                    VariantKind::Unit => if payload.is_nullish() {
                        Result::Ok(Decoded::UnitVariant(name.clone()))
                    } else {
                        Result::Err(invalid_type(payload.describe(), "unit"))
                    },
                    VariantKind::Newtype(inner) => match decode(payload, inner) {
                        Result::Ok(x) => Result::Ok(
                            Decoded::NewtypeVariant(name.clone(), Box::new(x)),
                        ),
                        Result::Err(e) => Result::Err(e),
                    },
                    VariantKind::Tuple(shapes) => match payload {
                        Dyn::Arr(pv) => {
                            if pv.len() < shapes.len() {
                                return Result::Err(DecodeError::InvalidLength {
                                    need: shapes.len(),
                                    got: pv.len(),
                                });
                            }
                            let cur = ArrayAccess::new(pv);
                            proof {
                                assert(cur.remaining() =~= pv@);
                                assert(shapes@.skip(0) =~= shapes@);
                            }
                            match decode_zip(cur, shapes, 0) {
                                Result::Ok(xs) => Result::Ok(
                                    Decoded::TupleVariant(name.clone(), xs),
                                ),
                                Result::Err(e) => Result::Err(e),
                            }
                        },
                        _ => Result::Err(invalid_type(payload.describe(), "tuple variant")),
                    },
                    VariantKind::Struct => match payload {
                        Dyn::Obj(pe) => {
                            let cur = ObjectAccess::new(pe);
                            proof {
                                assert(cur.remaining() =~= pe@);
                            }
                            match decode_map(cur) {
                                Result::Ok(es) => Result::Ok(
                                    Decoded::StructVariant(name.clone(), es),
                                ),
                                Result::Err(e) => Result::Err(e),
                            }
                        },
                        _ => Result::Err(invalid_type(payload.describe(), "struct variant")),
                    },
                },
            }
        },
        _ => Result::Err(DecodeError::InvalidKeyType { key: d.describe() }),
    }
}

/// What resolving a tagged-union value yields: the variant name and the
/// optional payload, per the wire convention, before any schema is
/// consulted.  Name validity is the schema's own concern.
pub open spec fn sresolve(d: Dyn) -> Result<(Seq<char>, Option<Dyn>), ErrorV> {
    match d {
        Dyn::Str(name) => Result::Ok((name@, Option::None)),
        Dyn::Obj(entries) => if entries@.len() != 1 {
            Result::Err(ErrorV::InvalidKeyType { key: key_count_msg(entries@.len() as nat) })
        } else {
            Result::Ok((entries@[0].0@, Option::Some(entries@[0].1)))
        },
        _ => Result::Err(ErrorV::InvalidKeyType { key: d.spec_describe() }),
    }
}

/// Resolves a tagged-union value into its variant name and optional
/// payload view: a bare string names a unit variant; a single-key object
/// names the variant with its key and carries the key's value as payload;
/// every other shape, and every other key count, is rejected.
pub fn resolve_variant<'a>(d: &'a Dyn) -> (r: Result<(String, Option<&'a Dyn>), DecodeError>)
    ensures
        match sresolve(*d) {
            Result::Ok(nv) => r matches Result::Ok(t) && t.0@ == nv.0 && (match nv.1 {
                Option::Some(p) => t.1 matches Option::Some(q) && *q == p,
                Option::None => t.1 is None,
            }),
            Result::Err(e) => r matches Result::Err(e2) && e2@ == e,
        },
{
    match d {
        Dyn::Str(name) => Result::Ok((name.clone(), Option::None)),
        Dyn::Obj(entries) => {
            if entries.len() != 1 {
                return Result::Err(DecodeError::InvalidKeyType {
                    key: key_count_message(entries.len()),
                });
            }
            Result::Ok((entries[0].0.clone(), Option::Some(&entries[0].1)))
        },
        _ => Result::Err(DecodeError::InvalidKeyType { key: d.describe() }),
    }
}

/// The dispatch core bound to one dynamic value: the transient decoder
/// created for the root and for every nested node.
pub struct Deserializer<'a> {
    pub input: &'a Dyn,
}

impl<'a> Deserializer<'a> {
    /// Binds a decoder to one node of the value tree.
    pub fn new(input: &'a Dyn) -> (r: Self)
        ensures
            r.input == input,
    {
        Deserializer { input }
    }

    /// Decodes the bound value against the given expectation.
    pub fn deserialize(&self, s: &Shape) -> (r: Result<Decoded, DecodeError>)
        ensures
            res_view(r) == sdecode(*self.input, *s),
    {
        decode(self.input, s)
    }

    /// Self-describing dispatch on the bound value's runtime tag.
    pub fn deserialize_any(&self) -> (r: Result<Decoded, DecodeError>)
        ensures
            res_view(r) == sdecode(*self.input, Shape::Any),
    {
        decode(self.input, &Shape::Any)
    }

    /// An owned copy of the bound value's bytes; anything but a byte
    /// buffer is rejected as not implemented.
    pub fn deserialize_bytes(&self) -> (r: Result<Decoded, DecodeError>)
        ensures
            res_view(r) == sdecode(*self.input, Shape::Bytes),
    {
        decode(self.input, &Shape::Bytes)
    }

    /// Same as [`Self::deserialize_bytes`]: the owned-buffer request also
    /// copies the host bytes once.
    pub fn deserialize_byte_buf(&self) -> (r: Result<Decoded, DecodeError>)
        ensures
            res_view(r) == sdecode(*self.input, Shape::Bytes),
    {
        decode(self.input, &Shape::Bytes)
    }

    /// A unit-like value answers "missing"; any other value is decoded
    /// with the inner expectation and answers "present".
    pub fn deserialize_option(&self, inner: &Shape) -> (r: Result<Decoded, DecodeError>)
        ensures
            self.input.spec_is_nullish() ==> r == Result::<Decoded, DecodeError>::Ok(
                Decoded::Missing,
            ),
            !self.input.spec_is_nullish() ==> res_view(r) == (match sdecode(
                *self.input,
                *inner,
            ) {
                Result::Ok(x) => Result::<DecodedV, ErrorV>::Ok(DecodedV::Present(Box::new(x))),
                Result::Err(e) => Result::Err(e),
            }),
    {
        if self.input.is_nullish() {
            Result::Ok(Decoded::Missing)
        } else {
            match decode(self.input, inner) {
                Result::Ok(x) => Result::Ok(Decoded::Present(Box::new(x))),
                Result::Err(e) => Result::Err(e),
            }
        }
    }

    /// Resolves the bound value as a tagged union over the given variant
    /// set.
    pub fn deserialize_enum(&self, variants: &Vec<VariantSchema>) -> (r: Result<
        Decoded,
        DecodeError,
    >)
        ensures
            res_view(r) == senum(*self.input, *variants),
    {
        decode_enum(self.input, variants)
    }

    /// Discards the bound value; succeeds on every shape.
    pub fn deserialize_ignored_any(&self) -> (r: Result<Decoded, DecodeError>)
        ensures
            r == Result::<Decoded, DecodeError>::Ok(Decoded::Unit),
            res_view(r) == sdecode(*self.input, Shape::Ignore),
    {
        Result::Ok(Decoded::Unit)
    }
}

/// The entry point: decodes one dynamic value tree against one schema.
pub fn from_value(root: &Dyn, schema: &Shape) -> (r: Result<Decoded, DecodeError>)
    ensures
        res_view(r) == sdecode(*root, *schema),
{
    let de = Deserializer::new(root);
    de.deserialize(schema)
}

/// The optional-root entry point: a caller with no value at all gets the
/// same answer as one holding the host's undefined value.
pub fn from_value_opt(root: Option<&Dyn>, schema: &Shape) -> (r: Result<Decoded, DecodeError>)
    ensures
        root matches Option::Some(d) ==> res_view(r) == sdecode(*d, *schema),
        root is None ==> res_view(r) == sdecode(Dyn::Undefined, *schema),
{
    match root {
        Option::Some(d) => from_value(d, schema),
        Option::None => from_value(&Dyn::Undefined, schema),
    }
}

/// Self-describing decoding round-trips every primitive dynamic value to
/// its semantically equivalent typed value: unit-like values to unit,
/// booleans, strings and byte buffers to themselves, and a number to the
/// integer or float half of the split.
pub proof fn lemma_any_primitive_round_trip(d: Dyn)
    ensures
        d.spec_is_nullish() ==> sdecode(d, Shape::Any) == Result::<DecodedV, ErrorV>::Ok(
            DecodedV::Unit,
        ),
        d matches Dyn::Bool(b) ==> sdecode(d, Shape::Any) == Result::<DecodedV, ErrorV>::Ok(
            DecodedV::Bool(b),
        ),
        d matches Dyn::Str(st) ==> sdecode(d, Shape::Any) == Result::<DecodedV, ErrorV>::Ok(
            DecodedV::Str(st@),
        ),
        d matches Dyn::Bytes(b) ==> sdecode(d, Shape::Any) == Result::<DecodedV, ErrorV>::Ok(
            DecodedV::Bytes(b@),
        ),
        d matches Dyn::Num(bits) ==> sdecode(d, Shape::Any) == (if number::is_integral(bits) {
            Result::<DecodedV, ErrorV>::Ok(DecodedV::Int(number::integer_value(bits) as i64))
        } else {
            Result::<DecodedV, ErrorV>::Ok(DecodedV::Float(bits))
        }),
{
}

/// An optional expectation answers "missing" exactly on the host's two
/// unit-like values, and otherwise wraps the inner decode of the very
/// same value as "present", passing an inner failure through unchanged.
pub proof fn lemma_optional(d: Dyn, inner: Shape)
    ensures
        d.spec_is_nullish() ==> sdecode(d, Shape::Optional(Box::new(inner))) == Result::<
            DecodedV,
            ErrorV,
        >::Ok(DecodedV::Missing),
        !d.spec_is_nullish() ==> sdecode(d, Shape::Optional(Box::new(inner))) == (match sdecode(
            d,
            inner,
        ) {
            Result::Ok(x) => Result::<DecodedV, ErrorV>::Ok(DecodedV::Present(Box::new(x))),
            Result::Err(e) => Result::Err(e),
        }),
{
}

/// The host's two unit-like values decode alike under every expectation
/// except a tagged union, where only the error's description of the value
/// differs.
pub proof fn lemma_unit_likes_agree(schema: Shape)
    ensures
        schema is Enum || sdecode(Dyn::Undefined, schema) == sdecode(Dyn::Null, schema),
{
}

} // verus!

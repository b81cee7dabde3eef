//! The typed output of a decode: what the dispatch core hands to the
//! target schema, with its mathematical model.

use vstd::prelude::*;

verus! {

broadcast use vstd::std_specs::vec::group_vec_axioms, vstd::seq::group_seq_axioms;

/// A fully decoded value.
///
/// `Unit` stands for the host's unit-like values (and for a successfully
/// ignored value); `Int` and `Float` are the two halves of the number
/// split; `Missing`/`Present` are the two answers of an optional schema;
/// the four variant forms carry the resolved variant name of a
/// tagged-union value.
#[derive(Debug, PartialEq)]
pub enum Decoded {
    Unit,
    Bool(bool),
    Int(i64),
    Float(u64),
    Str(String),
    Bytes(Vec<u8>),
    List(Vec<Decoded>),
    Record(Vec<(String, Decoded)>),
    Missing,
    Present(Box<Decoded>),
    UnitVariant(String),
    NewtypeVariant(String, Box<Decoded>),
    TupleVariant(String, Vec<Decoded>),
    StructVariant(String, Vec<(String, Decoded)>),
}

/// The mathematical model of a decoded value.
pub enum DecodedV {
    Unit,
    Bool(bool),
    Int(i64),
    Float(u64),
    Str(Seq<char>),
    Bytes(Seq<u8>),
    List(Seq<DecodedV>),
    Record(Seq<(Seq<char>, DecodedV)>),
    Missing,
    Present(Box<DecodedV>),
    UnitVariant(Seq<char>),
    NewtypeVariant(Seq<char>, Box<DecodedV>),
    TupleVariant(Seq<char>, Seq<DecodedV>),
    StructVariant(Seq<char>, Seq<(Seq<char>, DecodedV)>),
}

/// The model of a decoded value, recursing through lists and records.
pub open spec fn dec_view(x: Decoded) -> DecodedV
    decreases x,
{
    match x {
        Decoded::Unit => DecodedV::Unit,
        Decoded::Bool(b) => DecodedV::Bool(b),
        Decoded::Int(i) => DecodedV::Int(i),
        Decoded::Float(bits) => DecodedV::Float(bits),
        Decoded::Str(s) => DecodedV::Str(s@),
        Decoded::Bytes(b) => DecodedV::Bytes(b@),
        Decoded::List(v) => DecodedV::List(dec_list_view(v@)),
        Decoded::Record(v) => DecodedV::Record(dec_rec_view(v@)),
        Decoded::Missing => DecodedV::Missing,
        Decoded::Present(b) => DecodedV::Present(Box::new(dec_view(*b))),
        Decoded::UnitVariant(n) => DecodedV::UnitVariant(n@),
        Decoded::NewtypeVariant(n, b) => DecodedV::NewtypeVariant(n@, Box::new(dec_view(*b))),
        Decoded::TupleVariant(n, v) => DecodedV::TupleVariant(n@, dec_list_view(v@)),
        Decoded::StructVariant(n, v) => DecodedV::StructVariant(n@, dec_rec_view(v@)),
    }
}

/// The models of a list of decoded values, in order.
pub open spec fn dec_list_view(s: Seq<Decoded>) -> Seq<DecodedV>
    decreases s,
{
    if s.len() == 0 {
        Seq::empty()
    } else {
        dec_list_view(s.drop_last()).push(dec_view(s[s.len() - 1]))
    }
}

/// The models of a record's entries, in order.
pub open spec fn dec_rec_view(s: Seq<(String, Decoded)>) -> Seq<(Seq<char>, DecodedV)>
    decreases s,
{
    if s.len() == 0 {
        Seq::empty()
    } else {
        dec_rec_view(s.drop_last()).push((s[s.len() - 1].0@, dec_view(s[s.len() - 1].1)))
    }
}

impl View for Decoded {
    type V = DecodedV;

    open spec fn view(&self) -> DecodedV {
        dec_view(*self)
    }
}

/// Pointwise reading of [`dec_list_view`].
pub proof fn lemma_dec_list_view(s: Seq<Decoded>)
    ensures
        dec_list_view(s).len() == s.len(),
        forall|i: int| 0 <= i < s.len() ==> dec_list_view(s)[i] == dec_view(s[i]),
    decreases s.len(),
{
    if s.len() > 0 {
        lemma_dec_list_view(s.drop_last());
    }
}

/// Pointwise reading of [`dec_rec_view`].
pub proof fn lemma_dec_rec_view(s: Seq<(String, Decoded)>)
    ensures
        dec_rec_view(s).len() == s.len(),
        forall|i: int|
            0 <= i < s.len() ==> dec_rec_view(s)[i] == (s[i].0@, dec_view(s[i].1)),
    decreases s.len(),
{
    if s.len() > 0 {
        lemma_dec_rec_view(s.drop_last());
    }
}

} // verus!

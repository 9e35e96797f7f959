use vstd::prelude::*;

verus! {

/// A loosely typed value as it crosses the call boundary: both the
/// parameters handed to a statement and the cells decoded from a result
/// row are represented this way. Floating-point numbers travel as their
/// IEEE 754 double-precision bit pattern, which callers produce and
/// consume at the boundary.
#[derive(Debug, PartialEq)]
pub enum GenericValue {
    Null,
    Bool(bool),
    Int(i64),
    Float(u64),
    Str(String),
    Array(Vec<GenericValue>),
    Object(Vec<(String, GenericValue)>),
}

/// A protocol-native bound parameter, produced from one `GenericValue`
/// and ordered positionally; its lifetime is one statement execution.
/// `Null` is the typed null parameter (an absent string).
#[derive(Debug, PartialEq)]
pub enum BoundParam {
    Null,
    Bool(bool),
    Int(i64),
    Float(u64),
    Str(String),
}

/// The mathematical model of a primitive value: strings as character
/// sequences, everything else as itself.
pub enum PrimValue {
    Null,
    Bool(bool),
    Int(i64),
    Float(u64),
    Str(Seq<char>),
}

/// The shapes that the protocol can carry as a parameter. Arrays and
/// objects are not among them: they degrade to a null parameter.
pub open spec fn is_primitive(v: GenericValue) -> bool {
    match v {
        GenericValue::Array(_) => false,
        GenericValue::Object(_) => false,
        _ => true,
    }
}

/// The model of a value as the protocol sees it: a primitive maps to
/// itself, every unsupported shape collapses to null.
pub open spec fn value_model(v: GenericValue) -> PrimValue {
    match v {
        GenericValue::Null => PrimValue::Null,
        GenericValue::Bool(b) => PrimValue::Bool(b),
        GenericValue::Int(i) => PrimValue::Int(i),
        GenericValue::Float(bits) => PrimValue::Float(bits),
        GenericValue::Str(s) => PrimValue::Str(s@),
        GenericValue::Array(_) => PrimValue::Null,
        GenericValue::Object(_) => PrimValue::Null,
    }
}

impl View for BoundParam {
    type V = PrimValue;

    open spec fn view(&self) -> PrimValue {
        match self {
            BoundParam::Null => PrimValue::Null,
            BoundParam::Bool(b) => PrimValue::Bool(*b),
            BoundParam::Int(i) => PrimValue::Int(*i),
            BoundParam::Float(bits) => PrimValue::Float(*bits),
            BoundParam::Str(s) => PrimValue::Str(s@),
        }
    }
}

} // verus!

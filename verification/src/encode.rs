use vstd::prelude::*;

use crate::value::{is_primitive, value_model, BoundParam, GenericValue, PrimValue};

verus! {

/// Converts one generic value into the protocol-native parameter:
/// strings, integers, floating-point bit patterns and booleans map to
/// their native counterparts; null and every unsupported shape (array,
/// object) map to the typed null parameter. Encoding never fails.
pub fn encode(v: &GenericValue) -> (p: BoundParam)
    ensures
        p@ == value_model(*v),
{
    match v {
        GenericValue::Str(s) => BoundParam::Str(s.clone()),
        GenericValue::Int(i) => BoundParam::Int(*i),
        GenericValue::Float(bits) => BoundParam::Float(*bits),
        GenericValue::Bool(b) => BoundParam::Bool(*b),
        _ => BoundParam::Null,
    }
}

/// Encodes a parameter list element-wise. The result has one bound
/// parameter per input value, in the same relative order: the parameter
/// at each position is the encoding of the value at that position.
pub fn encode_all(vs: &Vec<GenericValue>) -> (ps: Vec<BoundParam>)
    ensures
        ps@.len() == vs@.len(),
        forall|i: int| 0 <= i < vs@.len() ==> ps@[i]@ == value_model(vs@[i]),
{
    let mut ps: Vec<BoundParam> = Vec::new();
    let mut i: usize = 0;
    while i < vs.len()
        invariant
            i <= vs@.len(),
            ps@.len() == i,
            forall|j: int| 0 <= j < i ==> ps@[j]@ == value_model(vs@[j]),
        decreases vs@.len() - i,
    {
        let p = encode(&vs[i]);
        ps.push(p);
        i = i + 1;
    }
    ps
}

/// An unsupported input shape encodes to the null parameter; it is
/// degraded silently, never rejected.
pub proof fn lemma_unsupported_encodes_null(v: GenericValue)
    requires
        !is_primitive(v),
    ensures
        value_model(v) == PrimValue::Null,
{
}

} // verus!

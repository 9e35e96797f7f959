use vstd::prelude::*;

use crate::value::{is_primitive, value_model, BoundParam, GenericValue, PrimValue};

verus! {

/// A protocol column value as delivered for one cell of a row, reduced
/// to plain data: byte buffers, integers of every width the protocol
/// sends, floating-point values as their 64-bit bit pattern, text, and
/// the canonical string form of a unique identifier. `Unsupported`
/// stands for every column kind outside this set.
#[derive(Debug, PartialEq)]
pub enum Column {
    Binary(Option<Vec<u8>>),
    Bit(Option<bool>),
    TinyInt(Option<u8>),
    SmallInt(Option<i16>),
    Int(Option<i32>),
    BigInt(Option<i64>),
    Float32(Option<u64>),
    Float64(Option<u64>),
    Text(Option<String>),
    Guid(Option<String>),
    Unsupported,
}

/// The lower-case hexadecimal digit character for one value below 16.
pub open spec fn hex_digit(d: u8) -> char {
    if d == 0 {
        '0'
    } else if d == 1 {
        '1'
    } else if d == 2 {
        '2'
    } else if d == 3 {
        '3'
    } else if d == 4 {
        '4'
    } else if d == 5 {
        '5'
    } else if d == 6 {
        '6'
    } else if d == 7 {
        '7'
    } else if d == 8 {
        '8'
    } else if d == 9 {
        '9'
    } else if d == 10 {
        'a'
    } else if d == 11 {
        'b'
    } else if d == 12 {
        'c'
    } else if d == 13 {
        'd'
    } else if d == 14 {
        'e'
    } else {
        'f'
    }
}

/// The lower-case hexadecimal encoding of a byte sequence: two digits
/// per byte, high nibble first, bytes in order.
pub open spec fn hex_of(bytes: Seq<u8>) -> Seq<char>
    decreases bytes.len(),
{
    if bytes.len() == 0 {
        Seq::<char>::empty()
    } else {
        seq![hex_digit(bytes[0] / 16), hex_digit(bytes[0] % 16)] + hex_of(bytes.drop_first())
    }
}

/// Relies on `hex::encode`: the lower-case hexadecimal encoding of the
/// bytes, two digits per byte, high nibble first, bytes in order.
#[verifier::external_body]
fn bytes_to_hex(bytes: &Vec<u8>) -> (r: String)
    ensures
        r@ == hex_of(bytes@),
{
    hex::encode(bytes)
}

/// What one column decodes to: a present value of a supported kind maps
/// to its generic counterpart (binary as lower-case hexadecimal text),
/// while a null of any kind and every unsupported kind collapse to
/// null.
pub open spec fn decode_model(c: Column) -> PrimValue {
    match c {
        Column::Binary(Some(b)) => PrimValue::Str(hex_of(b@)),
        Column::Bit(Some(b)) => PrimValue::Bool(b),
        Column::TinyInt(Some(i)) => PrimValue::Int(i as i64),
        Column::SmallInt(Some(i)) => PrimValue::Int(i as i64),
        Column::Int(Some(i)) => PrimValue::Int(i as i64),
        Column::BigInt(Some(i)) => PrimValue::Int(i),
        Column::Float32(Some(bits)) => PrimValue::Float(bits),
        Column::Float64(Some(bits)) => PrimValue::Float(bits),
        Column::Text(Some(s)) => PrimValue::Str(s@),
        Column::Guid(Some(s)) => PrimValue::Str(s@),
        _ => PrimValue::Null,
    }
}

/// Whether the column is a present-but-null value of a supported kind.
pub open spec fn is_null_cell(c: Column) -> bool {
    match c {
        Column::Binary(p) => p is None,
        Column::Bit(p) => p is None,
        Column::TinyInt(p) => p is None,
        Column::SmallInt(p) => p is None,
        Column::Int(p) => p is None,
        Column::BigInt(p) => p is None,
        Column::Float32(p) => p is None,
        Column::Float64(p) => p is None,
        Column::Text(p) => p is None,
        Column::Guid(p) => p is None,
        Column::Unsupported => false,
    }
}

/// Decodes one column into a generic value, exactly as `decode_model`
/// states; the result is always a primitive shape.
pub fn decode_column(c: &Column) -> (v: GenericValue)
    ensures
        is_primitive(v),
        value_model(v) == decode_model(*c),
{
    match c {
        Column::Binary(Some(b)) => GenericValue::Str(bytes_to_hex(b)),
        Column::Bit(Some(b)) => GenericValue::Bool(*b),
        Column::TinyInt(Some(i)) => GenericValue::Int(*i as i64),
        Column::SmallInt(Some(i)) => GenericValue::Int(*i as i64),
        Column::Int(Some(i)) => GenericValue::Int(*i as i64),
        Column::BigInt(Some(i)) => GenericValue::Int(*i),
        Column::Float32(Some(bits)) => GenericValue::Float(*bits),
        Column::Float64(Some(bits)) => GenericValue::Float(*bits),
        Column::Text(Some(s)) => GenericValue::Str(s.clone()),
        Column::Guid(Some(s)) => GenericValue::Str(s.clone()),
        _ => GenericValue::Null,
    }
}

/// A null column of any supported kind decodes to the null value.
pub proof fn lemma_null_cell_decodes_null(c: Column)
    requires
        is_null_cell(c),
    ensures
        decode_model(c) == PrimValue::Null,
{
}

/// A mock echo of a bound parameter back as a column, the way an echo
/// server would return it: each parameter kind comes back as a present
/// value of the matching column kind, and the typed null parameter as a
/// null text column. The column decodes to exactly the parameter's
/// model.
pub fn echo_column(p: BoundParam) -> (c: Column)
    ensures
        decode_model(c) == p@,
{
    match p {
        BoundParam::Null => Column::Text(None),
        BoundParam::Bool(b) => Column::Bit(Some(b)),
        BoundParam::Int(i) => Column::BigInt(Some(i)),
        BoundParam::Float(bits) => Column::Float64(Some(bits)),
        BoundParam::Str(s) => Column::Text(Some(s)),
    }
}

/// A supported value encoded as a parameter and echoed back as a column
/// decodes to the value it started as: any column that echoes the
/// encoding of a primitive value decodes to that value's model.
pub proof fn lemma_echo_round_trip(v: GenericValue, p: BoundParam, c: Column)
    requires
        is_primitive(v),
        p@ == value_model(v),
        decode_model(c) == p@,
    ensures
        decode_model(c) == value_model(v),
{
}

} // verus!

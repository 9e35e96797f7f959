use sqlbridge::decode::{decode_column, echo_column, Column};
use sqlbridge::encode::encode;
use sqlbridge::run::{build_record, decode_items, query_result, QueryOutcome, Record, StreamItem};
use sqlbridge::value::GenericValue;

#[test]
fn binary_column_decodes_to_lowercase_hex() {
    let v = decode_column(&Column::Binary(Some(vec![0xDE, 0xAD])));
    assert_eq!(v, GenericValue::Str(String::from("dead")));
}

#[test]
fn empty_binary_column_decodes_to_empty_string() {
    let v = decode_column(&Column::Binary(Some(vec![])));
    assert_eq!(v, GenericValue::Str(String::from("")));
}

#[test]
fn every_integer_width_decodes_to_number() {
    assert_eq!(decode_column(&Column::TinyInt(Some(7))), GenericValue::Int(7));
    assert_eq!(decode_column(&Column::SmallInt(Some(-3))), GenericValue::Int(-3));
    assert_eq!(decode_column(&Column::Int(Some(100000))), GenericValue::Int(100000));
    assert_eq!(decode_column(&Column::BigInt(Some(-5000000000))), GenericValue::Int(-5000000000));
}

#[test]
fn boolean_text_and_guid_columns_decode() {
    assert_eq!(decode_column(&Column::Bit(Some(true))), GenericValue::Bool(true));
    assert_eq!(
        decode_column(&Column::Text(Some(String::from("hello")))),
        GenericValue::Str(String::from("hello"))
    );
    assert_eq!(
        decode_column(&Column::Guid(Some(String::from(
            "6f9619ff-8b86-d011-b42d-00c04fc964ff"
        )))),
        GenericValue::Str(String::from("6f9619ff-8b86-d011-b42d-00c04fc964ff"))
    );
}

#[test]
fn float_columns_decode_to_their_bit_pattern() {
    let bits = (2.25f64).to_bits();
    assert_eq!(decode_column(&Column::Float32(Some(bits))), GenericValue::Float(bits));
    assert_eq!(decode_column(&Column::Float64(Some(bits))), GenericValue::Float(bits));
}

#[test]
fn null_of_every_supported_kind_decodes_to_null() {
    assert_eq!(decode_column(&Column::Binary(None)), GenericValue::Null);
    assert_eq!(decode_column(&Column::Bit(None)), GenericValue::Null);
    assert_eq!(decode_column(&Column::TinyInt(None)), GenericValue::Null);
    assert_eq!(decode_column(&Column::SmallInt(None)), GenericValue::Null);
    assert_eq!(decode_column(&Column::Int(None)), GenericValue::Null);
    assert_eq!(decode_column(&Column::BigInt(None)), GenericValue::Null);
    assert_eq!(decode_column(&Column::Float32(None)), GenericValue::Null);
    assert_eq!(decode_column(&Column::Float64(None)), GenericValue::Null);
    assert_eq!(decode_column(&Column::Text(None)), GenericValue::Null);
    assert_eq!(decode_column(&Column::Guid(None)), GenericValue::Null);
}

#[test]
fn unsupported_column_kind_decodes_to_null() {
    assert_eq!(decode_column(&Column::Unsupported), GenericValue::Null);
}

#[test]
fn echoed_string_round_trips() {
    let p = encode(&GenericValue::Str(String::from("abc")));
    let v = decode_column(&echo_column(p));
    assert_eq!(v, GenericValue::Str(String::from("abc")));
}

#[test]
fn echoed_integer_round_trips() {
    let p = encode(&GenericValue::Int(42));
    let v = decode_column(&echo_column(p));
    assert_eq!(v, GenericValue::Int(42));
}

#[test]
fn echoed_boolean_round_trips() {
    let p = encode(&GenericValue::Bool(true));
    let v = decode_column(&echo_column(p));
    assert_eq!(v, GenericValue::Bool(true));
}

#[test]
fn echoed_null_round_trips() {
    let p = encode(&GenericValue::Null);
    let v = decode_column(&echo_column(p));
    assert_eq!(v, GenericValue::Null);
}

#[test]
fn record_zips_names_with_decoded_cells_in_order() {
    let names = vec![String::from("id"), String::from("name")];
    let cells = vec![Column::Int(Some(1)), Column::Text(Some(String::from("ada")))];
    let rec = build_record(&names, &cells);
    assert_eq!(
        rec.columns,
        vec![
            (String::from("id"), GenericValue::Int(1)),
            (String::from("name"), GenericValue::Str(String::from("ada"))),
        ]
    );
}

fn two_row_items() -> Vec<StreamItem> {
    vec![
        StreamItem::Other,
        StreamItem::Row(
            vec![String::from("id"), String::from("name")],
            vec![Column::Int(Some(1)), Column::Text(Some(String::from("ada")))],
        ),
        StreamItem::Row(
            vec![String::from("id"), String::from("name")],
            vec![Column::Int(Some(2)), Column::Text(Some(String::from("bob")))],
        ),
        StreamItem::Other,
    ]
}

#[test]
fn query_over_two_rows_returns_two_ordered_records() {
    let r = query_result(QueryOutcome::Delivered(two_row_items()));
    let rows = r.expect("a full delivery yields rows");
    assert_eq!(rows.len(), 2);
    assert_eq!(rows[0].columns[0].0, "id");
    assert_eq!(rows[0].columns[1].0, "name");
    assert_eq!(rows[0].columns[0].1, GenericValue::Int(1));
    assert_eq!(rows[1].columns[0].1, GenericValue::Int(2));
    assert_eq!(rows[1].columns[1].1, GenericValue::Str(String::from("bob")));
}

#[test]
fn unreachable_host_yields_error_and_no_rows() {
    let r = query_result(QueryOutcome::ConnectFailed(String::from(
        "host unreachable",
    )));
    assert_eq!(r, Err(String::from("host unreachable")));
}

#[test]
fn stream_failure_yields_error_not_partial_rows() {
    let r = query_result(QueryOutcome::StreamFailed(String::from("broken frame")));
    assert_eq!(r, Err(String::from("broken frame")));
}

#[test]
fn same_query_twice_yields_identical_records() {
    let first = decode_items(&two_row_items());
    let second = decode_items(&two_row_items());
    assert_eq!(first, second);
}

#[test]
fn record_keeps_duplicate_column_names_in_order() {
    let names = vec![String::from("v"), String::from("v")];
    let cells = vec![Column::Int(Some(1)), Column::Int(Some(2))];
    let rec = build_record(&names, &cells);
    assert_eq!(rec.columns.len(), 2);
    assert_eq!(rec.columns[0], (String::from("v"), GenericValue::Int(1)));
    assert_eq!(rec.columns[1], (String::from("v"), GenericValue::Int(2)));
}

#[test]
fn empty_delivery_returns_empty_record_list() {
    let r = query_result(QueryOutcome::Delivered(vec![]));
    assert_eq!(r, Ok(Vec::<Record>::new()));
}

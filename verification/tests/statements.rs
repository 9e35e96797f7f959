use sqlbridge::encode::{encode, encode_all};
use sqlbridge::rewrite::rewrite;
use sqlbridge::run::{affected_count, execute_result, prepare, ExecOutcome};
use sqlbridge::value::{BoundParam, GenericValue};

#[test]
fn rewrite_replaces_each_placeholder_in_order() {
    let r = rewrite("UPDATE t SET x=? WHERE id=?", 2);
    assert_eq!(r, "UPDATE t SET x=@p1 WHERE id=@p2");
}

#[test]
fn rewrite_exact_count_leaves_no_placeholder() {
    let r = rewrite("?,?,?", 3);
    assert_eq!(r, "@p1,@p2,@p3");
    assert!(!r.contains('?'));
}

#[test]
fn rewrite_with_no_parameters_keeps_text() {
    let r = rewrite("SELECT id, name FROM t", 0);
    assert_eq!(r, "SELECT id, name FROM t");
}

#[test]
fn rewrite_stops_after_param_count() {
    let r = rewrite("a?b?c", 1);
    assert_eq!(r, "a@p1b?c");
}

#[test]
fn rewrite_with_fewer_placeholders_than_parameters() {
    let r = rewrite("SELECT ?", 3);
    assert_eq!(r, "SELECT @p1");
}

#[test]
fn rewrite_numbers_tokens_past_nine() {
    let r = rewrite("????????????", 12);
    assert_eq!(r, "@p1@p2@p3@p4@p5@p6@p7@p8@p9@p10@p11@p12");
}

#[test]
fn encode_string_clones_the_text() {
    let p = encode(&GenericValue::Str(String::from("abc")));
    assert_eq!(p, BoundParam::Str(String::from("abc")));
}

#[test]
fn encode_integer_and_boolean() {
    assert_eq!(encode(&GenericValue::Int(42)), BoundParam::Int(42));
    assert_eq!(encode(&GenericValue::Bool(true)), BoundParam::Bool(true));
}

#[test]
fn encode_float_bits_pass_through() {
    let bits = (1.5f64).to_bits();
    assert_eq!(encode(&GenericValue::Float(bits)), BoundParam::Float(bits));
}

#[test]
fn encode_null_gives_null_parameter() {
    assert_eq!(encode(&GenericValue::Null), BoundParam::Null);
}

#[test]
fn encode_nested_object_degrades_to_null() {
    let inner = GenericValue::Object(vec![(String::from("x"), GenericValue::Int(1))]);
    let outer = GenericValue::Object(vec![(String::from("k"), inner)]);
    assert_eq!(encode(&outer), BoundParam::Null);
}

#[test]
fn encode_array_degrades_to_null() {
    let v = GenericValue::Array(vec![GenericValue::Int(1), GenericValue::Int(2)]);
    assert_eq!(encode(&v), BoundParam::Null);
}

#[test]
fn encode_all_preserves_order() {
    let vs = vec![
        GenericValue::Str(String::from("a")),
        GenericValue::Int(2),
        GenericValue::Bool(false),
    ];
    let ps = encode_all(&vs);
    assert_eq!(
        ps,
        vec![
            BoundParam::Str(String::from("a")),
            BoundParam::Int(2),
            BoundParam::Bool(false),
        ]
    );
}

#[test]
fn prepare_binds_one_parameter_per_value() {
    let values = vec![GenericValue::Int(5), GenericValue::Int(1)];
    let stmt = prepare("UPDATE t SET x=? WHERE id=?", &values);
    assert_eq!(stmt.text, "UPDATE t SET x=@p1 WHERE id=@p2");
    assert_eq!(stmt.params, vec![BoundParam::Int(5), BoundParam::Int(1)]);
}

#[test]
fn affected_count_takes_first_reported() {
    assert_eq!(affected_count(&vec![1, 7]), 1);
}

#[test]
fn affected_count_defaults_to_zero() {
    assert_eq!(affected_count(&vec![]), 0);
}

#[test]
fn execute_result_reports_one_matching_row() {
    let r = execute_result(ExecOutcome::Completed(vec![1]));
    assert_eq!(r, Ok(1));
}

#[test]
fn execute_result_propagates_failure_text() {
    let r = execute_result(ExecOutcome::StatementFailed(String::from("syntax error")));
    assert_eq!(r, Err(String::from("syntax error")));
}

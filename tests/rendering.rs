use query_params::{
    decimal_text, list_text, signed_decimal_text, FieldValue, Record, RecordField, Value,
};

fn ints(vs: &[i64]) -> Vec<Value> {
    vs.iter().map(|v| Value::Int(*v)).collect()
}

#[test]
fn scalar_fields_join_in_declaration_order() {
    let r = Record::new(vec![
        RecordField::scalar("page", Value::UInt(2)),
        RecordField::scalar("sort", Value::Bool(false)),
        RecordField::scalar("direction", Value::Text("asc".to_string())),
    ]);
    assert_eq!(r.to_query_params(), "?page=2&sort=false&direction=asc");
}

#[test]
fn single_scalar_field_has_no_separator() {
    let r = Record::new(vec![RecordField::scalar("q", Value::Text("x".to_string()))]);
    assert_eq!(r.to_query_params(), "?q=x");
}

#[test]
fn only_absent_optionals_render_empty() {
    let r = Record::new(vec![
        RecordField::optional("a", None),
        RecordField::optional("b", None),
    ]);
    assert_eq!(r.to_query_params(), "");
}

#[test]
fn absent_optionals_leave_no_gaps() {
    let r = Record::new(vec![
        RecordField::optional("a", None),
        RecordField::scalar("b", Value::Int(1)),
        RecordField::optional("c", None),
        RecordField::optional("d", Some(Value::Bool(true))),
        RecordField::optional("e", None),
    ]);
    assert_eq!(r.to_query_params(), "?b=1&d=true");
}

#[test]
fn list_between_neighbours() {
    let r = Record::new(vec![
        RecordField::scalar("x", Value::Int(1)),
        RecordField::list("tags", vec![
            Value::Text("a".to_string()),
            Value::Text("b".to_string()),
            Value::Text("c".to_string()),
        ]),
        RecordField::scalar("y", Value::Int(2)),
    ]);
    assert_eq!(r.to_query_params(), "?x=1&tags=a,b,c&y=2");
}

#[test]
fn empty_list_keeps_its_key() {
    let r = Record::new(vec![RecordField::list("tags", vec![])]);
    assert_eq!(r.to_query_params(), "?tags=");
    let r = Record::new(vec![
        RecordField::list("tags", vec![]),
        RecordField::scalar("n", Value::Int(3)),
    ]);
    assert_eq!(r.to_query_params(), "?tags=&n=3");
}

#[test]
fn list_text_has_no_trailing_comma() {
    assert_eq!(list_text(&ints(&[4, 5, 8, 10])), "4,5,8,10");
    assert_eq!(list_text(&ints(&[7])), "7");
    assert_eq!(list_text(&vec![]), "");
}

#[test]
fn rendering_twice_gives_the_same_text() {
    let r = Record::new(vec![
        RecordField::scalar("a", Value::Int(-5)),
        RecordField::list("b", ints(&[1, 2])),
    ]);
    let first = r.to_query_params();
    let second = r.to_query_params();
    assert_eq!(first, second);
    assert_eq!(first, "?a=-5&b=1,2");
}

#[test]
fn swapping_fields_swaps_only_their_positions() {
    let a = || RecordField::scalar("a", Value::Int(1));
    let b = || RecordField::list("b", ints(&[2, 3]));
    let c = || RecordField::optional("c", Some(Value::Text("z".to_string())));
    let before = Record::new(vec![a(), b(), c()]);
    let after = Record::new(vec![c(), b(), a()]);
    assert_eq!(before.to_query_params(), "?a=1&b=2,3&c=z");
    assert_eq!(after.to_query_params(), "?c=z&b=2,3&a=1");
}

#[test]
fn names_and_values_are_not_escaped() {
    let r = Record::new(vec![RecordField {
        name: "a b".to_string(),
        value: FieldValue::Scalar(Value::Text("x&y=z".to_string())),
    }]);
    assert_eq!(r.to_query_params(), "?a b=x&y=z");
}

#[test]
fn field_segments() {
    assert_eq!(
        RecordField::scalar("k", Value::UInt(9)).segment_text(),
        Some("k=9".to_string())
    );
    assert_eq!(RecordField::optional("k", None).segment_text(), None);
    assert_eq!(
        RecordField::list("k", ints(&[1, -1])).segment_text(),
        Some("k=1,-1".to_string())
    );
}

#[test]
fn value_texts() {
    assert_eq!(Value::Bool(true).text(), "true");
    assert_eq!(Value::Bool(false).text(), "false");
    assert_eq!(Value::Int(0).text(), "0");
    assert_eq!(Value::Text(String::new()).text(), "");
}

#[test]
fn decimal_texts() {
    assert_eq!(decimal_text(0), "0");
    assert_eq!(decimal_text(10), "10");
    assert_eq!(decimal_text(1000), "1000");
    assert_eq!(decimal_text(u64::MAX), "18446744073709551615");
    assert_eq!(signed_decimal_text(-1), "-1");
    assert_eq!(signed_decimal_text(42), "42");
    assert_eq!(signed_decimal_text(i64::MIN), "-9223372036854775808");
    assert_eq!(signed_decimal_text(i64::MAX), "9223372036854775807");
}

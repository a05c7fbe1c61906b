use query_params::{Record, RecordField, Value};

#[test]
fn test_query_params_is_eql() {
    let example_struct = Record::new(vec![
        RecordField::scalar("field_1", Value::Int(4)),
        RecordField::scalar("field_2", Value::Text("hello".to_string())),
        RecordField::scalar("field_3", Value::Bool(true)),
        RecordField::scalar("field_4", Value::Int(1000)),
        RecordField::list(
            "field_5",
            vec![Value::Int(4), Value::Int(5), Value::Int(8), Value::Int(10)],
        ),
    ]);

    assert_eq!(
        example_struct.to_query_params(),
        "?field_1=4&field_2=hello&field_3=true&field_4=1000&field_5=4,5,8,10"
    );
}

#[test]
fn test_empty_struct() {
    let empty_struct = Record::new(vec![]);
    assert_eq!(empty_struct.to_query_params(), "");
}

#[test]
fn test_struct_with_opt_fields() {
    let opts_struct = Record::new(vec![
        RecordField::optional("field_1", Some(Value::Int(42))),
        RecordField::optional("field_2", Some(Value::Text("test".to_string()))),
        RecordField::optional("field_3", None),
    ]);

    assert_eq!(opts_struct.to_query_params(), "?field_1=42&field_2=test");
}

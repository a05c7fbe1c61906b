use query_params::{
    accept_method, classify, compose, derive_query_params, generate_method, resolve_fields,
    FieldDecl, FieldSyntax, GenerationError, RecordDecl, RecordKind, Shape,
};

fn decl(name: &str, fields: &[(&str, &str)]) -> RecordDecl {
    RecordDecl {
        name: name.to_string(),
        impl_generics: String::new(),
        type_generics: String::new(),
        where_clause: String::new(),
        fields: fields
            .iter()
            .map(|(n, t)| FieldDecl { name: n.to_string(), outer_type: t.to_string() })
            .collect(),
    }
}

#[test]
fn classify_by_outer_name() {
    assert_eq!(classify(&"Vec".to_string()), Shape::List);
    assert_eq!(classify(&"Option".to_string()), Shape::Optional);
    assert_eq!(classify(&"i32".to_string()), Shape::Scalar);
    assert_eq!(classify(&"VecDeque".to_string()), Shape::Scalar);
    assert_eq!(classify(&"vec".to_string()), Shape::Scalar);
}

#[test]
fn generated_method_text() {
    let d = decl("Foo", &[("a", "i32"), ("b", "Option"), ("c", "Vec")]);
    let expected = [
        "impl Foo  {\n",
        "    fn to_query_params(&self) -> String {\n",
        "        let mut buf = String::from(\"?\");\n",
        "        buf.push_str(format!(\"a={}&\", self.a).as_str());\n",
        "        if let Some(v) = self.b.as_ref() {\n",
        "            buf.push_str(format!(\"b={}&\", v).as_str());\n",
        "        }\n",
        "        buf.push_str(format!(\"c={}&\", self.c.iter().map(|v| v.to_string()).collect::<Vec<String>>().join(\",\")).as_str());\n",
        "        if buf.len() == 1 {\n",
        "            return String::new();\n",
        "        }\n",
        "        buf.truncate(buf.len() - 1);\n",
        "        buf\n",
        "    }\n",
        "}\n",
    ]
    .concat();
    assert_eq!(generate_method(&d), expected);
}

#[test]
fn compose_accepts_a_well_formed_method() {
    let d = decl("Foo", &[("a", "i32")]);
    let code = compose(&d).unwrap();
    assert_eq!(code, generate_method(&d));
}

#[test]
fn compose_rejects_broken_generics() {
    let mut d = decl("Foo", &[("a", "i32")]);
    d.type_generics = "<<".to_string();
    match compose(&d) {
        Err(GenerationError::CompositionFailure(n)) => assert_eq!(n, "Foo"),
        other => panic!("unexpected {:?}", other),
    }
}

#[test]
fn accept_method_decides_on_the_parse_result() {
    let name = "Foo".to_string();
    assert_eq!(accept_method(&name, "x".to_string(), true).unwrap(), "x");
    match accept_method(&name, "x".to_string(), false) {
        Err(GenerationError::CompositionFailure(n)) => assert_eq!(n, "Foo"),
        other => panic!("unexpected {:?}", other),
    }
}

#[test]
fn resolve_fields_reports_the_first_unreadable_type() {
    let fs = vec![
        FieldSyntax { name: "a".to_string(), outer_type: Some("i32".to_string()) },
        FieldSyntax { name: "b".to_string(), outer_type: None },
        FieldSyntax { name: "c".to_string(), outer_type: None },
    ];
    let record = "R".to_string();
    match resolve_fields(&record, &fs) {
        Err(GenerationError::UnresolvableFieldType(r, n)) => {
            assert_eq!(r, "R");
            assert_eq!(n, "b");
        }
        other => panic!("unexpected {:?}", other.map(|v| v.len())),
    }
    let ok = resolve_fields(&record, &fs[..1].iter().map(|f| FieldSyntax {
        name: f.name.clone(),
        outer_type: f.outer_type.clone(),
    }).collect()).unwrap();
    assert_eq!(ok.len(), 1);
    assert_eq!(ok[0].name, "a");
    assert_eq!(ok[0].outer_type, "i32");
}

#[test]
fn derive_for_named_struct() {
    let code = derive_query_params(
        "struct Api { page: i32, state: Vec<String>, token: Option<String> }",
    )
    .unwrap();
    assert!(code.starts_with("impl Api  {\n"));
    assert!(code.contains("format!(\"page={}&\", self.page)"));
    assert!(code.contains("self.state.iter()"));
    assert!(code.contains("if let Some(v) = self.token.as_ref()"));
}

#[test]
fn derive_uses_the_last_path_segment() {
    let code = derive_query_params("struct S { a: std::vec::Vec<u8>, b: ::std::option::Option<u8> }")
        .unwrap();
    assert!(code.contains("self.a.iter()"));
    assert!(code.contains("if let Some(v) = self.b.as_ref()"));
}

#[test]
fn derive_keeps_generics() {
    let code = derive_query_params("struct G<T> where T: Clone { a: T }").unwrap();
    let compact: String = code.chars().filter(|c| !c.is_whitespace()).collect();
    assert!(compact.starts_with("impl<T>G<T>whereT:Clone{"), "{}", code);
}

#[test]
fn derive_for_empty_struct() {
    let code = derive_query_params("struct Empty {}").unwrap();
    assert_eq!(code, generate_method(&decl("Empty", &[])));
}

#[test]
fn derive_rejects_tuple_unit_and_enum() {
    for (text, kind) in [
        ("struct T(i32, u8);", RecordKind::Tuple),
        ("struct U;", RecordKind::Unit),
        ("enum E { A, B }", RecordKind::Enum),
    ] {
        match derive_query_params(text) {
            Err(GenerationError::UnsupportedRecordShape(k)) => assert_eq!(k, kind),
            other => panic!("unexpected {:?}", other),
        }
    }
}

#[test]
fn derive_rejects_non_path_field_type() {
    match derive_query_params("struct R<'a> { ok: u8, name: &'a str }") {
        Err(GenerationError::UnresolvableFieldType(r, n)) => {
            assert_eq!(r, "R");
            assert_eq!(n, "name");
        }
        other => panic!("unexpected {:?}", other),
    }
}

#[test]
fn derive_rejects_text_that_is_no_declaration() {
    match derive_query_params("fn f() {}") {
        Err(GenerationError::InvalidInput(_)) => {}
        other => panic!("unexpected {:?}", other),
    }
}

#[test]
fn error_messages_name_the_cause() {
    assert_eq!(
        GenerationError::UnsupportedRecordShape(RecordKind::Tuple).message(),
        "#[derive(QueryParams)] is only defined for structs, not tuple"
    );
    assert_eq!(
        GenerationError::UnsupportedRecordShape(RecordKind::Enum).message(),
        "#[derive(QueryParams)] is only defined for structs, not enum"
    );
    assert_eq!(
        GenerationError::UnresolvableFieldType("Api".to_string(), "name".to_string()).message(),
        "#[derive(QueryParams)] cannot read the type of field name of Api"
    );
    assert_eq!(
        GenerationError::CompositionFailure("Api".to_string()).message(),
        "An error occurred when parsing the tokens generated for Api struct"
    );
    assert_eq!(
        GenerationError::InvalidInput("bad".to_string()).message(),
        "#[derive(QueryParams)] cannot parse the declaration: bad"
    );
}

#[test]
fn derive_is_a_function_of_the_text() {
    let text = "struct Api<T> where T: Clone { page: T, state: Vec<String> }";
    let a = derive_query_params(text).unwrap();
    let b = derive_query_params(text).unwrap();
    assert_eq!(a, b);
}

#[test]
fn derive_matches_the_generator_on_the_declared_fields() {
    let code = derive_query_params("struct Foo { a: i32, b: Option<u8>, c: Vec<u8> }").unwrap();
    assert_eq!(code, generate_method(&decl("Foo", &[("a", "i32"), ("b", "Option"), ("c", "Vec")])));
}

use vstd::prelude::*;

use crate::shape::{Shape, classify, shape_of};

verus! {

/// A field as declared: its name and the outer name of its type.
pub struct FieldDecl {
    pub name: String,
    pub outer_type: String,
}

/// A record as declared: its name, the three parts of its generics as they
/// stand in an `impl` header, and its named fields in declaration order.
pub struct RecordDecl {
    pub name: String,
    pub impl_generics: String,
    pub type_generics: String,
    pub where_clause: String,
    pub fields: Vec<FieldDecl>,
}

/// The statement that writes `name=...&` with `value` as the shown expression.
pub open spec fn push_code(name: Seq<char>, value: Seq<char>) -> Seq<char> {
    "buf.push_str(format!(\""@ + name + "={}&\", "@ + value + ").as_str());\n"@
}

/// The statements that render the field `name` whose type has the outer
/// name `outer`, by its shape.
pub open spec fn field_code(name: Seq<char>, outer: Seq<char>) -> Seq<char> {
    match shape_of(outer) {
        Shape::Scalar => "        "@ + push_code(name, "self."@ + name),
        Shape::Optional => "        if let Some(v) = self."@ + name + ".as_ref() {\n            "@
            + push_code(name, "v"@) + "        }\n"@,
        Shape::List => "        "@ + push_code(
            name,
            "self."@ + name + ".iter().map(|v| v.to_string()).collect::<Vec<String>>().join(\",\")"@,
        ),
    }
}

/// The statements of all fields, each a name and its type's outer name, in
/// declaration order.
pub open spec fn fields_code(fs: Seq<(Seq<char>, Seq<char>)>) -> Seq<char>
    decreases fs.len(),
{
    if fs.len() == 0 {
        Seq::empty()
    } else {
        fields_code(fs.drop_last()) + field_code(fs.last().0, fs.last().1)
    }
}

/// Each field declaration as its name and its type's outer name.
pub open spec fn decl_pairs(ds: Seq<FieldDecl>) -> Seq<(Seq<char>, Seq<char>)> {
    ds.map_values(|d: FieldDecl| (d.name@, d.outer_type@))
}

/// The method's opening: the `impl` header for the type `name` with its
/// impl generics, type generics and where clause, and the buffer holding `?`.
pub open spec fn method_head(
    name: Seq<char>,
    impl_generics: Seq<char>,
    type_generics: Seq<char>,
    where_clause: Seq<char>,
) -> Seq<char> {
    "impl"@ + impl_generics + " "@ + name + type_generics + " "@ + where_clause
        + " {\n    fn to_query_params(&self) -> String {\n        let mut buf = String::from(\"?\");\n"@
}

/// The method's closing: the empty text when nothing was written, else the
/// buffer without its last `&`.
pub open spec fn method_tail() -> Seq<char> {
    "        if buf.len() == 1 {\n            return String::new();\n        }\n        buf.truncate(buf.len() - 1);\n        buf\n    }\n}\n"@
}

/// The source of the `to_query_params` method of the type `name`, with the
/// given generics and fields.
pub open spec fn method_source(
    name: Seq<char>,
    impl_generics: Seq<char>,
    type_generics: Seq<char>,
    where_clause: Seq<char>,
    fs: Seq<(Seq<char>, Seq<char>)>,
) -> Seq<char> {
    method_head(name, impl_generics, type_generics, where_clause) + fields_code(fs) + method_tail()
}

/// The source of the `to_query_params` method of a record.
pub open spec fn method_text(d: RecordDecl) -> Seq<char> {
    method_source(
        d.name@,
        d.impl_generics@,
        d.type_generics@,
        d.where_clause@,
        decl_pairs(d.fields@),
    )
}

fn push_code_into(out: &mut String, name: &String, value: &str)
    ensures
        final(out)@ == old(out)@ + push_code(name@, value@),
{
    out.append("buf.push_str(format!(\"");
    out.append(name.as_str());
    out.append("={}&\", ");
    out.append(value);
    out.append(").as_str());\n");
}

/// Appends the statements that render `f`.
pub fn field_code_into(out: &mut String, f: &FieldDecl)
    ensures
        final(out)@ == old(out)@ + field_code(f.name@, f.outer_type@),
{
    let ghost start = out@;
    let n = &f.name;
    match classify(&f.outer_type) {
        Shape::Scalar => {
            out.append("        ");
            let mut v = String::from_str("self.");
            v.append(n.as_str());
            push_code_into(out, n, v.as_str());
        },
        Shape::Optional => {
            out.append("        if let Some(v) = self.");
            out.append(n.as_str());
            out.append(".as_ref() {\n            ");
            push_code_into(out, n, "v");
            out.append("        }\n");
        },
        Shape::List => {
            out.append("        ");
            let mut v = String::from_str("self.");
            v.append(n.as_str());
            v.append(".iter().map(|v| v.to_string()).collect::<Vec<String>>().join(\",\")");
            push_code_into(out, n, v.as_str());
        },
    }
    assert(out@ =~= start + field_code(f.name@, f.outer_type@));
}

/// The source of the `to_query_params` method of the record `d`.
pub fn generate_method(d: &RecordDecl) -> (r: String)
    ensures
        r@ == method_text(*d),
{
    let mut out = String::from_str("impl");
    out.append(d.impl_generics.as_str());
    out.append(" ");
    out.append(d.name.as_str());
    out.append(d.type_generics.as_str());
    out.append(" ");
    out.append(d.where_clause.as_str());
    out.append(" {\n    fn to_query_params(&self) -> String {\n        let mut buf = String::from(\"?\");\n");
    let ghost head = method_head(d.name@, d.impl_generics@, d.type_generics@, d.where_clause@);
    assert(out@ =~= head);
    let fs = &d.fields;
    let mut i: usize = 0;
    while i < fs.len()
        invariant
            i <= fs.len(),
            out@ == head + fields_code(decl_pairs(fs@.take(i as int))),
        decreases fs.len() - i,
    {
        let ghost before = out@;
        field_code_into(&mut out, &fs[i]);
        proof {
            assert(decl_pairs(fs@.take(i as int + 1)).drop_last() =~= decl_pairs(
                fs@.take(i as int),
            ));
            assert(out@ =~= head + fields_code(decl_pairs(fs@.take(i as int + 1))));
        }
        i = i + 1;
    }
    assert(fs@.take(fs.len() as int) =~= fs@);
    out.append("        if buf.len() == 1 {\n            return String::new();\n        }\n        buf.truncate(buf.len() - 1);\n        buf\n    }\n}\n");
    assert(out@ =~= method_text(*d));
    out
}

} // verus!

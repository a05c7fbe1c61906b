use vstd::prelude::*;

use crate::text::{decimal_text, digits, join, signed_decimal_text, signed_digits};

verus! {

/// One value of a field: rendered with its default text.
pub enum Value {
    Bool(bool),
    Int(i64),
    UInt(u64),
    Text(String),
}

/// What a field holds, by the shape of its declared type.
pub enum FieldValue {
    /// A plain value: always rendered.
    Scalar(Value),
    /// An optional value: rendered only when present.
    Optional(Option<Value>),
    /// A list of values: rendered as their texts joined by commas.
    List(Vec<Value>),
}

/// A named field of a record; the name is the query key, used verbatim.
pub struct RecordField {
    pub name: String,
    pub value: FieldValue,
}

/// A record: its fields in declaration order.
pub struct Record {
    pub fields: Vec<RecordField>,
}

/// The default text of a value: `true`/`false`, decimal integers, text verbatim.
pub open spec fn value_text(v: Value) -> Seq<char> {
    match v {
        Value::Bool(b) => if b {
            "true"@
        } else {
            "false"@
        },
        Value::Int(n) => signed_digits(n as int),
        Value::UInt(n) => digits(n as nat),
        Value::Text(s) => s@,
    }
}

/// The texts of a list's values, in order.
pub open spec fn value_texts(vs: Seq<Value>) -> Seq<Seq<char>> {
    vs.map_values(|v: Value| value_text(v))
}

/// `name=value` for a field's rendered value.
pub open spec fn pair_text(name: Seq<char>, value: Seq<char>) -> Seq<char> {
    name + "="@ + value
}

/// The query segment of a field, or `None` for an absent optional value.
pub open spec fn segment(f: RecordField) -> Option<Seq<char>> {
    match f.value {
        FieldValue::Scalar(v) => Some(pair_text(f.name@, value_text(v))),
        FieldValue::Optional(o) => match o {
            Some(v) => Some(pair_text(f.name@, value_text(v))),
            None => None,
        },
        FieldValue::List(vs) => Some(pair_text(f.name@, join(value_texts(vs@), ","@))),
    }
}

/// The segment of each field, in declaration order.
pub open spec fn segments(fs: Seq<RecordField>) -> Seq<Option<Seq<char>>> {
    fs.map_values(|f: RecordField| segment(f))
}

/// The segments that are there, in order.
pub open spec fn present(s: Seq<Option<Seq<char>>>) -> Seq<Seq<char>>
    decreases s.len(),
{
    if s.len() == 0 {
        Seq::empty()
    } else {
        match s.last() {
            Some(t) => present(s.drop_last()).push(t),
            None => present(s.drop_last()),
        }
    }
}

/// The query text of a record's fields: `?` and the present segments joined
/// by `&`; the empty text when no segment is present.
pub open spec fn query_text(fs: Seq<RecordField>) -> Seq<char> {
    let p = present(segments(fs));
    if p.len() == 0 {
        Seq::empty()
    } else {
        "?"@ + join(p, "&"@)
    }
}

/// Appends `tail` to the text `sep`-joined so far, given whether that was empty.
fn append_joined(acc: &mut String, any: bool, sep: &str, tail: &str)
    ensures
        final(acc)@ == if any {
            old(acc)@ + sep@ + tail@
        } else {
            old(acc)@ + tail@
        },
{
    if any {
        acc.append(sep);
    }
    acc.append(tail);
}

proof fn lemma_join_push(parts: Seq<Seq<char>>, sep: Seq<char>, t: Seq<char>)
    ensures
        join(parts.push(t), sep) == if parts.len() == 0 {
            t
        } else {
            join(parts, sep) + sep + t
        },
{
    assert(parts.push(t).drop_last() =~= parts);
}

impl Value {
    /// The default text of the value.
    pub fn text(&self) -> (r: String)
        ensures
            r@ == value_text(*self),
    {
        match self {
            Value::Bool(b) => if *b {
                String::from_str("true")
            } else {
                String::from_str("false")
            },
            Value::Int(n) => signed_decimal_text(*n),
            Value::UInt(n) => decimal_text(*n),
            Value::Text(s) => s.clone(),
        }
    }
}

/// The texts of `vs` joined by commas, with no comma after the last.
pub fn list_text(vs: &Vec<Value>) -> (r: String)
    ensures
        r@ == join(value_texts(vs@), ","@),
{
    let mut out = String::new();
    let mut i: usize = 0;
    while i < vs.len()
        invariant
            i <= vs.len(),
            out@ == join(value_texts(vs@.take(i as int)), ","@),
        decreases vs.len() - i,
    {
        let t = vs[i].text();
        proof {
            lemma_join_push(value_texts(vs@.take(i as int)), ","@, t@);
            assert(value_texts(vs@.take(i as int + 1)) =~= value_texts(vs@.take(i as int)).push(t@));
        }
        append_joined(&mut out, i > 0, ",", t.as_str());
        i = i + 1;
    }
    assert(vs@.take(vs.len() as int) =~= vs@);
    out
}

impl RecordField {
    /// A field holding a plain value.
    pub fn scalar(name: &str, v: Value) -> (r: RecordField)
        ensures
            r.name@ == name@,
            r.value == FieldValue::Scalar(v),
    {
        RecordField { name: String::from_str(name), value: FieldValue::Scalar(v) }
    }

    /// A field holding an optional value.
    pub fn optional(name: &str, v: Option<Value>) -> (r: RecordField)
        ensures
            r.name@ == name@,
            r.value == FieldValue::Optional(v),
    {
        RecordField { name: String::from_str(name), value: FieldValue::Optional(v) }
    }

    /// A field holding a list of values.
    pub fn list(name: &str, vs: Vec<Value>) -> (r: RecordField)
        ensures
            r.name@ == name@,
            r.value == FieldValue::List(vs),
    {
        RecordField { name: String::from_str(name), value: FieldValue::List(vs) }
    }

    /// The field's query segment `name=value`, or `None` for an absent optional value.
    pub fn segment_text(&self) -> (r: Option<String>)
        ensures
            r matches Some(s) ==> segment(*self) == Some(s@),
            r is None ==> segment(*self) is None,
    {
        let v = match &self.value {
            FieldValue::Scalar(v) => v.text(),
            FieldValue::Optional(o) => match o {
                Some(v) => v.text(),
                None => {
                    return None;
                },
            },
            FieldValue::List(vs) => list_text(vs),
        };
        let mut s = self.name.clone();
        s.append("=");
        s.append(v.as_str());
        Some(s)
    }
}

impl Record {
    /// A record of the given fields, in declaration order.
    pub fn new(fields: Vec<RecordField>) -> (r: Record)
        ensures
            r.fields == fields,
    {
        Record { fields }
    }

    /// The record as query text: `?` followed by `name=value` for each field
    /// that has a value, in declaration order, joined by `&`; the empty text
    /// when no field has one.
    pub fn to_query_params(&self) -> (r: String)
        ensures
            r@ == query_text(self.fields@),
    {
        let fs = &self.fields;
        let mut body = String::new();
        let mut any = false;
        let mut i: usize = 0;
        while i < fs.len()
            invariant
                i <= fs.len(),
                body@ == join(present(segments(fs@.take(i as int))), "&"@),
                any == (present(segments(fs@.take(i as int))).len() > 0),
            decreases fs.len() - i,
        {
            let ghost before = segments(fs@.take(i as int));
            assert(segments(fs@.take(i as int + 1)).drop_last() =~= before);
            assert(segments(fs@.take(i as int + 1)).last() == segment(fs@[i as int]));
            match fs[i].segment_text() {
                Some(t) => {
                    proof {
                        lemma_join_push(present(before), "&"@, t@);
                    }
                    append_joined(&mut body, any, "&", t.as_str());
                    any = true;
                },
                None => {},
            }
            i = i + 1;
        }
        assert(fs@.take(fs.len() as int) =~= fs@);
        if any {
            let mut r = String::from_str("?");
            r.append(body.as_str());
            r
        } else {
            String::new()
        }
    }
}

} // verus!

use vstd::prelude::*;

use quote::ToTokens;

use crate::generate::{FieldDecl, RecordDecl, decl_pairs, generate_method, method_source, method_text};

verus! {

/// A declaration shape that has no named fields to render.
#[derive(Clone, Copy, Debug, PartialEq, Eq, Structural)]
pub enum RecordKind {
    Tuple,
    Unit,
    Enum,
}

/// Why no method could be generated for a declaration.
#[derive(Debug)]
pub enum GenerationError {
    /// The text is not a struct or enum declaration; holds the parser's message.
    InvalidInput(String),
    /// The declaration is not a struct with named fields.
    UnsupportedRecordShape(RecordKind),
    /// The type of a field is not a path whose outer name can be read; holds
    /// the record's name and the field's.
    UnresolvableFieldType(String, String),
    /// The generated method for the named record is not a well-formed item.
    CompositionFailure(String),
}

/// A generation failure, with texts as character sequences.
pub enum Failure {
    InvalidInput(Seq<char>),
    UnsupportedRecordShape(RecordKind),
    UnresolvableFieldType(Seq<char>, Seq<char>),
    CompositionFailure(Seq<char>),
}

impl View for GenerationError {
    type V = Failure;

    open spec fn view(&self) -> Failure {
        match self {
            GenerationError::InvalidInput(m) => Failure::InvalidInput(m@),
            GenerationError::UnsupportedRecordShape(k) => Failure::UnsupportedRecordShape(*k),
            GenerationError::UnresolvableFieldType(r, n) => Failure::UnresolvableFieldType(r@, n@),
            GenerationError::CompositionFailure(n) => Failure::CompositionFailure(n@),
        }
    }
}

/// A generation result, with texts as character sequences.
pub open spec fn result_view(r: Result<String, GenerationError>) -> Result<Seq<char>, Failure> {
    match r {
        Ok(code) => Ok(code@),
        Err(e) => Err(e@),
    }
}

/// A field as written: its name, and the last segment of its type when the
/// type is a path.
pub struct FieldSyntax {
    pub name: String,
    pub outer_type: Option<String>,
}

/// An optional text as an optional character sequence.
pub open spec fn opt_view(o: Option<String>) -> Option<Seq<char>> {
    match o {
        Some(s) => Some(s@),
        None => None,
    }
}

/// Each written field as its name and its type's outer name, if any.
pub open spec fn syntax_view(fs: Seq<FieldSyntax>) -> Seq<(Seq<char>, Option<Seq<char>>)> {
    fs.map_values(|f: FieldSyntax| (f.name@, opt_view(f.outer_type)))
}

/// Whether a text parses as one Rust item.
pub uninterp spec fn is_item_text(s: Seq<char>) -> bool;

/// Whether a text parses as a struct or enum declaration.
pub uninterp spec fn declaration_parses(text: Seq<char>) -> bool;

/// The parser's message for a text that is no declaration.
pub uninterp spec fn parse_failure(text: Seq<char>) -> Seq<char>;

/// A declaration's name, impl generics, type generics and where clause.
pub uninterp spec fn declared_header(text: Seq<char>) -> (Seq<char>, Seq<char>, Seq<char>, Seq<char>);

/// The shape of a declaration that has no named fields; `None` for a struct
/// with named fields.
pub uninterp spec fn declared_kind(text: Seq<char>) -> Option<RecordKind>;

/// The named fields of a struct declaration, in order: each field's name and
/// the last segment of its type when the type is a path.
pub uninterp spec fn declared_fields(text: Seq<char>) -> Seq<(Seq<char>, Option<Seq<char>>)>;

/// Relies on syn::parse_item: tells whether the text is one whole Rust item.
#[verifier::external_body]
fn parses_as_item(text: &str) -> (r: bool)
    ensures
        r == is_item_text(text@),
{
    syn::parse_item(text).is_ok()
}

/// Relies on syn::parse_derive_input: whether the text is a struct or enum
/// declaration, and the parser's message when it is not.
#[verifier::external_body]
fn check_declaration(text: &str) -> (r: Result<(), String>)
    ensures
        r is Ok <==> declaration_parses(text@),
        r matches Err(m) ==> m@ == parse_failure(text@),
{
    syn::parse_derive_input(text).map(|_| ())
}

/// Relies on syn::parse_derive_input, syn::Generics::split_for_impl and
/// quote::ToTokens: the declaration's name and its generics as source text.
#[verifier::external_body]
fn header_of(text: &str) -> (r: Option<(String, String, String, String)>)
    ensures
        r is Some <==> declaration_parses(text@),
        r matches Some(h) ==> (h.0@, h.1@, h.2@, h.3@) == declared_header(text@),
{
    let input = syn::parse_derive_input(text).ok()?;
    let (impl_generics, type_generics, where_clause) = input.generics.split_for_impl();
    let (mut a, mut b, mut c) = (quote::Tokens::new(), quote::Tokens::new(), quote::Tokens::new());
    impl_generics.to_tokens(&mut a);
    type_generics.to_tokens(&mut b);
    where_clause.to_tokens(&mut c);
    Some((input.ident.to_string(), a.as_str().to_string(), b.as_str().to_string(), c.as_str().to_string()))
}

/// Relies on syn::parse_derive_input with syn's `Body` and `VariantData`: the
/// number of named fields of a struct, or which other shape the declaration has.
#[verifier::external_body]
fn body_of(text: &str) -> (r: Option<Result<usize, RecordKind>>)
    ensures
        r is Some <==> declaration_parses(text@),
        r matches Some(Ok(n)) ==> declared_kind(text@) is None && n == declared_fields(text@).len(),
        r matches Some(Err(k)) ==> declared_kind(text@) == Some(k),
{
    let input = syn::parse_derive_input(text).ok()?;
    Some(match input.body {
        syn::Body::Struct(syn::VariantData::Struct(ref fs)) => Ok(fs.len()),
        syn::Body::Struct(syn::VariantData::Tuple(_)) => Err(RecordKind::Tuple),
        syn::Body::Struct(syn::VariantData::Unit) => Err(RecordKind::Unit),
        syn::Body::Enum(_) => Err(RecordKind::Enum),
    })
}

/// Relies on syn::parse_derive_input with syn's `Field` and `Ty::Path`: the
/// name of the struct's field `i` (syn names every field of a struct with
/// named fields), and the last segment of its type when that is a path.
#[verifier::external_body]
fn field_of(text: &str, i: usize) -> (r: Option<FieldSyntax>)
    ensures
        declaration_parses(text@) && declared_kind(text@) is None && i
            < declared_fields(text@).len() ==> r is Some,
        r matches Some(f) ==> declaration_parses(text@) && declared_kind(text@) is None && i
            < declared_fields(text@).len() && (f.name@, opt_view(f.outer_type))
            == declared_fields(text@)[i as int],
{
    let input = syn::parse_derive_input(text).ok()?;
    let f = match input.body {
        syn::Body::Struct(syn::VariantData::Struct(ref fs)) => fs.get(i)?.clone(),
        _ => return None,
    };
    let outer_type = match f.ty {
        syn::Ty::Path(_, ref path) => path.segments.last().map(|s| s.ident.to_string()),
        _ => None,
    };
    Some(FieldSyntax { name: f.ident.map(|n| n.to_string()).unwrap_or_default(), outer_type })
}

/// The fields before `n` all have a readable type.
pub open spec fn resolvable_upto(fs: Seq<(Seq<char>, Option<Seq<char>>)>, n: int) -> bool {
    forall|i: int| 0 <= i < n ==> (#[trigger] fs[i]).1 is Some
}

/// Field `k` is the first whose type has no readable outer name.
pub open spec fn is_first_unresolvable(fs: Seq<(Seq<char>, Option<Seq<char>>)>, k: int) -> bool {
    &&& 0 <= k < fs.len()
    &&& fs[k].1 is None
    &&& resolvable_upto(fs, k)
}

/// Each field as its name and its type's outer name.
pub open spec fn resolved(fs: Seq<(Seq<char>, Option<Seq<char>>)>) -> Seq<(Seq<char>, Seq<char>)> {
    fs.map_values(
        |p: (Seq<char>, Option<Seq<char>>)|
            (
                p.0,
                match p.1 {
                    Some(t) => t,
                    None => Seq::empty(),
                },
            ),
    )
}

/// The fields of `record` with their types' outer names, or the failure that
/// names the first field whose type has none.
pub open spec fn resolution(record: Seq<char>, fs: Seq<(Seq<char>, Option<Seq<char>>)>) -> Result<
    Seq<(Seq<char>, Seq<char>)>,
    Failure,
> {
    if resolvable_upto(fs, fs.len() as int) {
        Ok(resolved(fs))
    } else {
        let k = choose|k: int| is_first_unresolvable(fs, k);
        Err(Failure::UnresolvableFieldType(record, fs[k].0))
    }
}

/// The generated source when it is one item, else the failure naming the record.
pub open spec fn composed(name: Seq<char>, code: Seq<char>) -> Result<Seq<char>, Failure> {
    if is_item_text(code) {
        Ok(code)
    } else {
        Err(Failure::CompositionFailure(name))
    }
}

/// What generation gives for the declaration text `text`.
pub open spec fn derived(text: Seq<char>) -> Result<Seq<char>, Failure> {
    if !declaration_parses(text) {
        Err(Failure::InvalidInput(parse_failure(text)))
    } else if let Some(k) = declared_kind(text) {
        Err(Failure::UnsupportedRecordShape(k))
    } else {
        let h = declared_header(text);
        match resolution(h.0, declared_fields(text)) {
            Err(e) => Err(e),
            Ok(fs) => composed(h.0, method_source(h.0, h.1, h.2, h.3, fs)),
        }
    }
}

proof fn lemma_first_unresolvable_unique(fs: Seq<(Seq<char>, Option<Seq<char>>)>, k: int, j: int)
    requires
        is_first_unresolvable(fs, k),
        is_first_unresolvable(fs, j),
    ensures
        k == j,
{
    if k < j {
        assert(fs[k].1 is Some);
    } else if j < k {
        assert(fs[j].1 is Some);
    }
}

/// The declarations of `record`'s fields when every type has an outer name;
/// else the failure that names the record and the first field whose type has none.
pub fn resolve_fields(record: &String, fs: &Vec<FieldSyntax>) -> (r: Result<Vec<FieldDecl>, GenerationError>)
    ensures
        r matches Ok(ds) ==> resolution(record@, syntax_view(fs@)) == Ok::<
            Seq<(Seq<char>, Seq<char>)>,
            Failure,
        >(decl_pairs(ds@)),
        r matches Err(e) ==> resolution(record@, syntax_view(fs@)) == Err::<
            Seq<(Seq<char>, Seq<char>)>,
            Failure,
        >(e@),
{
    let ghost v = syntax_view(fs@);
    let mut ds: Vec<FieldDecl> = Vec::new();
    let mut i: usize = 0;
    while i < fs.len()
        invariant
            i <= fs.len(),
            v == syntax_view(fs@),
            resolvable_upto(v, i as int),
            decl_pairs(ds@) == resolved(v.take(i as int)),
        decreases fs.len() - i,
    {
        let ghost before = ds@;
        match &fs[i].outer_type {
            Some(t) => {
                ds.push(FieldDecl { name: fs[i].name.clone(), outer_type: t.clone() });
                proof {
                    assert(decl_pairs(ds@) =~= decl_pairs(before).push(decl_pairs(ds@).last()));
                    assert(resolved(v.take(i as int + 1)) =~= resolved(v.take(i as int)).push(
                        resolved(v.take(i as int + 1)).last(),
                    ));
                }
            },
            None => {
                proof {
                    assert(is_first_unresolvable(v, i as int));
                    assert(!resolvable_upto(v, v.len() as int));
                    let k = choose|k: int| is_first_unresolvable(v, k);
                    lemma_first_unresolvable_unique(v, k, i as int);
                }
                return Err(GenerationError::UnresolvableFieldType(record.clone(), fs[i].name.clone()));
            },
        }
        i = i + 1;
    }
    assert(v.take(fs.len() as int) =~= v);
    Ok(ds)
}

/// The generated method when it is a well-formed item, else the failure
/// that names the record.
pub fn accept_method(record: &String, code: String, is_item: bool) -> (r: Result<
    String,
    GenerationError,
>)
    ensures
        is_item ==> r == Ok::<String, GenerationError>(code),
        !is_item ==> (r matches Err(GenerationError::CompositionFailure(n)) && n@ == record@),
{
    if is_item {
        Ok(code)
    } else {
        Err(GenerationError::CompositionFailure(record.clone()))
    }
}

/// The source of `d`'s `to_query_params` method, checked to be one item.
pub fn compose(d: &RecordDecl) -> (r: Result<String, GenerationError>)
    ensures
        result_view(r) == composed(d.name@, method_text(*d)),
{
    let code = generate_method(d);
    let is_item = parses_as_item(code.as_str());
    accept_method(&d.name, code, is_item)
}

/// Generates the `to_query_params` method for the struct declared in `input`:
/// an `impl` of the declared type with its own generics and where clause,
/// holding one `fn to_query_params(&self) -> String` that renders each named
/// field by the outer name of its type.
pub fn derive_query_params(input: &str) -> (r: Result<String, GenerationError>)
    ensures
        result_view(r) == derived(input@),
{
    match check_declaration(input) {
        Ok(()) => {},
        Err(message) => {
            return Err(GenerationError::InvalidInput(message));
        },
    }
    let n = match body_of(input) {
        Some(Ok(n)) => n,
        Some(Err(kind)) => {
            return Err(GenerationError::UnsupportedRecordShape(kind));
        },
        None => {
            return Err(GenerationError::InvalidInput(String::new()));
        },
    };
    let (name, impl_generics, type_generics, where_clause) = match header_of(input) {
        Some(h) => h,
        None => {
            return Err(GenerationError::InvalidInput(String::new()));
        },
    };
    let ghost fields = declared_fields(input@);
    let mut syntax: Vec<FieldSyntax> = Vec::new();
    let mut i: usize = 0;
    while i < n
        invariant
            i <= n,
            fields == declared_fields(input@),
            n == fields.len(),
            declaration_parses(input@),
            declared_kind(input@) is None,
            syntax_view(syntax@) == fields.take(i as int),
        decreases n - i,
    {
        let f = match field_of(input, i) {
            Some(f) => f,
            None => {
                return Err(GenerationError::InvalidInput(String::new()));
            },
        };
        let ghost before = syntax@;
        syntax.push(f);
        assert(syntax_view(syntax@) =~= syntax_view(before).push(syntax_view(syntax@).last()));
        assert(fields.take(i as int + 1) =~= fields.take(i as int).push(fields[i as int]));
        i = i + 1;
    }
    assert(fields.take(n as int) =~= fields);
    let decls = resolve_fields(&name, &syntax)?;
    let d = RecordDecl { name, impl_generics, type_generics, where_clause, fields: decls };
    compose(&d)
}

/// The name of a declaration shape, as a diagnostic shows it.
pub open spec fn kind_text(k: RecordKind) -> Seq<char> {
    match k {
        RecordKind::Tuple => "tuple"@,
        RecordKind::Unit => "unit"@,
        RecordKind::Enum => "enum"@,
    }
}

/// The diagnostic for a generation failure.
pub open spec fn error_message(e: GenerationError) -> Seq<char> {
    match e {
        GenerationError::InvalidInput(m) => "#[derive(QueryParams)] cannot parse the declaration: "@
            + m@,
        GenerationError::UnsupportedRecordShape(k) =>
            "#[derive(QueryParams)] is only defined for structs, not "@ + kind_text(k),
        GenerationError::UnresolvableFieldType(r, n) =>
            "#[derive(QueryParams)] cannot read the type of field "@ + n@ + " of "@ + r@,
        GenerationError::CompositionFailure(n) =>
            "An error occurred when parsing the tokens generated for "@ + n@ + " struct"@,
    }
}

impl GenerationError {
    /// The diagnostic that names the unsupported shape, field or record.
    pub fn message(&self) -> (r: String)
        ensures
            r@ == error_message(*self),
    {
        match self {
            GenerationError::InvalidInput(m) => {
                let mut s = String::from_str("#[derive(QueryParams)] cannot parse the declaration: ");
                s.append(m.as_str());
                s
            },
            GenerationError::UnsupportedRecordShape(k) => {
                let mut s = String::from_str("#[derive(QueryParams)] is only defined for structs, not ");
                match k {
                    RecordKind::Tuple => s.append("tuple"),
                    RecordKind::Unit => s.append("unit"),
                    RecordKind::Enum => s.append("enum"),
                }
                s
            },
            GenerationError::UnresolvableFieldType(r, n) => {
                let mut s = String::from_str("#[derive(QueryParams)] cannot read the type of field ");
                s.append(n.as_str());
                s.append(" of ");
                s.append(r.as_str());
                s
            },
            GenerationError::CompositionFailure(n) => {
                let mut s = String::from_str("An error occurred when parsing the tokens generated for ");
                s.append(n.as_str());
                s.append(" struct");
                s
            },
        }
    }
}

} // verus!

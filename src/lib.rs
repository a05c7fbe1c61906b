//! Rendering of records as HTTP query strings (`?key=value&key2=value2`).
//!
//! A record is an ordered list of named fields. Each field is a plain value,
//! an optional value or a list of values; its declared type decides which.
//! The library renders a record's values to query text, and generates the
//! source of a `to_query_params` method from a record's declaration.

pub mod generate;
pub mod laws;
pub mod record;
pub mod shape;
pub mod syntax;
pub mod text;

pub use record::{RecordField, FieldValue, Record, Value, list_text};
pub use text::{decimal_text, signed_decimal_text};
pub use generate::{FieldDecl, RecordDecl, field_code_into, generate_method};
pub use shape::{Shape, classify};
pub use syntax::{
    Failure, FieldSyntax, GenerationError, RecordKind, accept_method, compose, derive_query_params,
    resolve_fields,
};

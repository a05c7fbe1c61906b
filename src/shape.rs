use vstd::prelude::*;

verus! {

/// How a field is rendered, by the outer name of its declared type.
#[derive(Clone, Copy, Debug, PartialEq, Eq, Structural)]
pub enum Shape {
    Scalar,
    Optional,
    List,
}

/// `Vec` is a list, `Option` an optional value, any other name a plain value.
pub open spec fn shape_of(outer_type: Seq<char>) -> Shape {
    if outer_type == "Vec"@ {
        Shape::List
    } else if outer_type == "Option"@ {
        Shape::Optional
    } else {
        Shape::Scalar
    }
}

/// The shape of a field whose declared type has the outer name `outer_type`.
pub fn classify(outer_type: &String) -> (r: Shape)
    ensures
        r == shape_of(outer_type@),
{
    if *outer_type == String::from_str("Vec") {
        Shape::List
    } else if *outer_type == String::from_str("Option") {
        Shape::Optional
    } else {
        Shape::Scalar
    }
}

} // verus!

//! The closed set of failures that a decode can end in.
use vstd::prelude::*;

use crate::tsnode::Span;

verus! {

#[verifier::external_type_specification]
#[verifier::external_body]
pub struct ExParseIntError(std::num::ParseIntError);

#[verifier::external_type_specification]
#[verifier::external_body]
pub struct ExParseFloatError(std::num::ParseFloatError);

#[verifier::external_type_specification]
#[verifier::external_body]
pub struct ExParseBoolError(std::str::ParseBoolError);

/// A decode failure. Every component fails on the first error and hands it
/// to its caller unchanged.
#[derive(Debug, PartialEq, Eq)]
pub enum DeserializeError {
    /// Wrong number of named children for a tuple, an option or a newtype member.
    ChildCount { expected: usize, actual: usize },
    /// Wrong number of children tagged with a struct's field name.
    FieldLength { field_name: String, expected: usize, actual: usize },
    /// The node's kind is not the name that a struct asks for.
    NodeType { expected: String, actual: String },
    /// Kept for callers that reject tuple structs of their own accord.
    TupleStructNotSupported,
    /// The requested shape has no mapping onto a node.
    DataTypeNotSupported(String),
    /// The node's text is not an integer of the requested width.
    ParseIntError(std::num::ParseIntError),
    /// The node's text is not a floating-point number.
    ParseFloatError(std::num::ParseFloatError),
    /// The node's text is neither `true` nor `false`.
    ParseBoolError(std::str::ParseBoolError),
    /// The tree holds error nodes; their spans, in depth-first order.
    TreeSitterError(Vec<Span>),
    /// A message of the caller's own.
    Custom(String),
}

/// What an error says, as plain values.
pub enum ErrorView {
    ChildCount { expected: nat, actual: nat },
    FieldLength { field_name: Seq<char>, expected: nat, actual: nat },
    NodeType { expected: Seq<char>, actual: Seq<char> },
    TupleStructNotSupported,
    DataTypeNotSupported(Seq<char>),
    ParseInt,
    ParseFloat,
    ParseBool,
    TreeSitter(Seq<Span>),
    Custom(Seq<char>),
}

impl View for DeserializeError {
    type V = ErrorView;

    open spec fn view(&self) -> ErrorView {
        match self {
            DeserializeError::ChildCount { expected, actual } => ErrorView::ChildCount {
                expected: *expected as nat,
                actual: *actual as nat,
            },
            DeserializeError::FieldLength { field_name, expected, actual } => ErrorView::FieldLength {
                field_name: field_name@,
                expected: *expected as nat,
                actual: *actual as nat,
            },
            DeserializeError::NodeType { expected, actual } => ErrorView::NodeType {
                expected: expected@,
                actual: actual@,
            },
            DeserializeError::TupleStructNotSupported => ErrorView::TupleStructNotSupported,
            DeserializeError::DataTypeNotSupported(m) => ErrorView::DataTypeNotSupported(m@),
            DeserializeError::ParseIntError(_) => ErrorView::ParseInt,
            DeserializeError::ParseFloatError(_) => ErrorView::ParseFloat,
            DeserializeError::ParseBoolError(_) => ErrorView::ParseBool,
            DeserializeError::TreeSitterError(spans) => ErrorView::TreeSitter(spans@),
            DeserializeError::Custom(m) => ErrorView::Custom(m@),
        }
    }
}

impl DeserializeError {
    /// The node's kind `actual` is not the expected name.
    pub fn node_type(expected: &str, actual: &str) -> (r: DeserializeError)
        ensures
            r@ == (ErrorView::NodeType { expected: expected@, actual: actual@ }),
    {
        DeserializeError::NodeType { expected: expected.to_owned(), actual: actual.to_owned() }
    }

    /// `actual` named children where `expected` were needed.
    pub fn child_count(expected: usize, actual: usize) -> (r: DeserializeError)
        ensures
            r@ == (ErrorView::ChildCount { expected: expected as nat, actual: actual as nat }),
    {
        DeserializeError::ChildCount { expected, actual }
    }

    /// `actual` children tagged `field_name` where `expected` were needed.
    pub fn field_length(field_name: &str, expected: usize, actual: usize) -> (r: DeserializeError)
        ensures
            r@ == (ErrorView::FieldLength {
                field_name: field_name@,
                expected: expected as nat,
                actual: actual as nat,
            }),
    {
        DeserializeError::FieldLength { field_name: field_name.to_owned(), expected, actual }
    }
}

} // verus!

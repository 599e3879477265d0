//! Decoding of concrete syntax trees into typed values.
//!
//! A tree is handed over as a [`SyntaxNode`]; the caller says what it wants
//! with a [`Shape`], and the engine walks the node's children by fixed rules
//! and returns a [`Value`] or a [`DeserializeError`].
//!
//! # Mapping rules
//!
//! * Atoms (`bool`, integers, strings, bytes, `()`) read the node's text.
//! * `Sequence(e)` decodes every named child with `e`.
//! * `Optional(e)` matches zero or one named child.
//! * `Tuple(e1, .., en)` matches exactly `n` named children.
//! * Unit, newtype, tuple structs and structs first check the node's kind.
//! * A struct resolves each field against the children tagged with its name.
//! * An enum takes the node's kind as the variant name.
//! * The member of a newtype struct shares the node with its wrapper:
//!   atoms read the node itself, sequences, options and tuples read its named
//!   children, and structs and enums read its single named child.
//! * A field of a struct whose shape is a tuple, a sequence or an option
//!   reads the tagged children directly; any other shape needs exactly one.
use vstd::prelude::*;

pub mod access;
pub mod atom;
pub mod deserializer;
pub mod error;
pub mod laws;
pub mod semantics;
pub mod shape;
pub mod tsnode;

pub use access::{EnumAccess, FieldsAsSeqAccess, SeqAccess, VariantAccess};
pub use deserializer::{FieldDeserializer, NewtypeStructDeserializer, NodeDeserializer};
pub use error::DeserializeError;
pub use shape::{AtomKind, IntKind, Shape, Value, VariantShape};
pub use tsnode::{Span, SyntaxNode};

use crate::error::ErrorView;
use crate::semantics::{decode, result_view};
use crate::tsnode::{collect_errors, error_spans};

verus! {

/// Refuses a tree that holds error nodes, with the spans of all of them.
pub fn check_errors(node: &SyntaxNode) -> (r: Result<(), DeserializeError>)
    ensures
        node.has_error <==> r is Err,
        r matches Err(e) ==> e@ == ErrorView::TreeSitter(error_spans(*node)),
{
    if node.has_error {
        return Err(DeserializeError::TreeSitterError(collect_errors(node)));
    }
    Ok(())
}

/// Decodes `node` as `shape`.
///
/// With `check_error`, a tree that holds error nodes is refused before any
/// decoding, with the spans of all its error nodes.
pub fn from_node(node: &SyntaxNode, shape: &Shape, check_error: bool) -> (r: Result<
    Value,
    DeserializeError,
>)
    ensures
        check_error && node.has_error ==> (r matches Err(e) && e@ == ErrorView::TreeSitter(
            error_spans(*node),
        )),
        !(check_error && node.has_error) ==> result_view(r) == decode(*node, *shape),
{
    if check_error {
        if let Err(e) = check_errors(node) {
            return Err(e);
        }
    }
    NodeDeserializer::new(node).deserialize(shape)
}

} // verus!

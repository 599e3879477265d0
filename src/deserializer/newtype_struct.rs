//! Decoding the member of a newtype struct, which shares its wrapper's node.
use vstd::prelude::*;

use crate::access::SeqAccess;
use crate::atom::atom_from_text;
use crate::deserializer::NodeDeserializer;
use crate::error::{DeserializeError, ErrorView};
use crate::semantics::{decode_newtype, newtype_unsupported, result_view};
use crate::shape::{AtomKind, Shape, Value};
use crate::tsnode::{SyntaxNode, named_nodes};

verus! {

/// Relies on `format!`: the two names spliced into a fixed sentence.
#[verifier::external_body]
fn newtype_unsupported_message(method: &str, name: &str) -> (r: String)
    ensures
        r@ == newtype_unsupported(method@, name@),
{
    format!("Method {} is not supported for newtype_struct({}) member type", method, name)
}

/// Decodes the member of the newtype struct `name` held by `node`.
pub struct NewtypeStructDeserializer<'a> {
    pub node: &'a SyntaxNode,
    pub name: String,
}

impl<'a> NewtypeStructDeserializer<'a> {
    /// The member of the newtype struct `name` that `node` carries.
    pub fn new(name: String, node: &'a SyntaxNode) -> (r: NewtypeStructDeserializer<'a>)
        ensures
            r.node == node,
            r.name == name,
    {
        NewtypeStructDeserializer { node, name }
    }

    /// The node's single named child, or a count error.
    pub fn try_into_single_child_deserializer(self) -> (r: Result<
        NodeDeserializer<'a>,
        DeserializeError,
    >)
        ensures
            ({
                let ns = named_nodes(self.node.children@);
                &&& ns.len() == 1 <==> r is Ok
                &&& r matches Ok(d) ==> *d.node == ns[0]
                &&& r matches Err(e) ==> e@ == (ErrorView::ChildCount {
                    expected: 1,
                    actual: ns.len(),
                })
            }),
    {
        let idx = self.node.named_child_indices();
        if idx.len() != 1 {
            return Err(DeserializeError::child_count(1, idx.len()));
        }
        Ok(NodeDeserializer::new(&self.node.children[idx[0]]))
    }

    /// The wrapper's own node.
    pub fn into_node_deserializer(self) -> (r: NodeDeserializer<'a>)
        ensures
            r.node == self.node,
    {
        NodeDeserializer::new(self.node)
    }

    /// The error for a member read by `method`, which a newtype struct cannot carry.
    pub fn err_not_supported(&self, method: &str) -> (r: DeserializeError)
        ensures
            r@ == ErrorView::DataTypeNotSupported(newtype_unsupported(method@, self.name@)),
    {
        DeserializeError::DataTypeNotSupported(
            newtype_unsupported_message(method, self.name.as_str()),
        )
    }

    /// Decodes the member as `inner`.
    pub fn deserialize(self, inner: &Shape) -> (r: Result<Value, DeserializeError>)
        ensures
            result_view(r) == decode_newtype(*self.node, self.name@, *inner),
        decreases inner, 1nat, 0nat,
    {
        match inner {
            Shape::Atom(AtomKind::Char) => Err(self.err_not_supported("deserialize_char")),
            Shape::Atom(AtomKind::Bytes) => Err(self.err_not_supported("deserialize_bytes")),
            Shape::Atom(AtomKind::ByteBuf) => Err(self.err_not_supported("deserialize_byte_buf")),
            Shape::Atom(k) => atom_from_text(self.node.text.as_str(), *k),
            Shape::KeyValue => Err(self.err_not_supported("deserialize_map")),
            Shape::Identifier => Err(self.err_not_supported("deserialize_identifier")),
            Shape::IgnoredAny => Ok(Value::Unit),
            Shape::Sequence(e) => {
                let idx = self.node.named_child_indices();
                let acc = SeqAccess::new(self.node, idx);
                assert(acc.rest() =~= named_nodes(self.node.children@));
                match acc.collect(e) {
                    Ok(vs) => Ok(Value::List(vs)),
                    Err(err) => Err(err),
                }
            },
            Shape::Optional(e) => {
                if self.node.named_child_count() == 0 {
                    return Ok(Value::Absent);
                }
                match self.try_into_single_child_deserializer() {
                    Ok(d) => match d.deserialize(e) {
                        Ok(v) => Ok(Value::Present(Box::new(v))),
                        Err(err) => Err(err),
                    },
                    Err(err) => Err(err),
                }
            },
            Shape::Tuple(items) => self.into_node_deserializer().deserialize_tuple(items),
            _ => match self.try_into_single_child_deserializer() {
                Ok(d) => d.deserialize(inner),
                Err(err) => Err(err),
            },
        }
    }
}

} // verus!

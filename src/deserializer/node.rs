//! Decoding one node as any shape.
use vstd::prelude::*;

use crate::access::{EnumAccess, FieldsAsSeqAccess, SeqAccess};
use crate::atom::{atom_from_text, atom_of_text, bool_from_text, int_from_text};
use crate::deserializer::NewtypeStructDeserializer;
use crate::error::{DeserializeError, ErrorView};
use crate::semantics::{child_count_error, decode, result_view};
use crate::shape::{AtomKind, IntKind, Shape, Value};
use crate::tsnode::{SyntaxNode, in_bounds, named_nodes, select};

verus! {

/// Decodes one node.
pub struct NodeDeserializer<'a> {
    pub node: &'a SyntaxNode,
}

impl<'a> NodeDeserializer<'a> {
    /// A deserializer for `node`.
    pub fn new(node: &'a SyntaxNode) -> (r: NodeDeserializer<'a>)
        ensures
            r.node == node,
    {
        NodeDeserializer { node }
    }

    /// Reads an integer of kind `k` from the node's text.
    pub fn parse_int(&self, k: IntKind) -> (r: Result<Value, DeserializeError>)
        ensures
            result_view(r) == atom_of_text(self.node.text@, AtomKind::Int(k)),
    {
        int_from_text(self.node.text.as_str(), k)
    }

    /// Reads `true` or `false` from the node's text.
    pub fn parse_bool(&self) -> (r: Result<Value, DeserializeError>)
        ensures
            result_view(r) == atom_of_text(self.node.text@, AtomKind::Bool),
    {
        bool_from_text(self.node.text.as_str())
    }

    /// The member of the newtype struct `name` that this node carries.
    pub fn into_newtype_struct_deserializer(self, name: String) -> (r: NewtypeStructDeserializer<
        'a,
    >)
        ensures
            r.node == self.node,
            r.name == name,
    {
        NewtypeStructDeserializer::new(name, self.node)
    }

    /// Fails unless the node's kind is `name`.
    pub fn check_kind(&self, name: &String) -> (r: Result<(), DeserializeError>)
        ensures
            name@ == self.node.kind@ <==> r is Ok,
            r matches Err(e) ==> e@ == (ErrorView::NodeType {
                expected: name@,
                actual: self.node.kind@,
            }),
    {
        if *name != self.node.kind {
            return Err(DeserializeError::node_type(name.as_str(), self.node.kind.as_str()));
        }
        Ok(())
    }

    /// The child of an option: none for no named child, the one named
    /// child, or a count error for more.
    pub fn option_child(&self) -> (r: Result<Option<&'a SyntaxNode>, DeserializeError>)
        ensures
            ({
                let ns = named_nodes(self.node.children@);
                &&& ns.len() == 0 ==> r is Ok && r->Ok_0 is None
                &&& ns.len() == 1 ==> r is Ok && r->Ok_0 is Some
                &&& ns.len() > 1 ==> r is Err
                &&& r matches Ok(Some(c)) ==> *c == ns[0]
                &&& r matches Err(e) ==> e@ == child_count_error(1, ns.len())
            }),
    {
        let idx = self.node.named_child_indices();
        if idx.len() == 0 {
            Ok(None)
        } else if idx.len() == 1 {
            Ok(Some(&self.node.children[idx[0]]))
        } else {
            Err(DeserializeError::child_count(1, idx.len()))
        }
    }

    /// The positions of the named children, which must number exactly `len`.
    pub fn tuple_children(&self, len: usize) -> (r: Result<Vec<usize>, DeserializeError>)
        ensures
            ({
                let ns = named_nodes(self.node.children@);
                &&& ns.len() == len <==> r is Ok
                &&& r matches Ok(idx) ==> in_bounds(idx@, self.node.children@.len()) && select(
                    self.node.children@,
                    idx@,
                ) == ns
                &&& r matches Err(e) ==> e@ == child_count_error(len as nat, ns.len())
            }),
    {
        let idx = self.node.named_child_indices();
        if idx.len() != len {
            return Err(DeserializeError::child_count(len, idx.len()));
        }
        Ok(idx)
    }

    /// Decodes the named children as the members `items`, one child each.
    pub fn deserialize_tuple(self, items: &Vec<Shape>) -> (r: Result<Value, DeserializeError>)
        ensures
            result_view(r) == decode(*self.node, Shape::Tuple(*items)),
        decreases items@, 1nat, 0nat,
    {
        let idx = match self.tuple_children(items.len()) {
            Ok(idx) => idx,
            Err(e) => return Err(e),
        };
        match SeqAccess::new(self.node, idx).collect_tuple(items) {
            Ok(vs) => Ok(Value::List(vs)),
            Err(e) => Err(e),
        }
    }

    /// Decodes the node as `s`.
    pub fn deserialize(self, s: &Shape) -> (r: Result<Value, DeserializeError>)
        ensures
            result_view(r) == decode(*self.node, *s),
        decreases s, 0nat, 0nat,
    {
        let node = self.node;
        match s {
            Shape::Atom(k) => atom_from_text(node.text.as_str(), *k),
            Shape::Optional(inner) => match self.option_child() {
                Ok(None) => Ok(Value::Absent),
                Ok(Some(child)) => match NodeDeserializer::new(child).deserialize(inner) {
                    Ok(v) => Ok(Value::Present(Box::new(v))),
                    Err(e) => Err(e),
                },
                Err(e) => Err(e),
            },
            Shape::Sequence(inner) => {
                let idx = node.named_child_indices();
                let acc = SeqAccess::new(node, idx);
                assert(acc.rest() =~= named_nodes(node.children@));
                match acc.collect(inner) {
                    Ok(vs) => Ok(Value::List(vs)),
                    Err(e) => Err(e),
                }
            },
            Shape::Tuple(items) => self.deserialize_tuple(items),
            Shape::UnitStruct(name) => {
                match self.check_kind(name) {
                    Ok(()) => Ok(Value::Unit),
                    Err(e) => Err(e),
                }
            },
            Shape::NewtypeStruct(name, inner) => {
                if let Err(e) = self.check_kind(name) {
                    return Err(e);
                }
                match self.into_newtype_struct_deserializer(name.clone()).deserialize(inner) {
                    Ok(v) => Ok(Value::Newtype(Box::new(v))),
                    Err(e) => Err(e),
                }
            },
            Shape::TupleStruct(name, items) => {
                if let Err(e) = self.check_kind(name) {
                    return Err(e);
                }
                self.deserialize_tuple(items)
            },
            Shape::Struct(name, fields) => {
                if let Err(e) = self.check_kind(name) {
                    return Err(e);
                }
                match FieldsAsSeqAccess::new(node, fields).collect() {
                    Ok(vs) => Ok(Value::Record(vs)),
                    Err(e) => Err(e),
                }
            },
            Shape::Enum(name, variants) => {
                proof {
                    crate::semantics::lemma_variant_index(variants@, node.kind@);
                }
                match EnumAccess::new(node, name.clone()).variant(variants) {
                    Ok((i, access)) => match access.deserialize(&variants[i].1) {
                        Ok(p) => Ok(Value::Variant(node.kind.clone(), Box::new(p))),
                        Err(e) => Err(e),
                    },
                    Err(e) => Err(e),
                }
            },
            Shape::KeyValue => Err(
                DeserializeError::DataTypeNotSupported("Data type `map` is not supported".to_owned()),
            ),
            Shape::Identifier => Ok(Value::Str(node.kind.clone())),
            Shape::IgnoredAny => Ok(Value::Unit),
        }
    }
}

} // verus!

//! Decoding the children tagged with one field name of a struct.
use vstd::prelude::*;

use crate::access::SeqAccess;
use crate::deserializer::NodeDeserializer;
use crate::error::{DeserializeError, ErrorView};
use crate::semantics::{decode_field, result_view};
use crate::shape::{Shape, Value};
use crate::tsnode::{SyntaxNode, in_bounds, select};

verus! {

/// Decodes the children of `parent` at the positions `nodes`, all tagged
/// with the field name `field_name`.
pub struct FieldDeserializer<'a> {
    pub field_name: String,
    pub parent: &'a SyntaxNode,
    pub nodes: Vec<usize>,
}

impl<'a> FieldDeserializer<'a> {
    pub open spec fn wf(&self) -> bool {
        in_bounds(self.nodes@, self.parent.children@.len())
    }

    /// The tagged children, in order.
    pub open spec fn items(&self) -> Seq<SyntaxNode> {
        select(self.parent.children@, self.nodes@)
    }

    /// The children of `parent` at the positions `nodes`, read as the field `field_name`.
    pub fn new(field_name: String, parent: &'a SyntaxNode, nodes: Vec<usize>) -> (r:
        FieldDeserializer<'a>)
        requires
            in_bounds(nodes@, parent.children@.len()),
        ensures
            r.wf(),
            r.field_name == field_name,
            r.parent == parent,
            r.nodes@ == nodes@,
    {
        FieldDeserializer { field_name, parent, nodes }
    }

    /// The single tagged child, or a field length error.
    pub fn delegate(self) -> (r: Result<NodeDeserializer<'a>, DeserializeError>)
        requires
            self.wf(),
        ensures
            self.nodes@.len() == 1 <==> r is Ok,
            r matches Ok(d) ==> *d.node == self.items()[0],
            r matches Err(e) ==> e@ == (ErrorView::FieldLength {
                field_name: self.field_name@,
                expected: 1,
                actual: self.nodes@.len(),
            }),
    {
        if self.nodes.len() != 1 {
            return Err(
                DeserializeError::field_length(self.field_name.as_str(), 1, self.nodes.len()),
            );
        }
        Ok(NodeDeserializer::new(&self.parent.children[self.nodes[0]]))
    }

    /// The child of an optional field: none for no tagged child, the one
    /// tagged child, or a field length error for more.
    pub fn option_child(&self) -> (r: Result<Option<&'a SyntaxNode>, DeserializeError>)
        requires
            self.wf(),
        ensures
            self.nodes@.len() == 0 ==> r matches Ok(None),
            self.nodes@.len() == 1 ==> r matches Ok(Some(_)),
            self.nodes@.len() > 1 ==> r is Err,
            r matches Ok(Some(c)) ==> *c == self.items()[0],
            r matches Err(e) ==> e@ == (ErrorView::FieldLength {
                field_name: self.field_name@,
                expected: 1,
                actual: self.nodes@.len(),
            }),
    {
        let n = self.nodes.len();
        if n == 0 {
            Ok(None)
        } else if n == 1 {
            Ok(Some(&self.parent.children[self.nodes[0]]))
        } else {
            Err(DeserializeError::field_length(self.field_name.as_str(), 1, n))
        }
    }

    /// Fails unless exactly `len` children carry the tag.
    pub fn check_count(&self, len: usize) -> (r: Result<(), DeserializeError>)
        ensures
            self.nodes@.len() == len <==> r is Ok,
            r matches Err(e) ==> e@ == (ErrorView::FieldLength {
                field_name: self.field_name@,
                expected: len as nat,
                actual: self.nodes@.len(),
            }),
    {
        if self.nodes.len() != len {
            return Err(
                DeserializeError::field_length(self.field_name.as_str(), len, self.nodes.len()),
            );
        }
        Ok(())
    }

    /// Decodes the tagged children as `s`.
    pub fn deserialize(self, s: &Shape) -> (r: Result<Value, DeserializeError>)
        requires
            self.wf(),
        ensures
            result_view(r) == decode_field(self.field_name@, self.items(), *s),
        decreases s, 1nat, 0nat,
    {
        match s {
            Shape::Tuple(items) => {
                if let Err(e) = self.check_count(items.len()) {
                    return Err(e);
                }
                match SeqAccess::new(self.parent, self.nodes).collect_tuple(items) {
                    Ok(vs) => Ok(Value::List(vs)),
                    Err(e) => Err(e),
                }
            },
            Shape::Sequence(e) => {
                let ghost ns = self.items();
                let acc = SeqAccess::new(self.parent, self.nodes);
                assert(acc.rest() =~= ns);
                match acc.collect(e) {
                    Ok(vs) => Ok(Value::List(vs)),
                    Err(err) => Err(err),
                }
            },
            Shape::Optional(e) => match self.option_child() {
                Ok(None) => Ok(Value::Absent),
                Ok(Some(child)) => match NodeDeserializer::new(child).deserialize(e) {
                    Ok(v) => Ok(Value::Present(Box::new(v))),
                    Err(err) => Err(err),
                },
                Err(err) => Err(err),
            },
            _ => match self.delegate() {
                Ok(d) => d.deserialize(s),
                Err(e) => Err(e),
            },
        }
    }
}

} // verus!

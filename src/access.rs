//! Walkers over a node's children: positional sequences, struct fields,
//! and the variant of an enum.
use vstd::prelude::*;

use crate::deserializer::{FieldDeserializer, NewtypeStructDeserializer, NodeDeserializer};
use crate::error::{DeserializeError, ErrorView};
use crate::semantics::{
    decode, decode_fields, decode_list, decode_newtype, decode_tuple, decode_variant,
    lemma_fields_prefix_error, lemma_list_prefix_error, lemma_tuple_prefix_error,
    lemma_variant_index, results_view, result_view, unknown_variant,
    variant_index,
};
use crate::shape::{Shape, Value, ValueView, VariantShape, views};
use crate::tsnode::{SyntaxNode, field_nodes, in_bounds, select};

verus! {

/// Relies on `format!`: the name spliced into a fixed sentence.
#[verifier::external_body]
fn unknown_variant_message(tag: &str) -> (r: String)
    ensures
        r@ == unknown_variant(tag@),
{
    format!("unknown variant `{}`", tag)
}

/// A single pass over some children of `parent`, each decoded in turn.
pub struct SeqAccess<'a> {
    pub parent: &'a SyntaxNode,
    pub nodes: Vec<usize>,
    pub pos: usize,
}

impl<'a> SeqAccess<'a> {
    pub open spec fn wf(&self) -> bool {
        &&& in_bounds(self.nodes@, self.parent.children@.len())
        &&& self.pos <= self.nodes@.len()
    }

    /// The nodes that the pass walks, from the first.
    pub open spec fn items(&self) -> Seq<SyntaxNode> {
        select(self.parent.children@, self.nodes@)
    }

    /// The nodes that the pass has yet to walk.
    pub open spec fn rest(&self) -> Seq<SyntaxNode> {
        self.items().subrange(self.pos as int, self.items().len() as int)
    }

    /// A pass over the children of `parent` at the positions `nodes`.
    pub fn new(parent: &'a SyntaxNode, nodes: Vec<usize>) -> (r: SeqAccess<'a>)
        requires
            in_bounds(nodes@, parent.children@.len()),
        ensures
            r.wf(),
            r.parent == parent,
            r.nodes@ == nodes@,
            r.pos == 0,
    {
        SeqAccess { parent, nodes, pos: 0 }
    }

    /// Decodes the next node as `s`; `None` once every node was taken.
    pub fn next_element(&mut self, s: &Shape) -> (r: Result<Option<Value>, DeserializeError>)
        requires
            old(self).wf(),
        ensures
            final(self).wf(),
            final(self).parent == old(self).parent,
            final(self).nodes@ == old(self).nodes@,
            old(self).pos == old(self).nodes@.len() ==> final(self).pos == old(self).pos && r
                matches Ok(None),
            old(self).pos < old(self).nodes@.len() ==> final(self).pos == old(self).pos + 1 && match r {
                Ok(Some(v)) => decode(old(self).items()[old(self).pos as int], *s) == Ok::<
                    ValueView,
                    ErrorView,
                >(v@),
                Err(e) => decode(old(self).items()[old(self).pos as int], *s) == Err::<
                    ValueView,
                    ErrorView,
                >(e@),
                Ok(None) => false,
            },
        decreases s, 1nat, 0nat,
    {
        if self.pos >= self.nodes.len() {
            return Ok(None);
        }
        let child = &self.parent.children[self.nodes[self.pos]];
        self.pos = self.pos + 1;
        match NodeDeserializer::new(child).deserialize(s) {
            Ok(v) => Ok(Some(v)),
            Err(e) => Err(e),
        }
    }

    /// Decodes every node not yet taken as `s`, in order, up to the first error.
    #[verifier::loop_isolation(false)]
    pub fn collect(self, s: &Shape) -> (r: Result<Vec<Value>, DeserializeError>)
        requires
            self.wf(),
        ensures
            results_view(r) == decode_list(self.rest(), *s),
        decreases s, 2nat, 0nat,
    {
        let mut this = self;
        let ghost ns = this.rest();
        let ghost start = this.pos as int;
        let ghost items = this.items();
        let mut out: Vec<Value> = Vec::new();
        while this.pos < this.nodes.len()
            invariant
                this.wf(),
                this.items() == items,
                items.len() == this.nodes@.len(),
                0 <= start <= this.pos <= items.len(),
                ns == items.subrange(start, items.len() as int),
                ns.len() == items.len() - start,
                decode_list(ns.subrange(0, this.pos - start), *s) == Ok::<Seq<ValueView>, ErrorView>(
                    views(out@),
                ),
            decreases this.nodes@.len() - this.pos,
        {
            let ghost k = this.pos - start;
            let ghost before = out@;
            assert(ns.subrange(0, k + 1).drop_last() =~= ns.subrange(0, k));
            assert(ns.subrange(0, k + 1)[k] == items[this.pos as int]);
            match this.next_element(s) {
                Ok(Some(v)) => {
                    out.push(v);
                    assert(out@.drop_last() =~= before);
                    assert(views(out@) == views(before).push(v@));
                },
                Ok(None) => {
                    return Ok(out);
                },
                Err(e) => {
                    proof {
                        assert(decode_list(ns.subrange(0, k + 1), *s) == Err::<
                            Seq<ValueView>,
                            ErrorView,
                        >(e@));
                        lemma_list_prefix_error(ns, *s, k + 1);
                    }
                    return Err(e);
                },
            }
        }
        assert(ns.subrange(0, this.pos - start) =~= ns);
        Ok(out)
    }

    /// Decodes the node at each position not yet taken as the member of
    /// `ss` at the same position, up to the first error.
    #[verifier::loop_isolation(false)]
    pub fn collect_tuple(self, ss: &Vec<Shape>) -> (r: Result<Vec<Value>, DeserializeError>)
        requires
            self.wf(),
            self.pos == 0,
            self.nodes@.len() == ss@.len(),
        ensures
            results_view(r) == decode_tuple(self.items(), ss@),
        decreases ss@, 0nat, 0nat,
    {
        let mut this = self;
        let ghost ns = this.items();
        let mut out: Vec<Value> = Vec::new();
        let mut k: usize = 0;
        while k < ss.len()
            invariant
                this.wf(),
                this.items() == ns,
                this.pos == k,
                k <= ss@.len(),
                this.nodes@.len() == ss@.len(),
                decode_tuple(ns, ss@.subrange(0, k as int)) == Ok::<Seq<ValueView>, ErrorView>(
                    views(out@),
                ),
            decreases ss@.len() - k,
        {
            let ghost before = out@;
            assert(ss@.subrange(0, k + 1).drop_last() =~= ss@.subrange(0, k as int));
            assert(ss@.subrange(0, k + 1)[k as int] == ss@[k as int]);
            match this.next_element(&ss[k]) {
                Ok(Some(v)) => {
                    out.push(v);
                    assert(out@.drop_last() =~= before);
                    assert(views(out@) == views(before).push(v@));
                },
                Ok(None) => {
                    return Ok(out);
                },
                Err(e) => {
                    proof {
                        assert(decode_tuple(ns, ss@.subrange(0, k + 1)) == Err::<
                            Seq<ValueView>,
                            ErrorView,
                        >(e@));
                        lemma_tuple_prefix_error(ns, ss@, k + 1);
                    }
                    return Err(e);
                },
            }
            k = k + 1;
        }
        assert(ss@.subrange(0, k as int) =~= ss@);
        Ok(out)
    }
}

/// Picks the variant of an enum by the node's kind.
pub struct EnumAccess<'a> {
    pub node: &'a SyntaxNode,
    pub name: String,
}

impl<'a> EnumAccess<'a> {
    /// The variant of the enum `name` that `node` holds.
    pub fn new(node: &'a SyntaxNode, name: String) -> (r: EnumAccess<'a>)
        ensures
            r.node == node,
            r.name == name,
    {
        EnumAccess { node, name }
    }

    /// The position in `variants` of the first variant named like the
    /// node's kind, with the access to its payload.
    #[verifier::loop_isolation(false)]
    pub fn variant(self, variants: &Vec<(String, VariantShape<Shape>)>) -> (r: Result<
        (usize, VariantAccess<'a>),
        DeserializeError,
    >)
        ensures
            match variant_index(variants@, self.node.kind@) {
                Some(i) => r matches Ok((j, va)) && j == i && va.node == self.node && va.name
                    == self.name,
                None => r matches Err(e) && e@ == ErrorView::Custom(
                    unknown_variant(self.node.kind@),
                ),
            },
    {
        proof {
            lemma_variant_index(variants@, self.node.kind@);
        }
        let mut i: usize = 0;
        while i < variants.len()
            invariant
                i <= variants@.len(),
                forall|j: int| 0 <= j < i ==> #[trigger] variants@[j].0@ != self.node.kind@,
            decreases variants@.len() - i,
        {
            if variants[i].0 == self.node.kind {
                proof {
                    let tag = self.node.kind@;
                    assert(variants@[i as int].0@ == tag);
                    match variant_index(variants@, tag) {
                        Some(i0) => {
                            if i0 < i {
                                assert(variants@[i0].0@ != tag);
                            } else if i0 > i {
                                assert(variants@[i as int].0@ != tag);
                            }
                        },
                        None => {
                            assert(variants@[i as int].0@ != tag);
                        },
                    }
                }
                return Ok((i, VariantAccess::new(self.node, self.name)));
            }
            i = i + 1;
        }
        Err(DeserializeError::Custom(unknown_variant_message(self.node.kind.as_str())))
    }
}

/// The payload of the variant that a node holds; the node is the variant's own.
pub struct VariantAccess<'a> {
    pub node: &'a SyntaxNode,
    pub name: String,
}

impl<'a> VariantAccess<'a> {
    /// The payload held by `node`, of a variant of the enum `name`.
    pub fn new(node: &'a SyntaxNode, name: String) -> (r: VariantAccess<'a>)
        ensures
            r.node == node,
            r.name == name,
    {
        VariantAccess { node, name }
    }

    /// A unit variant: nothing is read.
    pub fn unit_variant(self) -> (r: Result<Value, DeserializeError>)
        ensures
            r matches Ok(v) && v@ == ValueView::Unit,
    {
        Ok(Value::Unit)
    }

    /// A newtype variant: the node itself carries the member.
    pub fn newtype_variant(self, inner: &Shape) -> (r: Result<Value, DeserializeError>)
        ensures
            result_view(r) == decode_newtype(*self.node, self.name@, *inner),
        decreases inner, 2nat, 0nat,
    {
        NewtypeStructDeserializer::new(self.name, self.node).deserialize(inner)
    }

    /// A tuple variant: exactly one named child per member.
    pub fn tuple_variant(self, items: &Vec<Shape>) -> (r: Result<Value, DeserializeError>)
        ensures
            result_view(r) == decode_variant(*self.node, self.name@, VariantShape::Tuple(*items)),
        decreases items@, 1nat, 0nat,
    {
        let idx = self.node.named_child_indices();
        if idx.len() != items.len() {
            return Err(DeserializeError::child_count(items.len(), idx.len()));
        }
        match SeqAccess::new(self.node, idx).collect_tuple(items) {
            Ok(vs) => Ok(Value::List(vs)),
            Err(e) => Err(e),
        }
    }

    /// A struct variant: each field is read from the children tagged with its name.
    pub fn struct_variant(self, fields: &Vec<(String, Shape)>) -> (r: Result<
        Value,
        DeserializeError,
    >)
        ensures
            result_view(r) == decode_variant(
                *self.node,
                self.name@,
                VariantShape::Struct(*fields),
            ),
        decreases fields@, 1nat, 0nat,
    {
        match FieldsAsSeqAccess::new(self.node, fields).collect() {
            Ok(vs) => Ok(Value::Record(vs)),
            Err(e) => Err(e),
        }
    }

    /// Decodes the payload as the variant shape `v`.
    pub fn deserialize(self, v: &VariantShape<Shape>) -> (r: Result<Value, DeserializeError>)
        ensures
            result_view(r) == decode_variant(*self.node, self.name@, *v),
        decreases v, 0nat, 0nat,
    {
        match v {
            VariantShape::Unit => self.unit_variant(),
            VariantShape::Newtype(inner) => self.newtype_variant(inner),
            VariantShape::Tuple(items) => self.tuple_variant(items),
            VariantShape::Struct(fields) => self.struct_variant(fields),
        }
    }
}

/// The fields of a struct, taken one at a time in declared order.
pub struct FieldsAsSeqAccess<'a> {
    pub node: &'a SyntaxNode,
    pub fields: &'a Vec<(String, Shape)>,
    pub index: usize,
}

impl<'a> FieldsAsSeqAccess<'a> {
    /// The fields `fields` of the struct held by `node`.
    pub fn new(node: &'a SyntaxNode, fields: &'a Vec<(String, Shape)>) -> (r: FieldsAsSeqAccess<'a>)
        ensures
            r.node == node,
            r.fields == fields,
            r.index == 0,
    {
        FieldsAsSeqAccess { node, fields, index: 0 }
    }

    /// Decodes the next field from the children tagged with its name;
    /// `None` once every field was taken.
    pub fn next_element(&mut self) -> (r: Result<Option<Value>, DeserializeError>)
        ensures
            final(self).node == old(self).node,
            final(self).fields == old(self).fields,
            old(self).index >= old(self).fields@.len() ==> final(self).index == old(self).index
                && r matches Ok(None),
            old(self).index < old(self).fields@.len() ==> final(self).index == old(self).index + 1
                && ({
                let f = old(self).fields@[old(self).index as int];
                let want = decode_field_of(*old(self).node, f);
                match r {
                    Ok(Some(v)) => want == Ok::<ValueView, ErrorView>(v@),
                    Err(e) => want == Err::<ValueView, ErrorView>(e@),
                    Ok(None) => false,
                }
            }),
        decreases self.fields@[self.index as int].1, 2nat, 0nat,
    {
        if self.index >= self.fields.len() {
            return Ok(None);
        }
        let field = &self.fields[self.index];
        self.index = self.index + 1;
        let idx = self.node.field_child_indices(&field.0);
        match FieldDeserializer::new(field.0.clone(), self.node, idx).deserialize(&field.1) {
            Ok(v) => Ok(Some(v)),
            Err(e) => Err(e),
        }
    }

    /// Decodes every field, in declared order, up to the first error.
    #[verifier::loop_isolation(false)]
    pub fn collect(self) -> (r: Result<Vec<Value>, DeserializeError>)
        requires
            self.index == 0,
        ensures
            results_view(r) == decode_fields(*self.node, self.fields@),
        decreases self.fields@, 0nat, 0nat,
    {
        let mut this = self;
        let ghost fs = this.fields@;
        let ghost n = *this.node;
        let mut out: Vec<Value> = Vec::new();
        while this.index < this.fields.len()
            invariant
                this.fields@ == fs,
                *this.node == n,
                this.index <= fs.len(),
                decode_fields(n, fs.subrange(0, this.index as int)) == Ok::<
                    Seq<ValueView>,
                    ErrorView,
                >(views(out@)),
            decreases fs.len() - this.index,
        {
            let ghost k = this.index as int;
            let ghost before = out@;
            assert(fs.subrange(0, k + 1).drop_last() =~= fs.subrange(0, k));
            assert(fs.subrange(0, k + 1)[k] == fs[k]);
            match this.next_element() {
                Ok(Some(v)) => {
                    out.push(v);
                    assert(out@.drop_last() =~= before);
                    assert(views(out@) == views(before).push(v@));
                },
                Ok(None) => {
                    return Ok(out);
                },
                Err(e) => {
                    proof {
                        assert(decode_fields(n, fs.subrange(0, k + 1)) == Err::<
                            Seq<ValueView>,
                            ErrorView,
                        >(e@));
                        lemma_fields_prefix_error(n, fs, k + 1);
                    }
                    return Err(e);
                },
            }
        }
        assert(fs.subrange(0, this.index as int) =~= fs);
        Ok(out)
    }
}

/// What the field `f` of a struct held by `n` decodes to.
pub open spec fn decode_field_of(n: SyntaxNode, f: (String, Shape)) -> Result<
    ValueView,
    ErrorView,
> {
    crate::semantics::decode_field(f.0@, field_nodes(n.children@, f.0@), f.1)
}

} // verus!

//! What a decode returns, stated as spec functions over plain values.
//!
//! Each executable component of the engine is proved equal to one of these.
use vstd::prelude::*;

use crate::atom::atom_of_text;
use crate::error::{DeserializeError, ErrorView};
use crate::shape::{AtomKind, Shape, Value, ValueView, VariantShape, views};
use crate::tsnode::{SyntaxNode, field_nodes, named_nodes};

verus! {

/// The view of a decode's outcome.
pub open spec fn result_view(r: Result<Value, DeserializeError>) -> Result<ValueView, ErrorView> {
    match r {
        Ok(v) => Ok(v@),
        Err(e) => Err(e@),
    }
}

/// The view of a decode of several values.
pub open spec fn results_view(r: Result<Vec<Value>, DeserializeError>) -> Result<
    Seq<ValueView>,
    ErrorView,
> {
    match r {
        Ok(vs) => Ok(views(vs@)),
        Err(e) => Err(e@),
    }
}

/// The message for a member shape that a newtype struct cannot carry.
pub open spec fn newtype_unsupported(method: Seq<char>, name: Seq<char>) -> Seq<char> {
    "Method "@ + method + " is not supported for newtype_struct("@ + name
        + ") member type"@
}

/// The message for a node kind that names no variant.
pub open spec fn unknown_variant(tag: Seq<char>) -> Seq<char> {
    "unknown variant `"@ + tag + "`"@
}

pub open spec fn child_count_error(expected: nat, actual: nat) -> ErrorView {
    ErrorView::ChildCount { expected, actual }
}

/// The first variant of `vs` named `tag`.
pub open spec fn variant_index(vs: Seq<(String, VariantShape<Shape>)>, tag: Seq<char>) -> Option<
    int,
>
    decreases vs.len(),
{
    if vs.len() == 0 {
        None
    } else {
        match variant_index(vs.drop_last(), tag) {
            Some(i) => Some(i),
            None => if vs.last().0@ == tag {
                Some(vs.len() - 1)
            } else {
                None
            },
        }
    }
}

/// Wraps a list of values, or passes the error on.
pub open spec fn as_list(r: Result<Seq<ValueView>, ErrorView>) -> Result<ValueView, ErrorView> {
    match r {
        Ok(vs) => Ok(ValueView::List(vs)),
        Err(e) => Err(e),
    }
}

/// Wraps a value as a present option, or passes the error on.
pub open spec fn as_present(r: Result<ValueView, ErrorView>) -> Result<ValueView, ErrorView> {
    match r {
        Ok(v) => Ok(ValueView::Present(Box::new(v))),
        Err(e) => Err(e),
    }
}

/// Decodes node `n` as shape `s`.
pub open spec fn decode(n: SyntaxNode, s: Shape) -> Result<ValueView, ErrorView>
    decreases s, 0nat, 0nat,
{
    let ns = named_nodes(n.children@);
    match s {
        Shape::Atom(k) => atom_of_text(n.text@, k),
        Shape::Optional(inner) => if ns.len() == 0 {
            Ok(ValueView::Absent)
        } else if ns.len() == 1 {
            as_present(decode(ns[0], *inner))
        } else {
            Err(child_count_error(1, ns.len()))
        },
        Shape::Sequence(inner) => as_list(decode_list(ns, *inner)),
        Shape::Tuple(items) => if ns.len() != items@.len() {
            Err(child_count_error(items@.len(), ns.len()))
        } else {
            as_list(decode_tuple(ns, items@))
        },
        Shape::UnitStruct(name) => if name@ != n.kind@ {
            Err(ErrorView::NodeType { expected: name@, actual: n.kind@ })
        } else {
            Ok(ValueView::Unit)
        },
        Shape::NewtypeStruct(name, inner) => if name@ != n.kind@ {
            Err(ErrorView::NodeType { expected: name@, actual: n.kind@ })
        } else {
            match decode_newtype(n, name@, *inner) {
                Ok(v) => Ok(ValueView::Newtype(Box::new(v))),
                Err(e) => Err(e),
            }
        },
        Shape::TupleStruct(name, items) => if name@ != n.kind@ {
            Err(ErrorView::NodeType { expected: name@, actual: n.kind@ })
        } else if ns.len() != items@.len() {
            Err(child_count_error(items@.len(), ns.len()))
        } else {
            as_list(decode_tuple(ns, items@))
        },
        Shape::Struct(name, fields) => if name@ != n.kind@ {
            Err(ErrorView::NodeType { expected: name@, actual: n.kind@ })
        } else {
            match decode_fields(n, fields@) {
                Ok(vs) => Ok(ValueView::Record(vs)),
                Err(e) => Err(e),
            }
        },
        Shape::Enum(name, variants) => match variant_index(variants@, n.kind@) {
            Some(i) if 0 <= i < variants@.len() => match decode_variant(
                n,
                name@,
                variants@[i].1,
            ) {
                Ok(p) => Ok(ValueView::Variant(n.kind@, Box::new(p))),
                Err(e) => Err(e),
            },
            _ => Err(ErrorView::Custom(unknown_variant(n.kind@))),
        },
        Shape::KeyValue => Err(
            ErrorView::DataTypeNotSupported("Data type `map` is not supported"@),
        ),
        Shape::Identifier => Ok(ValueView::Str(n.kind@)),
        Shape::IgnoredAny => Ok(ValueView::Unit),
    }
}

/// Decodes the member of a newtype struct named `name`, which shares the
/// node `n` with its wrapper.
pub open spec fn decode_newtype(n: SyntaxNode, name: Seq<char>, inner: Shape) -> Result<
    ValueView,
    ErrorView,
>
    decreases inner, 1nat, 0nat,
{
    let ns = named_nodes(n.children@);
    match inner {
        Shape::Atom(AtomKind::Char) => Err(
            ErrorView::DataTypeNotSupported(newtype_unsupported("deserialize_char"@, name)),
        ),
        Shape::Atom(AtomKind::Bytes) => Err(
            ErrorView::DataTypeNotSupported(newtype_unsupported("deserialize_bytes"@, name)),
        ),
        Shape::Atom(AtomKind::ByteBuf) => Err(
            ErrorView::DataTypeNotSupported(newtype_unsupported("deserialize_byte_buf"@, name)),
        ),
        Shape::Atom(k) => atom_of_text(n.text@, k),
        Shape::KeyValue => Err(
            ErrorView::DataTypeNotSupported(newtype_unsupported("deserialize_map"@, name)),
        ),
        Shape::Identifier => Err(
            ErrorView::DataTypeNotSupported(newtype_unsupported("deserialize_identifier"@, name)),
        ),
        Shape::IgnoredAny => Ok(ValueView::Unit),
        Shape::Sequence(e) => as_list(decode_list(ns, *e)),
        Shape::Optional(e) => if ns.len() == 0 {
            Ok(ValueView::Absent)
        } else if ns.len() != 1 {
            Err(child_count_error(1, ns.len()))
        } else {
            as_present(decode(ns[0], *e))
        },
        Shape::Tuple(items) => if ns.len() != items@.len() {
            Err(child_count_error(items@.len(), ns.len()))
        } else {
            as_list(decode_tuple(ns, items@))
        },
        _ => if ns.len() != 1 {
            Err(child_count_error(1, ns.len()))
        } else {
            decode(ns[0], inner)
        },
    }
}

/// Decodes each node of `ns` as `e`, in order, up to the first error.
pub open spec fn decode_list(ns: Seq<SyntaxNode>, e: Shape) -> Result<Seq<ValueView>, ErrorView>
    decreases e, 2nat, ns.len(),
{
    if ns.len() == 0 {
        Ok(seq![])
    } else {
        match decode_list(ns.drop_last(), e) {
            Err(err) => Err(err),
            Ok(vs) => match decode(ns[ns.len() - 1], e) {
                Err(err) => Err(err),
                Ok(v) => Ok(vs.push(v)),
            },
        }
    }
}

/// Decodes node `ns[k]` as `ss[k]` for each position of `ss`, in order, up
/// to the first error.
pub open spec fn decode_tuple(ns: Seq<SyntaxNode>, ss: Seq<Shape>) -> Result<
    Seq<ValueView>,
    ErrorView,
>
    decreases ss, 0nat, 0nat,
{
    if ss.len() == 0 {
        Ok(seq![])
    } else {
        match decode_tuple(ns, ss.drop_last()) {
            Err(err) => Err(err),
            Ok(vs) => match decode(ns[ss.len() - 1], ss[ss.len() - 1]) {
                Err(err) => Err(err),
                Ok(v) => Ok(vs.push(v)),
            },
        }
    }
}

/// Decodes the fields `fs` of a struct from the children of `n`, in
/// declared order, up to the first error.
pub open spec fn decode_fields(n: SyntaxNode, fs: Seq<(String, Shape)>) -> Result<
    Seq<ValueView>,
    ErrorView,
>
    decreases fs, 0nat, 0nat,
{
    if fs.len() == 0 {
        Ok(seq![])
    } else {
        match decode_fields(n, fs.drop_last()) {
            Err(err) => Err(err),
            Ok(vs) => {
                let f = fs[fs.len() - 1];
                match decode_field(f.0@, field_nodes(n.children@, f.0@), f.1) {
                    Err(err) => Err(err),
                    Ok(v) => Ok(vs.push(v)),
                }
            },
        }
    }
}

/// Decodes the children `ns` tagged with the field name `f` as shape `s`.
pub open spec fn decode_field(f: Seq<char>, ns: Seq<SyntaxNode>, s: Shape) -> Result<
    ValueView,
    ErrorView,
>
    decreases s, 1nat, 0nat,
{
    match s {
        Shape::Tuple(items) => if ns.len() != items@.len() {
            Err(ErrorView::FieldLength { field_name: f, expected: items@.len(), actual: ns.len() })
        } else {
            as_list(decode_tuple(ns, items@))
        },
        Shape::Sequence(e) => as_list(decode_list(ns, *e)),
        Shape::Optional(e) => if ns.len() == 0 {
            Ok(ValueView::Absent)
        } else if ns.len() == 1 {
            as_present(decode(ns[0], *e))
        } else {
            Err(ErrorView::FieldLength { field_name: f, expected: 1, actual: ns.len() })
        },
        _ => if ns.len() != 1 {
            Err(ErrorView::FieldLength { field_name: f, expected: 1, actual: ns.len() })
        } else {
            decode(ns[0], s)
        },
    }
}

/// Decodes the payload of the variant `v` of the enum `name` from node `n`.
pub open spec fn decode_variant(n: SyntaxNode, name: Seq<char>, v: VariantShape<Shape>) -> Result<
    ValueView,
    ErrorView,
>
    decreases v, 0nat, 0nat,
{
    let ns = named_nodes(n.children@);
    match v {
        VariantShape::Unit => Ok(ValueView::Unit),
        VariantShape::Newtype(inner) => decode_newtype(n, name, inner),
        VariantShape::Tuple(items) => if ns.len() != items@.len() {
            Err(child_count_error(items@.len(), ns.len()))
        } else {
            as_list(decode_tuple(ns, items@))
        },
        VariantShape::Struct(fields) => match decode_fields(n, fields@) {
            Ok(vs) => Ok(ValueView::Record(vs)),
            Err(e) => Err(e),
        },
    }
}

} // verus!

verus! {

/// An error in decoding a prefix of `ns` is the error of decoding all of `ns`.
pub proof fn lemma_list_prefix_error(ns: Seq<SyntaxNode>, e: Shape, k: int)
    requires
        0 <= k <= ns.len(),
        decode_list(ns.subrange(0, k), e) is Err,
    ensures
        decode_list(ns, e) == decode_list(ns.subrange(0, k), e),
    decreases ns.len(),
{
    if k == ns.len() {
        assert(ns.subrange(0, k) =~= ns);
    } else {
        assert(ns.drop_last().subrange(0, k) =~= ns.subrange(0, k));
        lemma_list_prefix_error(ns.drop_last(), e, k);
    }
}

/// An error in decoding a prefix of the members `ss` is the error of the whole tuple.
pub proof fn lemma_tuple_prefix_error(ns: Seq<SyntaxNode>, ss: Seq<Shape>, k: int)
    requires
        0 <= k <= ss.len(),
        decode_tuple(ns, ss.subrange(0, k)) is Err,
    ensures
        decode_tuple(ns, ss) == decode_tuple(ns, ss.subrange(0, k)),
    decreases ss.len(),
{
    if k == ss.len() {
        assert(ss.subrange(0, k) =~= ss);
    } else {
        assert(ss.drop_last().subrange(0, k) =~= ss.subrange(0, k));
        lemma_tuple_prefix_error(ns, ss.drop_last(), k);
    }
}

/// An error in decoding a prefix of the fields `fs` is the error of the whole struct.
pub proof fn lemma_fields_prefix_error(n: SyntaxNode, fs: Seq<(String, Shape)>, k: int)
    requires
        0 <= k <= fs.len(),
        decode_fields(n, fs.subrange(0, k)) is Err,
    ensures
        decode_fields(n, fs) == decode_fields(n, fs.subrange(0, k)),
    decreases fs.len(),
{
    if k == fs.len() {
        assert(fs.subrange(0, k) =~= fs);
    } else {
        assert(fs.drop_last().subrange(0, k) =~= fs.subrange(0, k));
        lemma_fields_prefix_error(n, fs.drop_last(), k);
    }
}

/// Whatever index `variant_index` gives lies inside `vs` and names `tag`;
/// where it gives none, no variant is named `tag`.
pub proof fn lemma_variant_index(vs: Seq<(String, VariantShape<Shape>)>, tag: Seq<char>)
    ensures
        variant_index(vs, tag) matches Some(i) ==> 0 <= i < vs.len() && vs[i].0@ == tag && (
        forall|j: int| 0 <= j < i ==> #[trigger] vs[j].0@ != tag),
        variant_index(vs, tag) is None ==> forall|j: int| 0 <= j < vs.len() ==> #[trigger] vs[j].0@
            != tag,
    decreases vs.len(),
{
    if vs.len() > 0 {
        lemma_variant_index(vs.drop_last(), tag);
        assert forall|j: int| 0 <= j < vs.len() - 1 implies #[trigger] vs[j] == vs.drop_last()[j] by {}
    }
}

} // verus!

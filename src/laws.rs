//! Properties that hold of every decode.
use vstd::prelude::*;
use vstd::utf8::{decode_utf8, encode_utf8_decode_utf8};

use crate::atom::{
    all_digits, atom_of_text, decimal_value, digit_value, digits_value,
    int_max, int_min, int_of_text, is_signed,
};
use crate::error::{DeserializeError, ErrorView};
use crate::semantics::{
    decode, decode_field, decode_fields, decode_newtype, lemma_fields_prefix_error, result_view,
};
use crate::shape::{AtomKind, IntKind, Shape, Value, ValueView};
use crate::tsnode::{SyntaxNode, field_nodes, named_nodes};

verus! {

pub open spec fn digit_char(d: int) -> char {
    if d == 0 {
        '0'
    } else if d == 1 {
        '1'
    } else if d == 2 {
        '2'
    } else if d == 3 {
        '3'
    } else if d == 4 {
        '4'
    } else if d == 5 {
        '5'
    } else if d == 6 {
        '6'
    } else if d == 7 {
        '7'
    } else if d == 8 {
        '8'
    } else {
        '9'
    }
}

/// The decimal digits of `n`, without leading zeros.
pub open spec fn digits_of(n: nat) -> Seq<char>
    decreases n,
{
    if n < 10 {
        seq![digit_char(n as int)]
    } else {
        digits_of(n / 10).push(digit_char((n % 10) as int))
    }
}

/// `v` written in decimal, with a `-` where it is negative.
pub open spec fn decimal_text(v: int) -> Seq<char> {
    if v < 0 {
        seq!['-'] + digits_of((-v) as nat)
    } else {
        digits_of(v as nat)
    }
}

/// The text that writes an atom's value back.
pub open spec fn atom_text(v: ValueView) -> Seq<char> {
    match v {
        ValueView::Bool(b) => if b {
            seq!['t', 'r', 'u', 'e']
        } else {
            seq!['f', 'a', 'l', 's', 'e']
        },
        ValueView::Int(_, x) => decimal_text(x),
        ValueView::Str(s) => s,
        ValueView::Bytes(b) => decode_utf8(b),
        _ => seq![],
    }
}

proof fn lemma_digits_of(n: nat)
    ensures
        all_digits(digits_of(n)),
        digits_value(digits_of(n)) == n,
    decreases n,
{
    let s = digits_of(n);
    assert(digits_value(s) == digits_value(s.drop_last()) * 10 + digit_value(s.last()));
    if n < 10 {
        assert(s.drop_last() =~= Seq::<char>::empty());
        assert(digits_value(Seq::<char>::empty()) == 0);
        assert(digit_value(digit_char(n as int)) == n);
    } else {
        lemma_digits_of(n / 10);
        assert(s.drop_last() =~= digits_of(n / 10));
        assert(digit_value(digit_char((n % 10) as int)) == n % 10);
        assert((n / 10) * 10 + n % 10 == n) by (nonlinear_arith);
        assert forall|i: int| 0 <= i < s.len() implies crate::atom::is_digit(#[trigger] s[i]) by {
            if i < s.len() - 1 {
                assert(s[i] == digits_of(n / 10)[i]);
            }
        }
    }
}

proof fn lemma_decimal_text(v: int, k: IntKind)
    requires
        int_min(k) <= v <= int_max(k),
    ensures
        int_of_text(decimal_text(v), k) == Some(v),
{
    if v < 0 {
        let d = digits_of((-v) as nat);
        lemma_digits_of((-v) as nat);
        let s = decimal_text(v);
        assert(s.drop_first() =~= d);
        assert(is_signed(k));
        assert(decimal_value(s, is_signed(k)) == Some(v));
    } else {
        lemma_digits_of(v as nat);
        let s = decimal_text(v);
        assert(crate::atom::is_digit(s[0]));
        assert(decimal_value(s, is_signed(k)) == Some(v));
    }
}

/// An atom whose text parses decodes, and writing its value back as text
/// and reading that text again gives the same value.
pub proof fn law_atom_round_trip(n: SyntaxNode, k: AtomKind)
    requires
        atom_of_text(n.text@, k) is Ok,
    ensures
        decode(n, Shape::Atom(k)) == atom_of_text(n.text@, k),
        atom_of_text(n.text@, k) matches Ok(v) && atom_of_text(atom_text(v), k) == Ok::<
            ValueView,
            ErrorView,
        >(v),
{
    match k {
        AtomKind::Int(ik) => {
            let v = int_of_text(n.text@, ik)->Some_0;
            lemma_decimal_text(v, ik);
        },
        AtomKind::Bytes => {
            encode_utf8_decode_utf8(n.text@);
        },
        _ => {},
    }
}

/// A field whose shape is a tuple of `m` members, with a different number
/// of children tagged with its name, fails the struct with a field length
/// error once the fields before it decode; the fields after it are never
/// read.
pub proof fn law_field_tuple_arity(n: SyntaxNode, name: String, fields: Vec<(String, Shape)>, k: int)
    requires
        0 <= k < fields@.len(),
        fields@[k].1 matches Shape::Tuple(items) && field_nodes(n.children@, fields@[k].0@).len()
            != items@.len(),
        decode_fields(n, fields@.subrange(0, k)) is Ok,
    ensures
        fields@[k].1 matches Shape::Tuple(items) && decode_fields(n, fields@) == Err::<Seq<ValueView>, ErrorView>(
            ErrorView::FieldLength {
                field_name: fields@[k].0@,
                expected: items@.len(),
                actual: field_nodes(n.children@, fields@[k].0@).len(),
            },
        ),
        name@ == n.kind@ ==> decode(n, Shape::Struct(name, fields)) == Err::<ValueView, ErrorView>(
            decode_fields(n, fields@)->Err_0,
        ),
        forall|later: Seq<(String, Shape)>|
            later.len() > k && #[trigger] later.subrange(0, k + 1) == fields@.subrange(0, k + 1)
                ==> decode_fields(n, later) == decode_fields(n, fields@),
{
    let pre = fields@.subrange(0, k + 1);
    assert(pre.drop_last() =~= fields@.subrange(0, k));
    assert(pre[k] == fields@[k]);
    let ns = field_nodes(n.children@, fields@[k].0@);
    if let Shape::Tuple(items) = fields@[k].1 {
        let err = ErrorView::FieldLength {
            field_name: fields@[k].0@,
            expected: items@.len(),
            actual: ns.len(),
        };
        assert(decode_field(fields@[k].0@, ns, fields@[k].1) == Err::<ValueView, ErrorView>(err));
        assert(decode_fields(n, pre) == Err::<Seq<ValueView>, ErrorView>(err));
    }
    lemma_fields_prefix_error(n, fields@, k + 1);
    assert forall|later: Seq<(String, Shape)>|
        later.len() > k && #[trigger] later.subrange(0, k + 1) == fields@.subrange(0, k + 1) implies
        decode_fields(n, later) == decode_fields(n, fields@) by {
        lemma_fields_prefix_error(n, later, k + 1);
    }
}

/// The member `Optional(inner)` of a newtype struct: no named child gives
/// nothing, one named child gives that child decoded as `inner`, and more
/// give a count error that expects one.
pub proof fn law_newtype_option(n: SyntaxNode, name: Seq<char>, inner: Shape)
    ensures
        ({
            let ns = named_nodes(n.children@);
            let r = decode_newtype(n, name, Shape::Optional(Box::new(inner)));
            &&& ns.len() == 0 ==> r == Ok::<ValueView, ErrorView>(ValueView::Absent)
            &&& ns.len() == 1 ==> r == match decode(ns[0], inner) {
                Ok(v) => Ok(ValueView::Present(Box::new(v))),
                Err(e) => Err(e),
            }
            &&& ns.len() > 1 ==> r == Err::<ValueView, ErrorView>(
                ErrorView::ChildCount { expected: 1, actual: ns.len() },
            )
        }),
{
}

/// A field whose shape is `Optional(inner)`: no tagged child gives nothing,
/// one gives that child decoded as `inner`, and more give a field length
/// error that expects one.
pub proof fn law_field_option(f: Seq<char>, ns: Seq<SyntaxNode>, inner: Shape)
    ensures
        ({
            let r = decode_field(f, ns, Shape::Optional(Box::new(inner)));
            &&& ns.len() == 0 ==> r == Ok::<ValueView, ErrorView>(ValueView::Absent)
            &&& ns.len() == 1 ==> r == match decode(ns[0], inner) {
                Ok(v) => Ok(ValueView::Present(Box::new(v))),
                Err(e) => Err(e),
            }
            &&& ns.len() > 1 ==> r == Err::<ValueView, ErrorView>(
                ErrorView::FieldLength { field_name: f, expected: 1, actual: ns.len() },
            )
        }),
{
}

/// Two decodes of one node as one shape have the same outcome: a decode
/// depends on the node and the shape alone, and only borrows the node.
pub proof fn law_decode_idempotent(
    n: SyntaxNode,
    s: Shape,
    first: Result<Value, DeserializeError>,
    second: Result<Value, DeserializeError>,
)
    requires
        result_view(first) == decode(n, s),
        result_view(second) == decode(n, s),
    ensures
        result_view(first) == result_view(second),
{
}

} // verus!

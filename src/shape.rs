//! What the caller asks for, and what a decode hands back.
use vstd::prelude::*;

verus! {

/// The width and signedness of an integer atom.
#[derive(Clone, Copy, Debug, PartialEq, Eq, Structural)]
pub enum IntKind {
    U8,
    U16,
    U32,
    U64,
    I8,
    I16,
    I32,
    I64,
}

/// An atom: a value read from a node's text alone.
///
/// `Str` and `String` both give the text; `Char` and `ByteBuf` have no
/// mapping onto a node and always fail.
#[derive(Clone, Copy, Debug, PartialEq, Eq, Structural)]
pub enum AtomKind {
    Bool,
    Int(IntKind),
    Str,
    String,
    Bytes,
    Unit,
    Char,
    ByteBuf,
}

/// The payload of one variant of an enum.
#[derive(Debug)]
pub enum VariantShape<S> {
    Unit,
    Newtype(S),
    Tuple(Vec<S>),
    Struct(Vec<(String, S)>),
}

/// The shape of the value that a node, or a field's children, must decode into.
#[derive(Debug)]
pub enum Shape {
    Atom(AtomKind),
    /// Zero or one occurrence.
    Optional(Box<Shape>),
    /// Any number of occurrences, in order.
    Sequence(Box<Shape>),
    /// Exactly as many occurrences as there are members, in order.
    Tuple(Vec<Shape>),
    /// A node of the given kind, with nothing read from it.
    UnitStruct(String),
    /// A node of the given kind that also carries the member.
    NewtypeStruct(String, Box<Shape>),
    /// A node of the given kind with exactly as many named children as members.
    TupleStruct(String, Vec<Shape>),
    /// A node of the given kind; each field is read from the children
    /// tagged with its name.
    Struct(String, Vec<(String, Shape)>),
    /// An enum of the given name; the node's kind picks the variant.
    Enum(String, Vec<(String, VariantShape<Shape>)>),
    /// A map from keys to values; not supported.
    KeyValue,
    /// The node's kind, as a string.
    Identifier,
    /// Anything; nothing is read.
    IgnoredAny,
}

/// A decoded value.
#[derive(Debug, PartialEq, Eq)]
pub enum Value {
    Unit,
    Bool(bool),
    U8(u8),
    U16(u16),
    U32(u32),
    U64(u64),
    I8(i8),
    I16(i16),
    I32(i32),
    I64(i64),
    Str(String),
    Bytes(Vec<u8>),
    /// An option with nothing in it.
    Absent,
    /// An option with a value.
    Present(Box<Value>),
    /// The members of a sequence, a tuple or a tuple struct.
    List(Vec<Value>),
    /// The member of a newtype struct.
    Newtype(Box<Value>),
    /// The fields of a struct, in declared order.
    Record(Vec<Value>),
    /// A variant of an enum: its name and its payload.
    Variant(String, Box<Value>),
}

/// A decoded value, as plain values.
pub enum ValueView {
    Unit,
    Bool(bool),
    Int(IntKind, int),
    Str(Seq<char>),
    Bytes(Seq<u8>),
    Absent,
    Present(Box<ValueView>),
    List(Seq<ValueView>),
    Newtype(Box<ValueView>),
    Record(Seq<ValueView>),
    Variant(Seq<char>, Box<ValueView>),
}

/// The views of the values of `vs`, in order.
pub open spec fn views(vs: Seq<Value>) -> Seq<ValueView>
    decreases vs, 0nat,
{
    if vs.len() == 0 {
        seq![]
    } else {
        views(vs.drop_last()).push(vs[vs.len() - 1].view_of())
    }
}

impl Value {
    /// What the value holds.
    pub open spec fn view_of(self) -> ValueView
        decreases self, 1nat,
    {
        match self {
            Value::Unit => ValueView::Unit,
            Value::Bool(b) => ValueView::Bool(b),
            Value::U8(x) => ValueView::Int(IntKind::U8, x as int),
            Value::U16(x) => ValueView::Int(IntKind::U16, x as int),
            Value::U32(x) => ValueView::Int(IntKind::U32, x as int),
            Value::U64(x) => ValueView::Int(IntKind::U64, x as int),
            Value::I8(x) => ValueView::Int(IntKind::I8, x as int),
            Value::I16(x) => ValueView::Int(IntKind::I16, x as int),
            Value::I32(x) => ValueView::Int(IntKind::I32, x as int),
            Value::I64(x) => ValueView::Int(IntKind::I64, x as int),
            Value::Str(s) => ValueView::Str(s@),
            Value::Bytes(b) => ValueView::Bytes(b@),
            Value::Absent => ValueView::Absent,
            Value::Present(v) => ValueView::Present(Box::new((*v).view_of())),
            Value::List(vs) => ValueView::List(views(vs@)),
            Value::Newtype(v) => ValueView::Newtype(Box::new((*v).view_of())),
            Value::Record(vs) => ValueView::Record(views(vs@)),
            Value::Variant(name, v) => ValueView::Variant(name@, Box::new((*v).view_of())),
        }
    }
}

impl View for Value {
    type V = ValueView;

    open spec fn view(&self) -> ValueView {
        self.view_of()
    }
}

} // verus!

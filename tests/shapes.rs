use node_decode::{
    AtomKind, DeserializeError, IntKind, NodeDeserializer, Shape, SyntaxNode, Value, VariantShape,
};

fn node(kind: &str, text: &str, children: Vec<SyntaxNode>) -> SyntaxNode {
    SyntaxNode::new(kind, text, children)
}

fn leaf(kind: &str, text: &str) -> SyntaxNode {
    SyntaxNode::new(kind, text, vec![])
}

fn field(name: &str, n: SyntaxNode) -> SyntaxNode {
    n.with_field(name)
}

fn integer(k: IntKind) -> Shape {
    Shape::Atom(AtomKind::Int(k))
}

fn string() -> Shape {
    Shape::Atom(AtomKind::String)
}

fn boxed(s: Shape) -> Box<Shape> {
    Box::new(s)
}

fn deserialize(n: &SyntaxNode, s: &Shape) -> Result<Value, DeserializeError> {
    NodeDeserializer::new(n).deserialize(s)
}

fn list(vs: Vec<Value>) -> Value {
    Value::List(vs)
}

fn newtype(v: Value) -> Value {
    Value::Newtype(Box::new(v))
}

fn some(v: Value) -> Value {
    Value::Present(Box::new(v))
}

fn text(s: &str) -> Value {
    Value::Str(s.to_owned())
}

#[test]
fn test_unit_ok() {
    assert_eq!(
        deserialize(&leaf("root", ""), &Shape::Atom(AtomKind::Unit)).unwrap(),
        Value::Unit
    );
}

#[test]
fn test_unit_struct() {
    let shape = Shape::UnitStruct("root".to_owned());
    assert_eq!(deserialize(&leaf("root", ""), &shape).unwrap(), Value::Unit);
    assert_eq!(
        deserialize(&leaf("not_root", ""), &shape).unwrap_err(),
        DeserializeError::NodeType { expected: "root".into(), actual: "not_root".into() }
    );
}

#[test]
fn test_tuple_struct_0() {
    let shape = Shape::TupleStruct("root".to_owned(), vec![]);
    assert_eq!(deserialize(&leaf("root", ""), &shape).unwrap(), list(vec![]));
    assert_eq!(
        deserialize(&leaf("not_root", ""), &shape).unwrap_err(),
        DeserializeError::NodeType { expected: "root".into(), actual: "not_root".into() }
    );
    assert_eq!(
        deserialize(&node("root", "", vec![leaf("child", "")]), &shape).unwrap_err(),
        DeserializeError::child_count(0, 1)
    );
}

#[test]
fn test_tuple_struct_n() {
    let shape = Shape::TupleStruct("root".to_owned(), vec![integer(IntKind::U32), integer(IntKind::U32)]);
    assert_eq!(
        deserialize(&node("root", "", vec![leaf("child", "123"), leaf("child", "456")]), &shape)
            .unwrap(),
        list(vec![Value::U32(123), Value::U32(456)])
    );
    assert_eq!(
        deserialize(&node("root", "", vec![leaf("child", "123")]), &shape).unwrap_err(),
        DeserializeError::child_count(2, 1)
    );
    assert_eq!(
        deserialize(
            &node(
                "root",
                "",
                vec![leaf("child", "123"), leaf("child", "456"), leaf("child", "789")]
            ),
            &shape
        )
        .unwrap_err(),
        DeserializeError::child_count(2, 3)
    );
}

#[test]
fn test_newtype_struct() {
    let shape = Shape::NewtypeStruct("root".to_owned(), boxed(Shape::Sequence(boxed(integer(IntKind::I32)))));
    assert_eq!(deserialize(&leaf("root", ""), &shape).unwrap(), newtype(list(vec![])));
    assert_eq!(
        deserialize(&leaf("not_root", ""), &shape).unwrap_err(),
        DeserializeError::node_type("root", "not_root")
    );
}

#[test]
fn test_newtype_struct_vec() {
    let shape = Shape::NewtypeStruct("root".to_owned(), boxed(Shape::Sequence(boxed(integer(IntKind::U32)))));
    assert_eq!(deserialize(&leaf("root", "xxx"), &shape).unwrap(), newtype(list(vec![])));
    assert_eq!(
        deserialize(&node("root", "xxx", vec![leaf("child", "123"), leaf("c", "456")]), &shape)
            .unwrap(),
        newtype(list(vec![Value::U32(123), Value::U32(456)]))
    );
    assert_eq!(
        deserialize(&leaf("not_root", "xxx"), &shape).unwrap_err(),
        DeserializeError::node_type("root", "not_root")
    );
}

#[test]
fn test_newtype_struct_option() {
    let shape = Shape::NewtypeStruct("root".to_owned(), boxed(Shape::Optional(boxed(integer(IntKind::U32)))));
    assert_eq!(deserialize(&leaf("root", "xxx"), &shape).unwrap(), newtype(Value::Absent));
    assert_eq!(
        deserialize(&node("root", "xxx", vec![leaf("child", "123")]), &shape).unwrap(),
        newtype(some(Value::U32(123)))
    );
    assert_eq!(
        deserialize(&leaf("not_root", "xxx"), &shape).unwrap_err(),
        DeserializeError::node_type("root", "not_root")
    );
    assert_eq!(
        deserialize(&node("root", "xxx", vec![leaf("child", "123"), leaf("child", "456")]), &shape)
            .unwrap_err(),
        DeserializeError::child_count(1, 2)
    );
}

#[test]
fn test_newtype_struct_tuple() {
    let shape = Shape::NewtypeStruct(
        "root".to_owned(),
        boxed(Shape::Tuple(vec![integer(IntKind::U32), integer(IntKind::U32)])),
    );
    assert_eq!(
        deserialize(&node("root", "", vec![leaf("child", "123"), leaf("child", "456")]), &shape)
            .unwrap(),
        newtype(list(vec![Value::U32(123), Value::U32(456)]))
    );
    assert_eq!(
        deserialize(&node("root", "", vec![leaf("child", "123")]), &shape).unwrap_err(),
        DeserializeError::child_count(2, 1)
    );
    assert_eq!(
        deserialize(
            &node(
                "root",
                "",
                vec![leaf("child", "123"), leaf("child", "456"), leaf("child", "789")]
            ),
            &shape
        )
        .unwrap_err(),
        DeserializeError::child_count(2, 3)
    );
}

#[test]
fn test_newtype_struct_string() {
    let shape = Shape::NewtypeStruct("root".to_owned(), boxed(string()));
    assert_eq!(deserialize(&leaf("root", "abc"), &shape).unwrap(), newtype(text("abc")));
    assert_eq!(
        deserialize(&node("root", "abc", vec![leaf("child", "xxx")]), &shape).unwrap(),
        newtype(text("abc"))
    );
}

#[test]
fn test_newtype_struct_num() {
    let shape = Shape::NewtypeStruct("root".to_owned(), boxed(integer(IntKind::I32)));
    assert_eq!(deserialize(&leaf("root", "123"), &shape).unwrap(), newtype(Value::I32(123)));
    assert_eq!(
        deserialize(&node("root", "123", vec![leaf("child", "456")]), &shape).unwrap(),
        newtype(Value::I32(123))
    );
}

#[test]
fn test_newtype_struct_struct() {
    let child = Shape::Struct("child".to_owned(), vec![("a".to_owned(), integer(IntKind::I32))]);
    let shape = Shape::NewtypeStruct("root".to_owned(), boxed(child));
    let tree = node("root", "", vec![node("child", "", vec![field("a", leaf("num", "123"))])]);
    assert_eq!(
        deserialize(&tree, &shape).unwrap(),
        newtype(Value::Record(vec![Value::I32(123)]))
    );
}

fn root_ab() -> Shape {
    Shape::Struct(
        "root".to_owned(),
        vec![("a".to_owned(), integer(IntKind::U64)), ("b".to_owned(), string())],
    )
}

#[test]
fn test_struct() {
    let shape = root_ab();
    assert_eq!(
        deserialize(
            &node("root", "", vec![field("a", leaf("child", "123")), field("b", leaf("child", "abc"))]),
            &shape
        )
        .unwrap(),
        Value::Record(vec![Value::U64(123), text("abc")])
    );
    assert_eq!(
        deserialize(
            &node(
                "not_root",
                "",
                vec![field("a", leaf("child", "123")), field("b", leaf("child", "abc"))]
            ),
            &shape
        )
        .unwrap_err(),
        DeserializeError::node_type("root", "not_root")
    );
    assert_eq!(
        deserialize(&node("root", "", vec![field("b", leaf("child", "abc"))]), &shape).unwrap_err(),
        DeserializeError::field_length("a", 1, 0)
    );
    assert_eq!(
        deserialize(
            &node("root", "", vec![field("a", leaf("child", "xxx")), field("b", leaf("child", "abc"))]),
            &shape
        )
        .unwrap_err(),
        DeserializeError::ParseIntError("xxx".parse::<u64>().unwrap_err())
    );
    assert_eq!(
        deserialize(
            &node(
                "root",
                "",
                vec![
                    field("a", leaf("child", "123")),
                    field("a", leaf("child", "456")),
                    field("b", leaf("child", "abc"))
                ]
            ),
            &shape
        )
        .unwrap_err(),
        DeserializeError::field_length("a", 1, 2)
    );
}

#[test]
fn test_struct_tuple() {
    let shape = Shape::Struct(
        "root".to_owned(),
        vec![("a".to_owned(), Shape::Tuple(vec![integer(IntKind::U32), integer(IntKind::U32)]))],
    );
    assert_eq!(
        deserialize(
            &node(
                "root",
                "",
                vec![
                    field("a", leaf("child", "123")),
                    leaf("child", "999"),
                    field("a", leaf("child", "456"))
                ]
            ),
            &shape
        )
        .unwrap(),
        Value::Record(vec![list(vec![Value::U32(123), Value::U32(456)])])
    );
    assert_eq!(
        deserialize(
            &node("root", "", vec![field("a", leaf("child", "123")), leaf("child", "999")]),
            &shape
        )
        .unwrap_err(),
        DeserializeError::field_length("a", 2, 1)
    );
}

#[test]
fn test_struct_vec() {
    let shape = Shape::Struct(
        "root".to_owned(),
        vec![("a".to_owned(), Shape::Sequence(boxed(integer(IntKind::U32))))],
    );
    assert_eq!(
        deserialize(&leaf("root", "999"), &shape).unwrap(),
        Value::Record(vec![list(vec![])])
    );
    assert_eq!(
        deserialize(&node("root", "999", vec![field("a", leaf("child", "123"))]), &shape).unwrap(),
        Value::Record(vec![list(vec![Value::U32(123)])])
    );
}

#[test]
fn test_struct_option() {
    let shape = Shape::Struct(
        "root".to_owned(),
        vec![("a".to_owned(), Shape::Optional(boxed(integer(IntKind::U32))))],
    );
    assert_eq!(
        deserialize(&leaf("root", "123"), &shape).unwrap(),
        Value::Record(vec![Value::Absent])
    );
    assert_eq!(
        deserialize(&node("root", "123", vec![field("a", leaf("child", "456"))]), &shape).unwrap(),
        Value::Record(vec![some(Value::U32(456))])
    );
    assert_eq!(
        deserialize(
            &node(
                "root",
                "123",
                vec![field("a", leaf("child", "456")), field("a", leaf("child", "789"))]
            ),
            &shape
        )
        .unwrap_err(),
        DeserializeError::field_length("a", 1, 2)
    );
}

#[test]
fn test_tuple() {
    // arity = 1
    let one = Shape::Tuple(vec![integer(IntKind::I32)]);
    assert_eq!(
        deserialize(&node("root", "", vec![leaf("child", "123")]), &one).unwrap(),
        list(vec![Value::I32(123)])
    );
    assert_eq!(deserialize(&leaf("root", ""), &one).unwrap_err(), DeserializeError::child_count(1, 0));
    assert_eq!(
        deserialize(&node("root", "", vec![leaf("child", "123"), leaf("child", "456")]), &one)
            .unwrap_err(),
        DeserializeError::child_count(1, 2)
    );
    assert_eq!(
        deserialize(&node("root", "", vec![leaf("child", "xxx")]), &one).unwrap_err(),
        DeserializeError::ParseIntError("xxx".parse::<i32>().unwrap_err())
    );

    // arity = 2
    let two = Shape::Tuple(vec![integer(IntKind::I32), integer(IntKind::U8)]);
    assert_eq!(
        deserialize(&node("root", "", vec![leaf("child", "123"), leaf("child", "99")]), &two).unwrap(),
        list(vec![Value::I32(123), Value::U8(99)])
    );
    assert_eq!(deserialize(&leaf("root", ""), &two).unwrap_err(), DeserializeError::child_count(2, 0));
    assert_eq!(
        deserialize(
            &node("root", "", vec![leaf("child", "1"), leaf("child", "2"), leaf("child", "3")]),
            &two
        )
        .unwrap_err(),
        DeserializeError::child_count(2, 3)
    );
    assert_eq!(
        deserialize(&node("root", "", vec![leaf("child", "123"), leaf("child", "yyy")]), &two)
            .unwrap_err(),
        DeserializeError::ParseIntError("yyy".parse::<u8>().unwrap_err())
    );
}

#[test]
fn test_vec() {
    let shape = Shape::Sequence(boxed(integer(IntKind::I32)));
    assert_eq!(deserialize(&leaf("root", ""), &shape).unwrap(), list(vec![]));
    assert_eq!(
        deserialize(&node("root", "", vec![leaf("child", "123"), leaf("child", "456")]), &shape)
            .unwrap(),
        list(vec![Value::I32(123), Value::I32(456)])
    );
}

#[test]
fn test_option() {
    let shape = Shape::Optional(boxed(integer(IntKind::I32)));
    assert_eq!(deserialize(&leaf("root", ""), &shape).unwrap(), Value::Absent);
    assert_eq!(
        deserialize(&node("root", "", vec![leaf("child", "123")]), &shape).unwrap(),
        some(Value::I32(123))
    );
    assert_eq!(
        deserialize(&node("root", "", vec![leaf("child", "123"), leaf("child", "456")]), &shape)
            .unwrap_err(),
        DeserializeError::child_count(1, 2)
    );
}

fn value_enum() -> Shape {
    Shape::Enum(
        "Value".to_owned(),
        vec![
            ("null".to_owned(), VariantShape::Unit),
            ("int".to_owned(), VariantShape::Newtype(integer(IntKind::I64))),
            ("tuple".to_owned(), VariantShape::Tuple(vec![string(), integer(IntKind::I32)])),
            (
                "struct".to_owned(),
                VariantShape::Struct(vec![
                    ("a".to_owned(), integer(IntKind::U32)),
                    ("b".to_owned(), Shape::Sequence(boxed(string()))),
                    ("c".to_owned(), Shape::Optional(boxed(string()))),
                ]),
            ),
        ],
    )
}

fn variant(name: &str, v: Value) -> Value {
    Value::Variant(name.to_owned(), Box::new(v))
}

#[test]
fn test_enum() {
    let shape = value_enum();

    // unit
    assert_eq!(deserialize(&leaf("null", "foo"), &shape).unwrap(), variant("null", Value::Unit));

    // newtype(ok)
    assert_eq!(
        deserialize(&leaf("int", "999"), &shape).unwrap(),
        variant("int", Value::I64(999))
    );

    // tuple(ok)
    assert_eq!(
        deserialize(&node("tuple", "999", vec![leaf("c1", "foo"), leaf("c2", "333")]), &shape)
            .unwrap(),
        variant("tuple", list(vec![text("foo"), Value::I32(333)]))
    );

    // tuple(error: child count)
    assert_eq!(
        deserialize(&node("tuple", "999", vec![leaf("c1", "foo")]), &shape).unwrap_err(),
        DeserializeError::child_count(2, 1)
    );

    // tuple(error: type error)
    assert_eq!(
        deserialize(
            &node("tuple", "999", vec![leaf("c1", "foo"), leaf("c2", "not_a_number")]),
            &shape
        )
        .unwrap_err(),
        DeserializeError::ParseIntError("not_a_number".parse::<i32>().unwrap_err())
    );

    // struct(ok: b = [...], c = None)
    let tree = node(
        "struct",
        "",
        vec![
            field("a", leaf("foo", "123")),
            field("b", leaf("bar", "a")),
            field("b", leaf("bar", "b")),
            leaf("baz", ""),
            field("b", leaf("bar", "c")),
        ],
    );
    assert_eq!(
        deserialize(&tree, &shape).unwrap(),
        variant(
            "struct",
            Value::Record(vec![
                Value::U32(123),
                list(vec![text("a"), text("b"), text("c")]),
                Value::Absent
            ])
        )
    );

    // struct(ok: b = [], c = "foo")
    let tree = node(
        "struct",
        "",
        vec![field("a", leaf("foo", "123")), leaf("baz", ""), field("c", leaf("foo", "foo"))],
    );
    assert_eq!(
        deserialize(&tree, &shape).unwrap(),
        variant(
            "struct",
            Value::Record(vec![Value::U32(123), list(vec![]), some(text("foo"))])
        )
    );

    // struct(error: missing a)
    let tree = node("struct", "", vec![field("b", leaf("foo", "123")), leaf("baz", "")]);
    assert_eq!(deserialize(&tree, &shape).unwrap_err(), DeserializeError::field_length("a", 1, 0));

    // struct(error: option field length > 1)
    let tree = node(
        "struct",
        "",
        vec![
            field("a", leaf("foo", "123")),
            leaf("baz", ""),
            field("c", leaf("foo", "foo")),
            field("c", leaf("foo", "foo")),
        ],
    );
    assert_eq!(deserialize(&tree, &shape).unwrap_err(), DeserializeError::field_length("c", 1, 2));

    // error: unknown variant
    let tree = node(
        "unknown",
        "",
        vec![
            field("a", leaf("foo", "123")),
            leaf("baz", ""),
            field("c", leaf("foo", "foo")),
            field("c", leaf("foo", "foo")),
        ],
    );
    assert!(deserialize(&tree, &shape).is_err());
}

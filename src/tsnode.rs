//! The tree that the engine reads: a node's kind, its text, the field tag
//! under which its parent holds it, and its children in source order.
use vstd::prelude::*;

verus! {

/// Where a node lies in the source: byte offsets and row/column points.
#[derive(Clone, Copy, Debug, PartialEq, Eq, Structural)]
pub struct Span {
    pub start_byte: usize,
    pub end_byte: usize,
    pub start_row: usize,
    pub start_column: usize,
    pub end_row: usize,
    pub end_column: usize,
}

/// One node of a concrete syntax tree.
///
/// `named` is false for children with a purely structural role (punctuation
/// and the like); those never count as children here, but may still carry a
/// field tag.
#[derive(Debug, PartialEq, Eq)]
pub struct SyntaxNode {
    pub kind: String,
    pub text: String,
    pub field: Option<String>,
    pub named: bool,
    pub is_error: bool,
    pub has_error: bool,
    pub span: Span,
    pub children: Vec<SyntaxNode>,
}

/// The named nodes of `cs`, in order.
pub open spec fn named_nodes(cs: Seq<SyntaxNode>) -> Seq<SyntaxNode>
    decreases cs.len(),
{
    if cs.len() == 0 {
        seq![]
    } else {
        let rest = named_nodes(cs.drop_last());
        if cs.last().named {
            rest.push(cs.last())
        } else {
            rest
        }
    }
}

/// Whether `n` is held under the field tag `f`.
pub open spec fn tagged(n: SyntaxNode, f: Seq<char>) -> bool {
    match n.field {
        Some(g) => g@ == f,
        None => false,
    }
}

/// The nodes of `cs` tagged with the field name `f`, in order.
pub open spec fn field_nodes(cs: Seq<SyntaxNode>, f: Seq<char>) -> Seq<SyntaxNode>
    decreases cs.len(),
{
    if cs.len() == 0 {
        seq![]
    } else {
        let rest = field_nodes(cs.drop_last(), f);
        if tagged(cs.last(), f) {
            rest.push(cs.last())
        } else {
            rest
        }
    }
}

/// The nodes of `cs` at the positions `idx`.
pub open spec fn select(cs: Seq<SyntaxNode>, idx: Seq<usize>) -> Seq<SyntaxNode> {
    idx.map_values(|i: usize| cs[i as int])
}

/// Every position in `idx` lies inside a sequence of length `len`.
pub open spec fn in_bounds(idx: Seq<usize>, len: nat) -> bool {
    forall|k: int| 0 <= k < idx.len() ==> #[trigger] idx[k] < len
}

/// The spans of the error nodes of `n`, depth first. A subtree without
/// errors is not entered.
pub open spec fn error_spans(n: SyntaxNode) -> Seq<Span>
    decreases n, 1nat,
{
    let own = if n.is_error {
        seq![n.span]
    } else {
        seq![]
    };
    if n.has_error {
        own + children_error_spans(n.children@)
    } else {
        own
    }
}

/// The error spans of each node of `cs`, one after the other.
pub open spec fn children_error_spans(cs: Seq<SyntaxNode>) -> Seq<Span>
    decreases cs, 0nat,
{
    if cs.len() == 0 {
        seq![]
    } else {
        children_error_spans(cs.drop_last()) + error_spans(cs[cs.len() - 1])
    }
}

impl SyntaxNode {
    /// The positions of the named children, in order.
    pub fn named_child_indices(&self) -> (r: Vec<usize>)
        ensures
            in_bounds(r@, self.children@.len()),
            select(self.children@, r@) == named_nodes(self.children@),
    {
        let mut r: Vec<usize> = Vec::new();
        let mut i: usize = 0;
        while i < self.children.len()
            invariant
                i <= self.children@.len(),
                in_bounds(r@, self.children@.len()),
                select(self.children@, r@) == named_nodes(self.children@.subrange(0, i as int)),
            decreases self.children@.len() - i,
        {
            let ghost cs = self.children@;
            assert(cs.subrange(0, i + 1).drop_last() =~= cs.subrange(0, i as int));
            if self.children[i].named {
                let ghost before = r@;
                r.push(i);
                assert(select(cs, r@) =~= select(cs, before).push(cs[i as int]));
            }
            i = i + 1;
        }
        assert(self.children@.subrange(0, self.children@.len() as int) =~= self.children@);
        r
    }

    /// The number of named children.
    pub fn named_child_count(&self) -> (r: usize)
        ensures
            r == named_nodes(self.children@).len(),
    {
        self.named_child_indices().len()
    }

    /// The positions of the children tagged with the field name `name`, in order.
    pub fn field_child_indices(&self, name: &String) -> (r: Vec<usize>)
        ensures
            in_bounds(r@, self.children@.len()),
            select(self.children@, r@) == field_nodes(self.children@, name@),
    {
        let mut r: Vec<usize> = Vec::new();
        let mut i: usize = 0;
        while i < self.children.len()
            invariant
                i <= self.children@.len(),
                in_bounds(r@, self.children@.len()),
                select(self.children@, r@) == field_nodes(
                    self.children@.subrange(0, i as int),
                    name@,
                ),
            decreases self.children@.len() - i,
        {
            let ghost cs = self.children@;
            assert(cs.subrange(0, i + 1).drop_last() =~= cs.subrange(0, i as int));
            let hit = match &self.children[i].field {
                Some(f) => *f == *name,
                None => false,
            };
            if hit {
                let ghost before = r@;
                r.push(i);
                assert(select(cs, r@) =~= select(cs, before).push(cs[i as int]));
            }
            i = i + 1;
        }
        assert(self.children@.subrange(0, self.children@.len() as int) =~= self.children@);
        r
    }
}

impl Span {
    /// The span that covers nothing at the start of the source.
    pub fn empty() -> (r: Span)
        ensures
            r.start_byte == 0 && r.end_byte == 0,
            r.start_row == 0 && r.start_column == 0,
            r.end_row == 0 && r.end_column == 0,
    {
        Span { start_byte: 0, end_byte: 0, start_row: 0, start_column: 0, end_row: 0, end_column: 0 }
    }
}

/// `n` is an error node or holds one.
pub open spec fn marks_error(n: SyntaxNode) -> bool {
    n.is_error || n.has_error
}

/// Some node of `cs` is an error node or holds one.
pub open spec fn any_error(cs: Seq<SyntaxNode>) -> bool {
    exists|i: int| 0 <= i < cs.len() && #[trigger] marks_error(cs[i])
}

impl SyntaxNode {
    /// A named node of kind `kind` whose text is `text`, with `children` in
    /// order; it carries no field tag and holds an error only where one of
    /// its children is or holds one.
    pub fn new(kind: &str, text: &str, children: Vec<SyntaxNode>) -> (r: SyntaxNode)
        ensures
            r.kind@ == kind@,
            r.text@ == text@,
            r.field is None,
            r.named,
            !r.is_error,
            r.has_error == any_error(children@),
            r.span.start_byte == 0 && r.span.end_byte == 0,
            r.children@ == children@,
    {
        let mut has_error = false;
        let mut i: usize = 0;
        while i < children.len()
            invariant
                i <= children@.len(),
                has_error == exists|j: int| 0 <= j < i && #[trigger] marks_error(children@[j]),
            decreases children@.len() - i,
        {
            if children[i].is_error || children[i].has_error {
                has_error = true;
                assert(marks_error(children@[i as int]));
            } else {
                assert(!marks_error(children@[i as int]));
            }
            i = i + 1;
        }
        SyntaxNode {
            kind: kind.to_owned(),
            text: text.to_owned(),
            field: None,
            named: true,
            is_error: false,
            has_error,
            span: Span::empty(),
            children,
        }
    }

    /// The same node, held by its parent under the field tag `field`.
    pub fn with_field(self, field: &str) -> (r: SyntaxNode)
        ensures
            r.field matches Some(f) && f@ == field@,
            r.kind == self.kind && r.text == self.text && r.named == self.named,
            r.is_error == self.is_error && r.has_error == self.has_error,
            r.span == self.span && r.children == self.children,
    {
        SyntaxNode { field: Some(field.to_owned()), ..self }
    }

    /// The same node, with a purely structural role: it no longer counts as
    /// a named child.
    pub fn anonymous(self) -> (r: SyntaxNode)
        ensures
            !r.named,
            r.kind == self.kind && r.text == self.text && r.field == self.field,
            r.is_error == self.is_error && r.has_error == self.has_error,
            r.span == self.span && r.children == self.children,
    {
        SyntaxNode { named: false, ..self }
    }
}

/// Appends the error spans of `n` to `buf`.
fn collect_errors_into(n: &SyntaxNode, buf: &mut Vec<Span>)
    ensures
        final(buf)@ == old(buf)@ + error_spans(*n),
    decreases n,
{
    let ghost start = buf@;
    if n.is_error {
        buf.push(n.span);
    }
    let ghost own = if n.is_error {
        seq![n.span]
    } else {
        seq![]
    };
    assert(buf@ =~= start + own);
    if n.has_error {
        let mut i: usize = 0;
        while i < n.children.len()
            invariant
                i <= n.children@.len(),
                buf@ == start + own + children_error_spans(n.children@.subrange(0, i as int)),
            decreases n.children@.len() - i,
        {
            let ghost cs = n.children@;
            assert(cs.subrange(0, i + 1).drop_last() =~= cs.subrange(0, i as int));
            assert(cs.subrange(0, i + 1)[i as int] == cs[i as int]);
            collect_errors_into(&n.children[i], buf);
            assert(buf@ =~= start + own + children_error_spans(cs.subrange(0, i + 1)));
            i = i + 1;
        }
        assert(n.children@.subrange(0, n.children@.len() as int) =~= n.children@);
    }
}

/// The spans of all error nodes of the tree under `node`, depth first.
pub fn collect_errors(node: &SyntaxNode) -> (r: Vec<Span>)
    ensures
        r@ == error_spans(*node),
{
    let mut buf: Vec<Span> = Vec::new();
    collect_errors_into(node, &mut buf);
    assert(buf@ =~= error_spans(*node));
    buf
}

} // verus!

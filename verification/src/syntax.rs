//! The syntax tree that the linter analyses.
//!
//! Nodes live in an arena: every node refers to its children by index, and a
//! child always has a smaller index than its parent, so the root is the last
//! node.  Each node carries the character range it spans in the source text
//! and a copy of the spanned characters.  `SyntaxTree::assemble` checks every
//! structural invariant at run time, so a well-formed tree (`tree_wf`) is the
//! only kind the rest of the crate ever sees.

use vstd::prelude::*;
use crate::text::chars_eq;

verus! {

/// The kind tag of a syntax node.
#[derive(Clone, Copy, PartialEq, Eq, Structural, Debug)]
pub enum NodeKind {
    /// The whole source file; its children are the top-level expressions.
    Program,
    /// `{ ... }`; children are the inner expressions.
    Braces,
    /// `( expr )`; one child.
    Parens,
    /// `f(args...)`; children are the callee followed by the arguments.
    Call,
    /// `x[args...]`; children are the base followed by the arguments.
    Subset,
    /// `x[[args...]]`; children are the base followed by the arguments.
    Index2,
    /// A binary expression; children are `[lhs, operator, rhs]`.
    Binary,
    /// A unary expression; children are `[operator, operand]`.
    Unary,
    /// An operator token.
    Op,
    /// An identifier.
    Ident,
    /// A numeric literal.
    Num,
    /// A string literal.
    Str,
    /// A positional argument; zero children when the value is missing,
    /// otherwise one child holding the value.
    Arg,
    /// A named argument; children are the name and, when present, the value.
    NamedArg,
    /// A hole left by a missing expression, e.g. between the commas of `x[,]`.
    Missing,
    /// `function(params) body`; children are the parameter list and the body.
    FunctionDef,
    /// The parameter list of a function definition.
    Params,
    /// One parameter; children are the name and, when present, the default.
    Param,
    /// `if (cond) then` or `if (cond) then else alt`.
    If,
    /// `for (var in seq) body`; children are `[var, seq, body]`.
    For,
    /// `while (cond) body`; children are `[cond, body]`.
    While,
}

/// One node of the syntax tree.
#[derive(Clone, Debug)]
pub struct Node {
    pub kind: NodeKind,
    /// Character offset of the first character the node spans.
    pub start: usize,
    /// Character offset one past the last character the node spans.
    pub end: usize,
    /// The characters of the source text between `start` and `end`.
    pub text: Vec<char>,
    /// Arena indices of the children, in source order.
    pub children: Vec<usize>,
}

/// A parsed source file: the node arena, the source characters, the ranges
/// of the comments (comments are not nodes), and the ranges of the
/// non-trivia tokens, kept so that a comment can be recognised as attached
/// to a node's range.
#[derive(Clone, Debug)]
pub struct SyntaxTree {
    pub nodes: Vec<Node>,
    pub text: Vec<char>,
    /// `(start, end)` character ranges of every comment, in source order.
    pub comments: Vec<(usize, usize)>,
    /// `(start, end)` character ranges of the non-newline tokens.
    pub tokens: Vec<(usize, usize)>,
}

/// Structural soundness of the node at index `i` of an arena whose source
/// text is `text`: children come before their parent, are ordered and span
/// disjoint subranges of the parent's range, and the stored text is the
/// spanned slice of the source.
pub open spec fn node_ok(nodes: Seq<Node>, text: Seq<char>, i: int) -> bool {
    let n = nodes[i];
    &&& n.start <= n.end <= text.len()
    &&& n.text@ == text.subrange(n.start as int, n.end as int)
    &&& forall|k: int|
        0 <= k < n.children@.len() ==> (#[trigger] n.children@[k] as int) < i
    &&& forall|k1: int, k2: int|
        0 <= k1 < k2 < n.children@.len() ==> #[trigger] n.children@[k1] < #[trigger] n.children@[k2]
    &&& forall|k: int|
        0 <= k < n.children@.len() ==> n.start <= nodes[#[trigger] n.children@[k] as int].start
            && nodes[n.children@[k] as int].end <= n.end
    &&& forall|k1: int, k2: int|
        0 <= k1 < k2 < n.children@.len() ==> nodes[#[trigger] n.children@[k1] as int].end
            <= nodes[#[trigger] n.children@[k2] as int].start
}

/// A well-formed syntax tree: at least the root node, every node sound, and
/// every comment range inside the text.
pub open spec fn tree_wf(t: SyntaxTree) -> bool {
    &&& t.nodes@.len() >= 1
    &&& forall|i: int| 0 <= i < t.nodes@.len() ==> node_ok(t.nodes@, t.text@, i)
    &&& forall|i: int|
        0 <= i < t.comments@.len() ==> (#[trigger] t.comments@[i]).0 <= t.comments@[i].1
            <= t.text@.len()
    &&& forall|i: int|
        0 <= i < t.tokens@.len() ==> (#[trigger] t.tokens@[i]).0 <= t.tokens@[i].1
            <= t.text@.len()
}

impl SyntaxTree {
    /// The arena index of the root node.
    pub open spec fn spec_root(self) -> int {
        self.nodes@.len() - 1
    }

    pub fn root(&self) -> (r: usize)
        requires
            self.nodes@.len() >= 1,
        ensures
            r as int == self.spec_root(),
    {
        self.nodes.len() - 1
    }

    /// Checks every structural invariant of a candidate arena and wraps it
    /// into a tree; returns `None` when any check fails, so a returned tree
    /// is always well-formed.
    #[verifier::rlimit(50)]
    pub fn assemble(
        nodes: Vec<Node>,
        text: Vec<char>,
        comments: Vec<(usize, usize)>,
        tokens: Vec<(usize, usize)>,
    ) -> (r: Option<SyntaxTree>)
        ensures
            r is Some ==> tree_wf(r->Some_0) && r->Some_0.nodes@ == nodes@ && r->Some_0.text@
                == text@ && r->Some_0.comments@ == comments@ && r->Some_0.tokens@ == tokens@,
    {
        if nodes.len() == 0 {
            return None;
        }
        let mut i: usize = 0;
        while i < nodes.len()
            invariant
                i <= nodes@.len(),
                forall|j: int| 0 <= j < i ==> node_ok(nodes@, text@, j),
            decreases nodes@.len() - i,
        {
            if !check_node(&nodes, &text, i) {
                return None;
            }
            i += 1;
        }
        let mut c: usize = 0;
        while c < comments.len()
            invariant
                c <= comments@.len(),
                forall|j: int|
                    0 <= j < c ==> (#[trigger] comments@[j]).0 <= comments@[j].1 <= text@.len(),
            decreases comments@.len() - c,
        {
            let (cs, ce) = comments[c];
            if !(cs <= ce && ce <= text.len()) {
                return None;
            }
            c += 1;
        }
        let mut k: usize = 0;
        while k < tokens.len()
            invariant
                k <= tokens@.len(),
                forall|j: int|
                    0 <= j < k ==> (#[trigger] tokens@[j]).0 <= tokens@[j].1 <= text@.len(),
            decreases tokens@.len() - k,
        {
            let (ts, te) = tokens[k];
            if !(ts <= te && te <= text.len()) {
                return None;
            }
            k += 1;
        }
        Some(SyntaxTree { nodes, text, comments, tokens })
    }

    /// The kind tag of the node at `i`.
    pub open spec fn kind(self, i: int) -> NodeKind {
        self.nodes@[i].kind
    }

    /// The number of children of the node at `i`.
    pub open spec fn n_child(self, i: int) -> int {
        self.nodes@[i].children@.len() as int
    }

    /// The `k`-th child of the node at `i`.
    pub open spec fn child(self, i: int, k: int) -> int {
        self.nodes@[i].children@[k] as int
    }

    /// The stored text of the node at `i`.
    pub open spec fn text_of(self, i: int) -> Seq<char> {
        self.nodes@[i].text@
    }

    pub open spec fn start_of(self, i: int) -> int {
        self.nodes@[i].start as int
    }

    pub open spec fn end_of(self, i: int) -> int {
        self.nodes@[i].end as int
    }

    pub fn kind_at(&self, i: usize) -> (r: NodeKind)
        requires
            i < self.nodes@.len(),
        ensures
            r == self.kind(i as int),
    {
        self.nodes[i].kind
    }

    pub fn n_child_at(&self, i: usize) -> (r: usize)
        requires
            i < self.nodes@.len(),
        ensures
            r as int == self.n_child(i as int),
    {
        self.nodes[i].children.len()
    }

    /// Fetches a child index; well-formedness bounds it below its parent.
    pub fn child_at(&self, i: usize, k: usize) -> (r: usize)
        requires
            tree_wf(*self),
            i < self.nodes@.len(),
            k < self.n_child(i as int),
        ensures
            r as int == self.child(i as int, k as int),
            r < i,
    {
        proof {
            assert(node_ok(self.nodes@, self.text@, i as int));
        }
        self.nodes[i].children[k]
    }

    pub fn start_at(&self, i: usize) -> (r: usize)
        requires
            i < self.nodes@.len(),
        ensures
            r as int == self.start_of(i as int),
    {
        self.nodes[i].start
    }

    pub fn end_at(&self, i: usize) -> (r: usize)
        requires
            i < self.nodes@.len(),
        ensures
            r as int == self.end_of(i as int),
    {
        self.nodes[i].end
    }

    /// Does the node's text equal the given string?
    pub fn text_is(&self, i: usize, s: &str) -> (r: bool)
        requires
            i < self.nodes@.len(),
        ensures
            r == (self.text_of(i as int) == s@),
    {
        crate::text::chars_match_str(&self.nodes[i].text, s)
    }

    /// The end of the last token ending at or before position `s`, or 0.
    pub open spec fn spec_prev_anchor(toks: Seq<(usize, usize)>, s: int) -> int
        decreases toks.len(),
    {
        if toks.len() == 0 {
            0
        } else {
            let p = Self::spec_prev_anchor(toks.drop_last(), s);
            if toks.last().1 <= s && toks.last().1 > p {
                toks.last().1 as int
            } else {
                p
            }
        }
    }

    /// The start of the first token starting at or after position `e`, or
    /// the text length.
    pub open spec fn spec_next_anchor(toks: Seq<(usize, usize)>, e: int, len: int) -> int
        decreases toks.len(),
    {
        if toks.len() == 0 {
            len
        } else {
            let p = Self::spec_next_anchor(toks.drop_last(), e, len);
            if toks.last().0 >= e && (toks.last().0 as int) < p {
                toks.last().0 as int
            } else {
                p
            }
        }
    }

    /// Is some comment attached to the range `[s, e)`: inside it, or in the
    /// token-free region immediately before or after it?
    pub open spec fn spec_comment_attached(self, s: int, e: int) -> bool {
        exists|ci: int|
            0 <= ci < self.comments@.len() && (#[trigger] self.comments@[ci]).0
                >= Self::spec_prev_anchor(self.tokens@, s) && self.comments@[ci].1
                <= Self::spec_next_anchor(self.tokens@, e, self.text@.len() as int)
    }

    /// Decides `spec_comment_attached` for the range `[s, e)`.
    pub fn comment_attached(&self, s: usize, e: usize) -> (r: bool)
        ensures
            r == self.spec_comment_attached(s as int, e as int),
    {
        let mut lo: usize = 0;
        let mut i: usize = 0;
        while i < self.tokens.len()
            invariant
                i <= self.tokens@.len(),
                lo as int == Self::spec_prev_anchor(self.tokens@.subrange(0, i as int), s as int),
            decreases self.tokens@.len() - i,
        {
            let ghost pre = self.tokens@.subrange(0, i as int);
            proof {
                let post = self.tokens@.subrange(0, i + 1 as int);
                assert(post.drop_last() =~= pre);
                assert(post.last() == self.tokens@[i as int]);
            }
            let (_ts, te) = self.tokens[i];
            if te <= s && te > lo {
                lo = te;
            }
            i += 1;
        }
        let len = self.text.len();
        let mut hi: usize = len;
        let mut i: usize = 0;
        while i < self.tokens.len()
            invariant
                i <= self.tokens@.len(),
                hi as int == Self::spec_next_anchor(
                    self.tokens@.subrange(0, i as int),
                    e as int,
                    self.text@.len() as int,
                ),
            decreases self.tokens@.len() - i,
        {
            let ghost pre = self.tokens@.subrange(0, i as int);
            proof {
                let post = self.tokens@.subrange(0, i + 1 as int);
                assert(post.drop_last() =~= pre);
                assert(post.last() == self.tokens@[i as int]);
            }
            let (ts, _te) = self.tokens[i];
            if ts >= e && ts < hi {
                hi = ts;
            }
            i += 1;
        }
        proof {
            assert(self.tokens@.subrange(0, self.tokens@.len() as int) =~= self.tokens@);
        }
        let mut ci: usize = 0;
        while ci < self.comments.len()
            invariant
                ci <= self.comments@.len(),
                lo as int == Self::spec_prev_anchor(self.tokens@, s as int),
                hi as int == Self::spec_next_anchor(
                    self.tokens@,
                    e as int,
                    self.text@.len() as int,
                ),
                forall|j: int|
                    0 <= j < ci ==> !((#[trigger] self.comments@[j]).0 >= lo
                        && self.comments@[j].1 <= hi),
            decreases self.comments@.len() - ci,
        {
            let (cs, ce) = self.comments[ci];
            if cs >= lo && ce <= hi {
                return true;
            }
            ci += 1;
        }
        false
    }
}

/// Checks `node_ok` for the node at index `i`.
#[verifier::rlimit(50)]
fn check_node(nodes: &Vec<Node>, text: &Vec<char>, i: usize) -> (r: bool)
    requires
        i < nodes@.len(),
    ensures
        r ==> node_ok(nodes@, text@, i as int),
{
    let n = &nodes[i];
    if !(n.start <= n.end && n.end <= text.len()) {
        return false;
    }
    if n.text.len() != n.end - n.start {
        return false;
    }
    let mut k: usize = 0;
    while k < n.text.len()
        invariant
            n == nodes@[i as int],
            n.start <= n.end <= text@.len(),
            n.text@.len() == n.end - n.start,
            k <= n.text@.len(),
            forall|j: int| 0 <= j < k ==> n.text@[j] == text@[n.start + j],
        decreases n.text@.len() - k,
    {
        if n.text[k] != text[n.start + k] {
            return false;
        }
        k += 1;
    }
    proof {
        assert(n.text@ =~= text@.subrange(n.start as int, n.end as int));
    }
    let mut k: usize = 0;
    while k < n.children.len()
        invariant
            n == nodes@[i as int],
            i < nodes@.len(),
            k <= n.children@.len(),
            forall|j: int| 0 <= j < k ==> (#[trigger] n.children@[j] as int) < i,
            forall|j1: int, j2: int|
                0 <= j1 < j2 < k ==> #[trigger] n.children@[j1] < #[trigger] n.children@[j2],
            forall|j: int|
                0 <= j < k ==> n.start <= nodes@[#[trigger] n.children@[j] as int].start
                    && nodes@[n.children@[j] as int].end <= n.end,
            forall|j1: int, j2: int|
                0 <= j1 < j2 < k ==> nodes@[#[trigger] n.children@[j1] as int].end
                    <= nodes@[#[trigger] n.children@[j2] as int].start,
        decreases n.children@.len() - k,
    {
        let c = n.children[k];
        if !(c < i) {
            return false;
        }
        if !(n.start <= nodes[c].start && nodes[c].end <= n.end) {
            return false;
        }
        let mut l: usize = 0;
        while l < k
            invariant
                n == nodes@[i as int],
                i < nodes@.len(),
                l <= k < n.children@.len(),
                c == n.children@[k as int],
                c < i,
                forall|j: int| 0 <= j < k ==> (#[trigger] n.children@[j] as int) < i,
                forall|j: int| 0 <= j < l ==> #[trigger] n.children@[j] < c,
                forall|j: int|
                    0 <= j < l ==> nodes@[#[trigger] n.children@[j] as int].end
                        <= nodes@[c as int].start,
            decreases k - l,
        {
            let p = n.children[l];
            if !(p < c) {
                return false;
            }
            if !(nodes[p].end <= nodes[c].start) {
                return false;
            }
            l += 1;
        }
        k += 1;
    }
    true
}

} // verus!

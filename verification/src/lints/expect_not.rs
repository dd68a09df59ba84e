//! `expect_true(!x)` is not as clear as `expect_false(x)` (and likewise
//! with the roles swapped).

use vstd::prelude::*;
use crate::check::{call_named, diag_v, fix_v, is_call_named, make_diag, make_fix, rule_ctx};
use crate::message::{Message, MessageV, MsgKind};
use crate::syntax::{node_ok, NodeKind, SyntaxTree};
use crate::text::{push_range, push_str_chars};

verus! {

/// The value of the call's single argument, which may be positional or
/// named `object`; -1 when there is none.
pub open spec fn sole_arg_value(t: SyntaxTree, i: int) -> int {
    let a = t.child(i, 1);
    if t.kind(a) == NodeKind::Arg && t.n_child(a) == 1 {
        t.child(a, 0)
    } else if t.kind(a) == NodeKind::NamedArg && t.n_child(a) == 2 && t.text_of(t.child(a, 0))
        == "object"@ {
        t.child(a, 1)
    } else {
        -1
    }
}

/// Is `j` a `!` negation?
pub open spec fn is_bang(t: SyntaxTree, j: int) -> bool {
    &&& t.kind(j) == NodeKind::Unary
    &&& t.n_child(j) == 2
    &&& t.text_of(t.child(j, 0)) == "!"@
}

#[verifier::opaque]
pub open spec fn fires(t: SyntaxTree, i: int) -> bool {
    &&& (is_call_named(t, i, "expect_true"@) || is_call_named(t, i, "expect_false"@))
    &&& t.n_child(i) == 2
    &&& sole_arg_value(t, i) >= 0
    &&& is_bang(t, sole_arg_value(t, i))
    &&& !is_bang(t, t.child(sole_arg_value(t, i), 1))
}

/// The negated operand, with redundant outer parentheses dropped.
pub open spec fn inner_node(t: SyntaxTree, i: int) -> int {
    let w = t.child(sole_arg_value(t, i), 1);
    if t.kind(w) == NodeKind::Parens && t.n_child(w) == 1 {
        t.child(w, 0)
    } else {
        w
    }
}

#[verifier::opaque]
pub open spec fn msg(t: SyntaxTree, i: int, file: Seq<char>) -> MessageV {
    let s = t.nodes@[i].start;
    let e = t.nodes@[i].end;
    let opp = if is_call_named(t, i, "expect_true"@) {
        "expect_false"@
    } else {
        "expect_true"@
    };
    let content = opp + "("@ + t.text_of(inner_node(t, i)) + ")"@;
    MessageV {
        kind: MsgKind::ExpectNot,
        diag: diag_v(t, file, s, e, Some(fix_v(t, content, s, e))),
    }
}

pub fn check(t: &SyntaxTree, i: usize, file: &str, new_lines: &Vec<usize>) -> (r: Option<
    Message,
>)
    requires
        rule_ctx(*t, i as int, new_lines@),
    ensures
        r is Some <==> fires(*t, i as int),
        r is Some ==> r->Some_0@ == msg(*t, i as int, file@),
{
    proof {
        reveal(fires);
        reveal(msg);
    }
    let is_true_call = call_named(t, i, "expect_true");
    let is_false_call = call_named(t, i, "expect_false");
    if !(is_true_call || is_false_call) {
        return None;
    }
    if t.n_child_at(i) != 2 {
        return None;
    }
    proof {
        assert(node_ok(t.nodes@, t.text@, i as int));
    }
    let a = t.child_at(i, 1);
    proof {
        assert(node_ok(t.nodes@, t.text@, a as int));
    }
    let v: usize;
    if t.kind_at(a) == NodeKind::Arg && t.n_child_at(a) == 1 {
        v = t.child_at(a, 0);
    } else if t.kind_at(a) == NodeKind::NamedArg && t.n_child_at(a) == 2 && t.text_is(
        t.child_at(a, 0),
        "object",
    ) {
        v = t.child_at(a, 1);
    } else {
        return None;
    }
    proof {
        assert(v as int == sole_arg_value(*t, i as int));
    }
    if !(t.kind_at(v) == NodeKind::Unary && t.n_child_at(v) == 2) {
        return None;
    }
    proof {
        assert(node_ok(t.nodes@, t.text@, v as int));
    }
    if !t.text_is(t.child_at(v, 0), "!") {
        return None;
    }
    let w = t.child_at(v, 1);
    proof {
        assert(node_ok(t.nodes@, t.text@, w as int));
    }
    if t.kind_at(w) == NodeKind::Unary && t.n_child_at(w) == 2 && t.text_is(t.child_at(w, 0), "!")
    {
        return None;
    }
    let inner: usize;
    if t.kind_at(w) == NodeKind::Parens && t.n_child_at(w) == 1 {
        inner = t.child_at(w, 0);
    } else {
        inner = w;
    }
    proof {
        assert(inner as int == inner_node(*t, i as int));
        assert(node_ok(t.nodes@, t.text@, inner as int));
    }
    let mut buf: Vec<char> = Vec::new();
    if is_true_call {
        push_str_chars(&mut buf, "expect_false");
    } else {
        push_str_chars(&mut buf, "expect_true");
    }
    push_str_chars(&mut buf, "(");
    push_range(&mut buf, &t.nodes[inner].text, 0, t.nodes[inner].text.len());
    push_str_chars(&mut buf, ")");
    proof {
        if is_call_named(*t, i as int, "expect_true"@) {
            assert(buf@ =~= "expect_false"@ + "("@ + t.text_of(inner as int) + ")"@);
        } else {
            assert(buf@ =~= "expect_true"@ + "("@ + t.text_of(inner as int) + ")"@);
        }
    }
    let s = t.start_at(i);
    let e = t.end_at(i);
    let fix = make_fix(t, &buf, s, e);
    Some(Message::ExpectNot(make_diag(Ghost(*t), file, new_lines, s, e, Some(fix))))
}

} // verus!

//! Comparing with `TRUE` or `FALSE` via `==` or `!=` is redundant.

use vstd::prelude::*;
use crate::check::{diag_v, fix_v, is_binary, make_diag, make_fix, op_text, rule_ctx};
use crate::message::{Message, MessageV, MsgKind};
use crate::syntax::{node_ok, NodeKind, SyntaxTree};
use crate::text::{push_range, push_str_chars};

verus! {

/// Is node `j` the identifier `TRUE` or `FALSE`?
pub open spec fn is_bool_lit(t: SyntaxTree, j: int) -> bool {
    t.kind(j) == NodeKind::Ident && (t.text_of(j) == "TRUE"@ || t.text_of(j) == "FALSE"@)
}

#[verifier::opaque]
pub open spec fn fires(t: SyntaxTree, i: int) -> bool {
    &&& is_binary(t, i)
    &&& (op_text(t, i) == "=="@ || op_text(t, i) == "!="@)
    &&& (is_bool_lit(t, t.child(i, 0)) || is_bool_lit(t, t.child(i, 2)))
}

/// The literal operand (the right-hand one when both are literals).
pub open spec fn lit_side(t: SyntaxTree, i: int) -> int {
    if is_bool_lit(t, t.child(i, 2)) {
        2int
    } else {
        0int
    }
}

/// Does the rewrite need a negation?
pub open spec fn negated(t: SyntaxTree, i: int) -> bool {
    let lit_true = t.text_of(t.child(i, lit_side(t, i))) == "TRUE"@;
    if op_text(t, i) == "=="@ {
        !lit_true
    } else {
        lit_true
    }
}

/// The whole comparison's range; the fix keeps only the other operand,
/// negated when needed.
#[verifier::opaque]
pub open spec fn msg(t: SyntaxTree, i: int, file: Seq<char>) -> MessageV {
    let other = t.child(i, 2 - lit_side(t, i));
    let s = t.nodes@[i].start;
    let e = t.nodes@[i].end;
    let content = if negated(t, i) {
        "!"@ + t.text_of(other)
    } else {
        t.text_of(other)
    };
    MessageV {
        kind: MsgKind::RedundantEquals,
        diag: diag_v(t, file, s, e, Some(fix_v(t, content, s, e))),
    }
}

pub fn check(t: &SyntaxTree, i: usize, file: &str, new_lines: &Vec<usize>) -> (r: Option<
    Message,
>)
    requires
        rule_ctx(*t, i as int, new_lines@),
    ensures
        r is Some <==> fires(*t, i as int),
        r is Some ==> r->Some_0@ == msg(*t, i as int, file@),
{
    proof {
        reveal(fires);
        reveal(msg);
    }
    if !(t.kind_at(i) == NodeKind::Binary && t.n_child_at(i) == 3) {
        return None;
    }
    let lhs = t.child_at(i, 0);
    let op = t.child_at(i, 1);
    let rhs = t.child_at(i, 2);
    if !(t.text_is(op, "==") || t.text_is(op, "!=")) {
        return None;
    }
    let rhs_lit = t.kind_at(rhs) == NodeKind::Ident && (t.text_is(rhs, "TRUE") || t.text_is(
        rhs,
        "FALSE",
    ));
    let lhs_lit = t.kind_at(lhs) == NodeKind::Ident && (t.text_is(lhs, "TRUE") || t.text_is(
        lhs,
        "FALSE",
    ));
    if !(rhs_lit || lhs_lit) {
        return None;
    }
    let (lit, other) = if rhs_lit {
        (rhs, lhs)
    } else {
        (lhs, rhs)
    };
    let lit_true = t.text_is(lit, "TRUE");
    let neg = if t.text_is(op, "==") {
        !lit_true
    } else {
        lit_true
    };
    proof {
        assert(node_ok(t.nodes@, t.text@, i as int));
        assert(node_ok(t.nodes@, t.text@, other as int));
    }
    let mut buf: Vec<char> = Vec::new();
    if neg {
        push_str_chars(&mut buf, "!");
    }
    push_range(&mut buf, &t.nodes[other].text, 0, t.nodes[other].text.len());
    proof {
        if negated(*t, i as int) {
            assert(buf@ =~= "!"@ + t.text_of(other as int));
        } else {
            assert(buf@ =~= t.text_of(other as int));
        }
    }
    let s = t.start_at(i);
    let e = t.end_at(i);
    let fix = make_fix(t, &buf, s, e);
    Some(Message::RedundantEquals(make_diag(Ghost(*t), file, new_lines, s, e, Some(fix))))
}

} // verus!

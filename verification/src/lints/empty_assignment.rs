//! Assigning an empty `{}` block; assign `NULL` explicitly instead.

use vstd::prelude::*;
use crate::check::{diag_v, fix_v, is_binary, make_diag, make_fix, op_text, rule_ctx};
use crate::message::{Message, MessageV, MsgKind};
use crate::syntax::{node_ok, NodeKind, SyntaxTree};
use crate::text::{push_range, push_str_chars};

verus! {

/// Which side of the assignment is the target, if this is an assignment of
/// an empty braces block: 0 for the left-hand side, 2 for the right-hand
/// side, -1 when the rule does not apply.
pub open spec fn target_side(t: SyntaxTree, i: int) -> int {
    if !is_binary(t, i) {
        -1
    } else if (op_text(t, i) == "<-"@ || op_text(t, i) == "<<-"@ || op_text(t, i) == "="@)
        && t.kind(t.child(i, 2)) == NodeKind::Braces && t.n_child(t.child(i, 2)) == 0 {
        0
    } else if (op_text(t, i) == "->"@ || op_text(t, i) == "->>"@) && t.kind(t.child(i, 0))
        == NodeKind::Braces && t.n_child(t.child(i, 0)) == 0 {
        2
    } else {
        -1
    }
}

#[verifier::opaque]
pub open spec fn fires(t: SyntaxTree, i: int) -> bool {
    target_side(t, i) >= 0
}

/// The whole assignment's range; the fix assigns `NULL` to the target.
#[verifier::opaque]
pub open spec fn msg(t: SyntaxTree, i: int, file: Seq<char>) -> MessageV {
    let target = t.child(i, target_side(t, i));
    let s = t.nodes@[i].start;
    let e = t.nodes@[i].end;
    MessageV {
        kind: MsgKind::EmptyAssignment,
        diag: diag_v(t, file, s, e, Some(fix_v(t, t.text_of(target) + " <- NULL"@, s, e))),
    }
}

pub fn check(t: &SyntaxTree, i: usize, file: &str, new_lines: &Vec<usize>) -> (r: Option<
    Message,
>)
    requires
        rule_ctx(*t, i as int, new_lines@),
    ensures
        r is Some <==> fires(*t, i as int),
        r is Some ==> r->Some_0@ == msg(*t, i as int, file@),
{
    proof {
        reveal(fires);
        reveal(msg);
    }
    if !(t.kind_at(i) == NodeKind::Binary && t.n_child_at(i) == 3) {
        return None;
    }
    let lhs = t.child_at(i, 0);
    let op = t.child_at(i, 1);
    let rhs = t.child_at(i, 2);
    let left_arrow = t.text_is(op, "<-") || t.text_is(op, "<<-") || t.text_is(op, "=");
    let right_arrow = t.text_is(op, "->") || t.text_is(op, "->>");
    let target: usize;
    if left_arrow && t.kind_at(rhs) == NodeKind::Braces && t.n_child_at(rhs) == 0 {
        target = lhs;
    } else if right_arrow && t.kind_at(lhs) == NodeKind::Braces && t.n_child_at(lhs) == 0 {
        target = rhs;
    } else {
        return None;
    }
    proof {
        assert(node_ok(t.nodes@, t.text@, i as int));
        assert(node_ok(t.nodes@, t.text@, target as int));
    }
    let mut buf: Vec<char> = Vec::new();
    push_range(&mut buf, &t.nodes[target].text, 0, t.nodes[target].text.len());
    push_str_chars(&mut buf, " <- NULL");
    proof {
        assert(buf@ =~= t.text_of(target as int) + " <- NULL"@);
    }
    let s = t.start_at(i);
    let e = t.end_at(i);
    let fix = make_fix(t, &buf, s, e);
    Some(Message::EmptyAssignment(make_diag(Ghost(*t), file, new_lines, s, e, Some(fix))))
}

} // verus!

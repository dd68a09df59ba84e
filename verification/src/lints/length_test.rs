//! `length(x != 0)` checks the length of a logical vector; the comparison
//! was almost certainly meant to apply to the length itself.

use vstd::prelude::*;
use crate::check::{
    arg_value, call_named, diag_v, fix_v, is_binary, is_call_named, is_cmp_op, is_value_arg,
    make_diag, make_fix, op_text, rule_ctx,
};
use crate::message::{Message, MessageV, MsgKind};
use crate::syntax::{node_ok, NodeKind, SyntaxTree};
use crate::text::{push_range, push_str_chars};

verus! {

#[verifier::opaque]
pub open spec fn fires(t: SyntaxTree, i: int) -> bool {
    &&& is_call_named(t, i, "length"@)
    &&& t.n_child(i) == 2
    &&& is_value_arg(t, i, 1)
    &&& is_binary(t, arg_value(t, i, 1))
    &&& is_cmp_op(op_text(t, arg_value(t, i, 1)))
}

/// The fix moves the comparison outside: `length(lhs) op rhs`.
#[verifier::opaque]
pub open spec fn msg(t: SyntaxTree, i: int, file: Seq<char>) -> MessageV {
    let v = arg_value(t, i, 1);
    let s = t.nodes@[i].start;
    let e = t.nodes@[i].end;
    let content = "length("@ + t.text_of(t.child(v, 0)) + ") "@ + op_text(t, v) + " "@
        + t.text_of(t.child(v, 2));
    MessageV {
        kind: MsgKind::LengthTest,
        diag: diag_v(t, file, s, e, Some(fix_v(t, content, s, e))),
    }
}

pub fn check(t: &SyntaxTree, i: usize, file: &str, new_lines: &Vec<usize>) -> (r: Option<
    Message,
>)
    requires
        rule_ctx(*t, i as int, new_lines@),
    ensures
        r is Some <==> fires(*t, i as int),
        r is Some ==> r->Some_0@ == msg(*t, i as int, file@),
{
    proof {
        reveal(fires);
        reveal(msg);
    }
    if !call_named(t, i, "length") {
        return None;
    }
    if t.n_child_at(i) != 2 {
        return None;
    }
    proof {
        assert(node_ok(t.nodes@, t.text@, i as int));
    }
    let a = t.child_at(i, 1);
    if !(t.kind_at(a) == NodeKind::Arg && t.n_child_at(a) == 1) {
        return None;
    }
    proof {
        assert(node_ok(t.nodes@, t.text@, a as int));
    }
    let v = t.child_at(a, 0);
    if !(t.kind_at(v) == NodeKind::Binary && t.n_child_at(v) == 3) {
        return None;
    }
    proof {
        assert(node_ok(t.nodes@, t.text@, v as int));
    }
    let lhs = t.child_at(v, 0);
    let op = t.child_at(v, 1);
    let rhs = t.child_at(v, 2);
    if !(t.text_is(op, "==") || t.text_is(op, "!=") || t.text_is(op, "<") || t.text_is(op, ">")
        || t.text_is(op, "<=") || t.text_is(op, ">=")) {
        return None;
    }
    proof {
        assert(node_ok(t.nodes@, t.text@, lhs as int));
        assert(node_ok(t.nodes@, t.text@, op as int));
        assert(node_ok(t.nodes@, t.text@, rhs as int));
        assert(v as int == arg_value(*t, i as int, 1));
    }
    let mut buf: Vec<char> = Vec::new();
    push_str_chars(&mut buf, "length(");
    push_range(&mut buf, &t.nodes[lhs].text, 0, t.nodes[lhs].text.len());
    push_str_chars(&mut buf, ") ");
    push_range(&mut buf, &t.nodes[op].text, 0, t.nodes[op].text.len());
    push_str_chars(&mut buf, " ");
    push_range(&mut buf, &t.nodes[rhs].text, 0, t.nodes[rhs].text.len());
    proof {
        assert(buf@ =~= "length("@ + t.text_of(lhs as int) + ") "@ + op_text(*t, v as int) + " "@
            + t.text_of(rhs as int));
    }
    let s = t.start_at(i);
    let e = t.end_at(i);
    let fix = make_fix(t, &buf, s, e);
    Some(Message::LengthTest(make_diag(Ghost(*t), file, new_lines, s, e, Some(fix))))
}

} // verus!

//! `class(x) == "..."` fails for objects with several classes; use
//! `inherits(x, "...")` instead.

use vstd::prelude::*;
use crate::check::{
    arg_value, call_named, diag_v, find_value_arg, first_value_arg, fix_v, is_binary,
    is_call_named, make_diag, make_fix, op_text, rule_ctx,
};
use crate::message::{Message, MessageV, MsgKind};
use crate::syntax::{node_ok, NodeKind, SyntaxTree};
use crate::text::{push_range, push_str_chars};

verus! {

#[verifier::opaque]
pub open spec fn fires(t: SyntaxTree, i: int) -> bool {
    &&& is_binary(t, i)
    &&& (op_text(t, i) == "=="@ || op_text(t, i) == "!="@)
    &&& is_call_named(t, t.child(i, 0), "class"@)
    &&& first_value_arg(t, t.child(i, 0), 1) >= 0
    &&& t.kind(t.child(i, 2)) == NodeKind::Str
}

/// The value handed to `class`.
pub open spec fn class_value(t: SyntaxTree, i: int) -> int {
    let c = t.child(i, 0);
    arg_value(t, c, first_value_arg(t, c, 1))
}

#[verifier::opaque]
pub open spec fn msg(t: SyntaxTree, i: int, file: Seq<char>) -> MessageV {
    let s = t.nodes@[i].start;
    let e = t.nodes@[i].end;
    let body = "inherits("@ + t.text_of(class_value(t, i)) + ", "@ + t.text_of(t.child(i, 2))
        + ")"@;
    let content = if op_text(t, i) == "!="@ {
        "!"@ + body
    } else {
        body
    };
    MessageV {
        kind: MsgKind::ClassEquals,
        diag: diag_v(t, file, s, e, Some(fix_v(t, content, s, e))),
    }
}

pub fn check(t: &SyntaxTree, i: usize, file: &str, new_lines: &Vec<usize>) -> (r: Option<
    Message,
>)
    requires
        rule_ctx(*t, i as int, new_lines@),
    ensures
        r is Some <==> fires(*t, i as int),
        r is Some ==> r->Some_0@ == msg(*t, i as int, file@),
{
    proof {
        reveal(fires);
        reveal(msg);
    }
    if !(t.kind_at(i) == NodeKind::Binary && t.n_child_at(i) == 3) {
        return None;
    }
    let lhs = t.child_at(i, 0);
    let op = t.child_at(i, 1);
    let rhs = t.child_at(i, 2);
    if !(t.text_is(op, "==") || t.text_is(op, "!=")) {
        return None;
    }
    if !call_named(t, lhs, "class") {
        return None;
    }
    let j = match find_value_arg(t, lhs, 1) {
        Some(j) => j,
        None => {
            return None;
        },
    };
    if t.kind_at(rhs) != NodeKind::Str {
        return None;
    }
    proof {
        assert(node_ok(t.nodes@, t.text@, i as int));
        assert(node_ok(t.nodes@, t.text@, lhs as int));
    }
    let an = t.child_at(lhs, j);
    proof {
        assert(node_ok(t.nodes@, t.text@, an as int));
    }
    let v = t.child_at(an, 0);
    proof {
        assert(v as int == class_value(*t, i as int));
        assert(node_ok(t.nodes@, t.text@, v as int));
        assert(node_ok(t.nodes@, t.text@, rhs as int));
    }
    let neg = t.text_is(op, "!=");
    let mut buf: Vec<char> = Vec::new();
    if neg {
        push_str_chars(&mut buf, "!");
    }
    push_str_chars(&mut buf, "inherits(");
    push_range(&mut buf, &t.nodes[v].text, 0, t.nodes[v].text.len());
    push_str_chars(&mut buf, ", ");
    push_range(&mut buf, &t.nodes[rhs].text, 0, t.nodes[rhs].text.len());
    push_str_chars(&mut buf, ")");
    proof {
        let body = "inherits("@ + t.text_of(v as int) + ", "@ + t.text_of(rhs as int) + ")"@;
        if op_text(*t, i as int) == "!="@ {
            assert(buf@ =~= "!"@ + body);
        } else {
            assert(buf@ =~= body);
        }
    }
    let s = t.start_at(i);
    let e = t.end_at(i);
    let fix = make_fix(t, &buf, s, e);
    Some(Message::ClassEquals(make_diag(Ghost(*t), file, new_lines, s, e, Some(fix))))
}

} // verus!

//! `expect_equal(names(x), n)` reads better as `expect_named(x, n)`.

use vstd::prelude::*;
use crate::check::{
    arg_value, call_named, diag_v, find_value_arg, first_value_arg, fix_v, is_call_named,
    is_value_arg, make_diag, make_fix, rule_ctx,
};
use crate::message::{Message, MessageV, MsgKind};
use crate::syntax::{node_ok, NodeKind, SyntaxTree};
use crate::text::{push_range, push_str_chars};

verus! {

/// The first two positional arguments of the call.
pub open spec fn k1(t: SyntaxTree, i: int) -> int {
    first_value_arg(t, i, 1)
}

pub open spec fn k2(t: SyntaxTree, i: int) -> int {
    first_value_arg(t, i, k1(t, i) + 1)
}

#[verifier::opaque]
pub open spec fn fires(t: SyntaxTree, i: int) -> bool {
    &&& (is_call_named(t, i, "expect_equal"@) || is_call_named(t, i, "expect_identical"@))
    &&& k1(t, i) >= 0
    &&& k2(t, i) >= 0
    &&& is_call_named(t, arg_value(t, i, k1(t, i)), "names"@)
    &&& t.n_child(arg_value(t, i, k1(t, i))) == 2
    &&& is_value_arg(t, arg_value(t, i, k1(t, i)), 1)
    &&& !is_call_named(t, arg_value(t, i, k2(t, i)), "names"@)
}

/// The fix rewrites to `expect_named(<x>, <n>)`, where `<x>` is the value
/// inside `names(...)`.
#[verifier::opaque]
pub open spec fn msg(t: SyntaxTree, i: int, file: Seq<char>) -> MessageV {
    let v1 = arg_value(t, i, k1(t, i));
    let x = arg_value(t, v1, 1);
    let v2 = arg_value(t, i, k2(t, i));
    let s = t.nodes@[i].start;
    let e = t.nodes@[i].end;
    let content = "expect_named("@ + t.text_of(x) + ", "@ + t.text_of(v2) + ")"@;
    MessageV {
        kind: MsgKind::ExpectNamed,
        diag: diag_v(t, file, s, e, Some(fix_v(t, content, s, e))),
    }
}

pub fn check(t: &SyntaxTree, i: usize, file: &str, new_lines: &Vec<usize>) -> (r: Option<
    Message,
>)
    requires
        rule_ctx(*t, i as int, new_lines@),
    ensures
        r is Some <==> fires(*t, i as int),
        r is Some ==> r->Some_0@ == msg(*t, i as int, file@),
{
    proof {
        reveal(fires);
        reveal(msg);
    }
    if !(call_named(t, i, "expect_equal") || call_named(t, i, "expect_identical")) {
        return None;
    }
    let nc = t.n_child_at(i);
    let p1 = match find_value_arg(t, i, 1) {
        Some(p) => p,
        None => {
            return None;
        },
    };
    proof {
        assert(p1 < nc);
    }
    let p2 = match find_value_arg(t, i, p1 + 1) {
        Some(p) => p,
        None => {
            return None;
        },
    };
    proof {
        assert(node_ok(t.nodes@, t.text@, i as int));
    }
    let a1 = t.child_at(i, p1);
    proof {
        assert(node_ok(t.nodes@, t.text@, a1 as int));
    }
    let v1 = t.child_at(a1, 0);
    if !call_named(t, v1, "names") {
        return None;
    }
    if t.n_child_at(v1) != 2 {
        return None;
    }
    proof {
        assert(node_ok(t.nodes@, t.text@, v1 as int));
    }
    let xa = t.child_at(v1, 1);
    if !(t.kind_at(xa) == NodeKind::Arg && t.n_child_at(xa) == 1) {
        return None;
    }
    proof {
        assert(node_ok(t.nodes@, t.text@, xa as int));
    }
    let x = t.child_at(xa, 0);
    let a2 = t.child_at(i, p2);
    proof {
        assert(node_ok(t.nodes@, t.text@, a2 as int));
    }
    let v2 = t.child_at(a2, 0);
    if call_named(t, v2, "names") {
        return None;
    }
    proof {
        assert(v1 as int == arg_value(*t, i as int, k1(*t, i as int)));
        assert(v2 as int == arg_value(*t, i as int, k2(*t, i as int)));
        assert(x as int == arg_value(*t, v1 as int, 1));
        assert(node_ok(t.nodes@, t.text@, x as int));
        assert(node_ok(t.nodes@, t.text@, v2 as int));
    }
    let mut buf: Vec<char> = Vec::new();
    push_str_chars(&mut buf, "expect_named(");
    push_range(&mut buf, &t.nodes[x].text, 0, t.nodes[x].text.len());
    push_str_chars(&mut buf, ", ");
    push_range(&mut buf, &t.nodes[v2].text, 0, t.nodes[v2].text.len());
    push_str_chars(&mut buf, ")");
    proof {
        assert(buf@ =~= "expect_named("@ + t.text_of(x as int) + ", "@ + t.text_of(v2 as int)
            + ")"@);
    }
    let s = t.start_at(i);
    let e = t.end_at(i);
    let fix = make_fix(t, &buf, s, e);
    Some(Message::ExpectNamed(make_diag(Ghost(*t), file, new_lines, s, e, Some(fix))))
}

} // verus!

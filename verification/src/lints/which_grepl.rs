//! `which(grepl(pattern, x))` is better written `grep(pattern, x)`.

use vstd::prelude::*;
use crate::check::{
    arg_value, call_named, diag_v, fix_v, is_call_named, is_value_arg, make_diag, make_fix,
    rule_ctx,
};
use crate::message::{Message, MessageV, MsgKind};
use crate::syntax::{node_ok, NodeKind, SyntaxTree};
use crate::text::{push_range, push_str_chars};

verus! {

#[verifier::opaque]
pub open spec fn fires(t: SyntaxTree, i: int) -> bool {
    &&& is_call_named(t, i, "which"@)
    &&& t.n_child(i) == 2
    &&& is_value_arg(t, i, 1)
    &&& is_call_named(t, arg_value(t, i, 1), "grepl"@)
    &&& t.n_child(arg_value(t, i, 1)) >= 2
    &&& args_region_ok(t, arg_value(t, i, 1))
}

/// The source region spanned by all arguments of call `c`, which the fix
/// copies verbatim.
pub open spec fn args_region_ok(t: SyntaxTree, c: int) -> bool {
    t.nodes@[t.child(c, 1)].start <= t.nodes@[t.child(c, t.n_child(c) - 1)].end
}

pub open spec fn args_region(t: SyntaxTree, c: int) -> Seq<char> {
    t.text@.subrange(
        t.nodes@[t.child(c, 1)].start as int,
        t.nodes@[t.child(c, t.n_child(c) - 1)].end as int,
    )
}

#[verifier::opaque]
pub open spec fn msg(t: SyntaxTree, i: int, file: Seq<char>) -> MessageV {
    let s = t.nodes@[i].start;
    let e = t.nodes@[i].end;
    let content = "grep("@ + args_region(t, arg_value(t, i, 1)) + ")"@;
    MessageV {
        kind: MsgKind::WhichGrepl,
        diag: diag_v(t, file, s, e, Some(fix_v(t, content, s, e))),
    }
}

pub fn check(t: &SyntaxTree, i: usize, file: &str, new_lines: &Vec<usize>) -> (r: Option<
    Message,
>)
    requires
        rule_ctx(*t, i as int, new_lines@),
    ensures
        r is Some <==> fires(*t, i as int),
        r is Some ==> r->Some_0@ == msg(*t, i as int, file@),
{
    proof {
        reveal(fires);
        reveal(msg);
    }
    if !call_named(t, i, "which") {
        return None;
    }
    if t.n_child_at(i) != 2 {
        return None;
    }
    proof {
        assert(node_ok(t.nodes@, t.text@, i as int));
    }
    let a = t.child_at(i, 1);
    if !(t.kind_at(a) == NodeKind::Arg && t.n_child_at(a) == 1) {
        return None;
    }
    proof {
        assert(node_ok(t.nodes@, t.text@, a as int));
    }
    let c = t.child_at(a, 0);
    if !call_named(t, c, "grepl") {
        return None;
    }
    let m = t.n_child_at(c);
    if m < 2 {
        return None;
    }
    proof {
        assert(node_ok(t.nodes@, t.text@, c as int));
    }
    let first = t.child_at(c, 1);
    let last = t.child_at(c, m - 1);
    let rs = t.start_at(first);
    let re = t.end_at(last);
    if rs > re {
        return None;
    }
    proof {
        assert(node_ok(t.nodes@, t.text@, last as int));
        assert(c as int == arg_value(*t, i as int, 1));
    }
    let mut buf: Vec<char> = Vec::new();
    push_str_chars(&mut buf, "grep(");
    push_range(&mut buf, &t.text, rs, re);
    push_str_chars(&mut buf, ")");
    proof {
        assert(buf@ =~= "grep("@ + args_region(*t, c as int) + ")"@);
    }
    let s = t.start_at(i);
    let e = t.end_at(i);
    let fix = make_fix(t, &buf, s, e);
    Some(Message::WhichGrepl(make_diag(Ghost(*t), file, new_lines, s, e, Some(fix))))
}

} // verus!

//! `length(levels(x))` is better written `nlevels(x)`.

use vstd::prelude::*;
use crate::check::{
    arg_inner_call, arg_is_inner_call, arg_value, call_named, diag_v, first_value_arg, fix_v,
    inner_call_value, is_call_named, make_diag, make_fix, rule_ctx,
};
use crate::message::{Message, MessageV, MsgKind};
use crate::syntax::{node_ok, SyntaxTree};
use crate::text::{push_range, push_str_chars};

verus! {

#[verifier::opaque]
pub open spec fn fires(t: SyntaxTree, i: int) -> bool {
    &&& is_call_named(t, i, "length"@)
    &&& t.n_child(i) == 2
    &&& arg_is_inner_call(t, i, 1, "levels"@)
}

/// The value handed to `levels`.
pub open spec fn inner_value(t: SyntaxTree, i: int) -> int {
    let c = arg_value(t, i, 1);
    arg_value(t, c, first_value_arg(t, c, 1))
}

#[verifier::opaque]
pub open spec fn msg(t: SyntaxTree, i: int, file: Seq<char>) -> MessageV {
    let s = t.nodes@[i].start;
    let e = t.nodes@[i].end;
    MessageV {
        kind: MsgKind::LengthLevels,
        diag: diag_v(
            t,
            file,
            s,
            e,
            Some(fix_v(t, "nlevels("@ + t.text_of(inner_value(t, i)) + ")"@, s, e)),
        ),
    }
}

pub fn check(t: &SyntaxTree, i: usize, file: &str, new_lines: &Vec<usize>) -> (r: Option<
    Message,
>)
    requires
        rule_ctx(*t, i as int, new_lines@),
    ensures
        r is Some <==> fires(*t, i as int),
        r is Some ==> r->Some_0@ == msg(*t, i as int, file@),
{
    proof {
        reveal(fires);
        reveal(msg);
    }
    if !call_named(t, i, "length") {
        return None;
    }
    if t.n_child_at(i) != 2 {
        return None;
    }
    if !arg_inner_call(t, i, 1, "levels") {
        return None;
    }
    let v = inner_call_value(t, i, 1, Ghost("levels"@));
    proof {
        assert(v as int == inner_value(*t, i as int));
        assert(node_ok(t.nodes@, t.text@, i as int));
    }
    let mut buf: Vec<char> = Vec::new();
    push_str_chars(&mut buf, "nlevels(");
    push_range(&mut buf, &t.nodes[v].text, 0, t.nodes[v].text.len());
    push_str_chars(&mut buf, ")");
    proof {
        assert(buf@ =~= "nlevels("@ + t.text_of(v as int) + ")"@);
    }
    let s = t.start_at(i);
    let e = t.end_at(i);
    let fix = make_fix(t, &buf, s, e);
    Some(Message::LengthLevels(make_diag(Ghost(*t), file, new_lines, s, e, Some(fix))))
}

} // verus!

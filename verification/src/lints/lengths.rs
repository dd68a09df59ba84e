//! `sapply(x, length)` and `vapply(x, length, ...)` are better written
//! `lengths(x)`.

use vstd::prelude::*;
use crate::check::{
    arg_value, call_named, diag_v, find_named_arg, find_nth_value_arg, find_value_arg,
    first_named_arg, first_value_arg, fix_v, is_call_named, make_diag, make_fix, named_arg_value,
    nth_value_arg, rule_ctx,
};
use crate::message::{Message, MessageV, MsgKind};
use crate::syntax::{node_ok, NodeKind, SyntaxTree};
use crate::text::{push_range, push_str_chars};

verus! {

/// The child index of the argument that supplies the applied function:
/// the named `FUN` argument when present, otherwise the second positional
/// argument; `-1` when there is none.
pub open spec fn fun_arg(t: SyntaxTree, i: int) -> int {
    if first_named_arg(t, i, 1, "FUN"@) >= 0 {
        first_named_arg(t, i, 1, "FUN"@)
    } else {
        nth_value_arg(t, i, 1, 2)
    }
}

/// The value node of the applied-function argument, or `-1`.
pub open spec fn fun_value(t: SyntaxTree, i: int) -> int {
    if first_named_arg(t, i, 1, "FUN"@) >= 0 {
        named_arg_value(t, i, first_named_arg(t, i, 1, "FUN"@))
    } else if nth_value_arg(t, i, 1, 2) >= 0 {
        arg_value(t, i, nth_value_arg(t, i, 1, 2))
    } else {
        -1
    }
}

#[verifier::opaque]
pub open spec fn fires(t: SyntaxTree, i: int) -> bool {
    &&& (is_call_named(t, i, "sapply"@) || is_call_named(t, i, "vapply"@))
    &&& fun_value(t, i) >= 0
    &&& t.kind(fun_value(t, i)) == NodeKind::Ident
    &&& t.text_of(fun_value(t, i)) == "length"@
    &&& first_value_arg(t, i, 1) >= 0
    &&& first_value_arg(t, i, 1) != fun_arg(t, i)
}

/// The fix keeps the data argument: `lengths(<x>)`.
#[verifier::opaque]
pub open spec fn msg(t: SyntaxTree, i: int, file: Seq<char>) -> MessageV {
    let x = arg_value(t, i, first_value_arg(t, i, 1));
    let s = t.nodes@[i].start;
    let e = t.nodes@[i].end;
    MessageV {
        kind: MsgKind::Lengths,
        diag: diag_v(t, file, s, e, Some(fix_v(t, "lengths("@ + t.text_of(x) + ")"@, s, e))),
    }
}

pub fn check(t: &SyntaxTree, i: usize, file: &str, new_lines: &Vec<usize>) -> (r: Option<
    Message,
>)
    requires
        rule_ctx(*t, i as int, new_lines@),
    ensures
        r is Some <==> fires(*t, i as int),
        r is Some ==> r->Some_0@ == msg(*t, i as int, file@),
{
    proof {
        reveal(fires);
        reveal(msg);
    }
    if !(call_named(t, i, "sapply") || call_named(t, i, "vapply")) {
        return None;
    }
    let named = find_named_arg(t, i, 1, "FUN");
    let fk: usize;
    let fv: usize;
    match named {
        Some(k) => {
            proof {
                assert(node_ok(t.nodes@, t.text@, i as int));
            }
            let a = t.child_at(i, k);
            proof {
                assert(node_ok(t.nodes@, t.text@, a as int));
            }
            fk = k;
            fv = t.child_at(a, 1);
        },
        None => {
            match find_nth_value_arg(t, i, 1, 2) {
                Some(k) => {
                    proof {
                        assert(node_ok(t.nodes@, t.text@, i as int));
                    }
                    let a = t.child_at(i, k);
                    proof {
                        assert(node_ok(t.nodes@, t.text@, a as int));
                    }
                    fk = k;
                    fv = t.child_at(a, 0);
                },
                None => {
                    return None;
                },
            }
        },
    }
    proof {
        assert(fk as int == fun_arg(*t, i as int));
        assert(fv as int == fun_value(*t, i as int));
    }
    if !(t.kind_at(fv) == NodeKind::Ident && t.text_is(fv, "length")) {
        return None;
    }
    let d = match find_value_arg(t, i, 1) {
        Some(d) => d,
        None => {
            return None;
        },
    };
    if d == fk {
        return None;
    }
    proof {
        assert(node_ok(t.nodes@, t.text@, i as int));
    }
    let da = t.child_at(i, d);
    proof {
        assert(node_ok(t.nodes@, t.text@, da as int));
    }
    let x = t.child_at(da, 0);
    proof {
        assert(x as int == arg_value(*t, i as int, first_value_arg(*t, i as int, 1)));
        assert(node_ok(t.nodes@, t.text@, x as int));
    }
    let mut buf: Vec<char> = Vec::new();
    push_str_chars(&mut buf, "lengths(");
    push_range(&mut buf, &t.nodes[x].text, 0, t.nodes[x].text.len());
    push_str_chars(&mut buf, ")");
    proof {
        assert(buf@ =~= "lengths("@ + t.text_of(x as int) + ")"@);
    }
    let s = t.start_at(i);
    let e = t.end_at(i);
    let fix = make_fix(t, &buf, s, e);
    Some(Message::Lengths(make_diag(Ghost(*t), file, new_lines, s, e, Some(fix))))
}

} // verus!

//! A bare `all.equal()` in a boolean context: it returns a character
//! vector on mismatch, so wrap it in `isTRUE()` (or use `!isTRUE()`
//! instead of `isFALSE()` to check for differences).

use vstd::prelude::*;
use crate::check::{
    arg_value, call_named, diag_v, fix_v, is_call_named, is_value_arg, make_diag, make_fix,
    rule_ctx,
};
use crate::message::{Message, MessageV, MsgKind};
use crate::syntax::{node_ok, NodeKind, SyntaxTree};
use crate::text::{push_range, push_str_chars};

verus! {

/// `if (all.equal(...))` or `while (all.equal(...))`.
pub open spec fn fires_cond(t: SyntaxTree, i: int) -> bool {
    &&& (t.kind(i) == NodeKind::If || t.kind(i) == NodeKind::While)
    &&& t.n_child(i) >= 2
    &&& is_call_named(t, t.child(i, 0), "all.equal"@)
}

/// `!all.equal(...)`.
pub open spec fn fires_not(t: SyntaxTree, i: int) -> bool {
    &&& t.kind(i) == NodeKind::Unary
    &&& t.n_child(i) == 2
    &&& t.text_of(t.child(i, 0)) == "!"@
    &&& is_call_named(t, t.child(i, 1), "all.equal"@)
}

/// `isFALSE(all.equal(...))`.
pub open spec fn fires_false(t: SyntaxTree, i: int) -> bool {
    &&& is_call_named(t, i, "isFALSE"@)
    &&& t.n_child(i) == 2
    &&& is_value_arg(t, i, 1)
    &&& is_call_named(t, arg_value(t, i, 1), "all.equal"@)
}

#[verifier::opaque]
pub open spec fn fires(t: SyntaxTree, i: int) -> bool {
    fires_cond(t, i) || fires_not(t, i) || fires_false(t, i)
}

#[verifier::opaque]
pub open spec fn msg(t: SyntaxTree, i: int, file: Seq<char>) -> MessageV {
    if fires_false(t, i) {
        let s = t.nodes@[i].start;
        let e = t.nodes@[i].end;
        let inner = arg_value(t, i, 1);
        MessageV {
            kind: MsgKind::AllEqualFalse,
            diag: diag_v(
                t,
                file,
                s,
                e,
                Some(fix_v(t, "!isTRUE("@ + t.text_of(inner) + ")"@, s, e)),
            ),
        }
    } else {
        let c = if fires_cond(t, i) {
            t.child(i, 0)
        } else {
            t.child(i, 1)
        };
        let s = t.nodes@[c].start;
        let e = t.nodes@[c].end;
        MessageV {
            kind: MsgKind::AllEqual,
            diag: diag_v(t, file, s, e, Some(fix_v(t, "isTRUE("@ + t.text_of(c) + ")"@, s, e))),
        }
    }
}

pub fn check(t: &SyntaxTree, i: usize, file: &str, new_lines: &Vec<usize>) -> (r: Option<
    Message,
>)
    requires
        rule_ctx(*t, i as int, new_lines@),
    ensures
        r is Some <==> fires(*t, i as int),
        r is Some ==> r->Some_0@ == msg(*t, i as int, file@),
{
    proof {
        reveal(fires);
        reveal(msg);
    }
    proof {
        assert(node_ok(t.nodes@, t.text@, i as int));
    }
    if call_named(t, i, "isFALSE") && t.n_child_at(i) == 2 {
        let a = t.child_at(i, 1);
        if t.kind_at(a) == NodeKind::Arg && t.n_child_at(a) == 1 {
            proof {
                assert(node_ok(t.nodes@, t.text@, a as int));
            }
            let inner = t.child_at(a, 0);
            if call_named(t, inner, "all.equal") {
                proof {
                    assert(inner as int == arg_value(*t, i as int, 1));
                    assert(node_ok(t.nodes@, t.text@, inner as int));
                }
                let mut buf: Vec<char> = Vec::new();
                push_str_chars(&mut buf, "!isTRUE(");
                push_range(&mut buf, &t.nodes[inner].text, 0, t.nodes[inner].text.len());
                push_str_chars(&mut buf, ")");
                proof {
                    assert(buf@ =~= "!isTRUE("@ + t.text_of(inner as int) + ")"@);
                }
                let s = t.start_at(i);
                let e = t.end_at(i);
                let fix = make_fix(t, &buf, s, e);
                return Some(
                    Message::AllEqualFalse(make_diag(Ghost(*t), file, new_lines, s, e, Some(fix))),
                );
            }
        }
    }
    let k = t.kind_at(i);
    let cond_ctx = (k == NodeKind::If || k == NodeKind::While) && t.n_child_at(i) >= 2;
    let not_ctx = k == NodeKind::Unary && t.n_child_at(i) == 2;
    let c: usize;
    if cond_ctx {
        c = t.child_at(i, 0);
    } else if not_ctx {
        let op = t.child_at(i, 0);
        if !t.text_is(op, "!") {
            return None;
        }
        c = t.child_at(i, 1);
    } else {
        return None;
    }
    if !call_named(t, c, "all.equal") {
        return None;
    }
    proof {
        assert(node_ok(t.nodes@, t.text@, c as int));
        assert(!fires_false(*t, i as int));
    }
    let mut buf: Vec<char> = Vec::new();
    push_str_chars(&mut buf, "isTRUE(");
    push_range(&mut buf, &t.nodes[c].text, 0, t.nodes[c].text.len());
    push_str_chars(&mut buf, ")");
    proof {
        assert(buf@ =~= "isTRUE("@ + t.text_of(c as int) + ")"@);
    }
    let s = t.start_at(c);
    let e = t.end_at(c);
    let fix = make_fix(t, &buf, s, e);
    Some(Message::AllEqual(make_diag(Ghost(*t), file, new_lines, s, e, Some(fix))))
}

} // verus!

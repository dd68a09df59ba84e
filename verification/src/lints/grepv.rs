//! `grep(..., value = TRUE)` is better written `grepv(...)` (available
//! from R 4.5, which the rule's minimum-version entry encodes).

use vstd::prelude::*;
use crate::check::{
    arg_value, call_named, diag_v, find_named_arg, find_nth_value_arg, first_named_arg, fix_v,
    is_call_named, make_diag, make_fix, named_arg_value, nth_value_arg, rule_ctx,
};
use crate::message::{Message, MessageV, MsgKind};
use crate::syntax::{node_ok, NodeKind, SyntaxTree};
use crate::text::{push_range, push_str_chars};

verus! {

/// Is node `v` the identifier `TRUE`?
pub open spec fn is_true_lit(t: SyntaxTree, v: int) -> bool {
    t.kind(v) == NodeKind::Ident && t.text_of(v) == "TRUE"@
}

/// The child index of a `value = TRUE` named argument, or `-1`.
pub open spec fn named_true(t: SyntaxTree, i: int) -> int {
    let k = first_named_arg(t, i, 1, "value"@);
    if k >= 0 && is_true_lit(t, named_arg_value(t, i, k)) {
        k
    } else {
        -1
    }
}

/// The child index of a fifth positional argument `TRUE` (the position of
/// `value` in `grep`'s signature), or `-1`.
pub open spec fn pos5_true(t: SyntaxTree, i: int) -> int {
    let k = nth_value_arg(t, i, 1, 5);
    if k >= 0 && is_true_lit(t, arg_value(t, i, k)) {
        k
    } else {
        -1
    }
}

/// The argument the fix removes.
pub open spec fn drop_arg(t: SyntaxTree, i: int) -> int {
    if named_true(t, i) >= 0 {
        named_true(t, i)
    } else {
        pos5_true(t, i)
    }
}

#[verifier::opaque]
pub open spec fn fires(t: SyntaxTree, i: int) -> bool {
    let d = drop_arg(t, i);
    let n = t.n_child(i);
    &&& is_call_named(t, i, "grep"@)
    &&& d >= 0
    &&& (d > 1 ==> t.nodes@[t.child(i, 1)].start <= t.nodes@[t.child(i, d - 1)].end)
    &&& (d < n - 1 ==> t.nodes@[t.child(i, d + 1)].start <= t.nodes@[t.child(i, n - 1)].end)
}

/// The source text of the arguments before and after the dropped one.
pub open spec fn left_region(t: SyntaxTree, i: int, d: int) -> Seq<char> {
    if d > 1 {
        t.text@.subrange(
            t.nodes@[t.child(i, 1)].start as int,
            t.nodes@[t.child(i, d - 1)].end as int,
        )
    } else {
        Seq::empty()
    }
}

pub open spec fn right_region(t: SyntaxTree, i: int, d: int) -> Seq<char> {
    let n = t.n_child(i);
    if d < n - 1 {
        t.text@.subrange(
            t.nodes@[t.child(i, d + 1)].start as int,
            t.nodes@[t.child(i, n - 1)].end as int,
        )
    } else {
        Seq::empty()
    }
}

pub open spec fn sep(t: SyntaxTree, i: int, d: int) -> Seq<char> {
    if d > 1 && d < t.n_child(i) - 1 {
        ", "@
    } else {
        Seq::empty()
    }
}

#[verifier::opaque]
pub open spec fn msg(t: SyntaxTree, i: int, file: Seq<char>) -> MessageV {
    let d = drop_arg(t, i);
    let s = t.nodes@[i].start;
    let e = t.nodes@[i].end;
    let content = "grepv("@ + left_region(t, i, d) + sep(t, i, d) + right_region(t, i, d)
        + ")"@;
    MessageV { kind: MsgKind::Grepv, diag: diag_v(t, file, s, e, Some(fix_v(t, content, s, e))) }
}

#[verifier::rlimit(100)]
pub fn check(t: &SyntaxTree, i: usize, file: &str, new_lines: &Vec<usize>) -> (r: Option<
    Message,
>)
    requires
        rule_ctx(*t, i as int, new_lines@),
    ensures
        r is Some <==> fires(*t, i as int),
        r is Some ==> r->Some_0@ == msg(*t, i as int, file@),
{
    proof {
        reveal(fires);
        reveal(msg);
    }
    if !call_named(t, i, "grep") {
        return None;
    }
    proof {
        assert(node_ok(t.nodes@, t.text@, i as int));
    }
    let n = t.n_child_at(i);
    let mut d: usize = 0;
    let mut found = false;
    match find_named_arg(t, i, 1, "value") {
        Some(k) => {
            let a = t.child_at(i, k);
            proof {
                assert(node_ok(t.nodes@, t.text@, a as int));
            }
            let v = t.child_at(a, 1);
            if t.kind_at(v) == NodeKind::Ident && t.text_is(v, "TRUE") {
                d = k;
                found = true;
            }
        },
        None => {},
    }
    if !found {
        proof {
            assert(named_true(*t, i as int) == -1);
        }
        match find_nth_value_arg(t, i, 1, 5) {
            Some(k) => {
                let a = t.child_at(i, k);
                proof {
                    assert(node_ok(t.nodes@, t.text@, a as int));
                }
                let v = t.child_at(a, 0);
                if t.kind_at(v) == NodeKind::Ident && t.text_is(v, "TRUE") {
                    d = k;
                    found = true;
                }
            },
            None => {},
        }
    }
    if !found {
        return None;
    }
    proof {
        assert(d as int == drop_arg(*t, i as int));
    }
    let mut buf: Vec<char> = Vec::new();
    push_str_chars(&mut buf, "grepv(");
    let has_left = d > 1;
    let has_right = d + 1 < n;
    if has_left {
        let c1 = t.child_at(i, 1);
        let cd = t.child_at(i, d - 1);
        let rs = t.start_at(c1);
        let re = t.end_at(cd);
        if rs > re {
            return None;
        }
        proof {
            assert(node_ok(t.nodes@, t.text@, cd as int));
        }
        push_range(&mut buf, &t.text, rs, re);
    }
    if has_left && has_right {
        push_str_chars(&mut buf, ", ");
    }
    if has_right {
        let ca = t.child_at(i, d + 1);
        let cl = t.child_at(i, n - 1);
        let rs = t.start_at(ca);
        let re = t.end_at(cl);
        if rs > re {
            return None;
        }
        proof {
            assert(node_ok(t.nodes@, t.text@, cl as int));
        }
        push_range(&mut buf, &t.text, rs, re);
    }
    push_str_chars(&mut buf, ")");
    proof {
        let dd = d as int;
        assert(buf@ =~= "grepv("@ + left_region(*t, i as int, dd) + sep(*t, i as int, dd)
            + right_region(*t, i as int, dd) + ")"@);
    }
    let s = t.start_at(i);
    let e = t.end_at(i);
    let fix = make_fix(t, &buf, s, e);
    Some(Message::Grepv(make_diag(Ghost(*t), file, new_lines, s, e, Some(fix))))
}

} // verus!

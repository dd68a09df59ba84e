//! Comparing to `NA` with `==`, `!=` or `%in%` never yields `TRUE`; use
//! `is.na()` instead.

use vstd::prelude::*;
use crate::check::{diag_v, fix_v, is_binary, make_diag, make_fix, op_text, rule_ctx};
use crate::message::{Message, MessageV, MsgKind};
use crate::syntax::{node_ok, NodeKind, SyntaxTree};
use crate::text::{push_range, push_str_chars};

verus! {

/// The missing-value constants of the language.
pub open spec fn is_na_name(s: Seq<char>) -> bool {
    ||| s == "NA"@
    ||| s == "NA_integer_"@
    ||| s == "NA_real_"@
    ||| s == "NA_logical_"@
    ||| s == "NA_character_"@
    ||| s == "NA_complex_"@
}

pub open spec fn is_na_lit(t: SyntaxTree, j: int) -> bool {
    t.kind(j) == NodeKind::Ident && is_na_name(t.text_of(j))
}

#[verifier::opaque]
pub open spec fn fires(t: SyntaxTree, i: int) -> bool {
    &&& is_binary(t, i)
    &&& (op_text(t, i) == "=="@ || op_text(t, i) == "!="@ || op_text(t, i) == "%in%"@)
    &&& (is_na_lit(t, t.child(i, 0)) || is_na_lit(t, t.child(i, 2)))
}

pub open spec fn na_side(t: SyntaxTree, i: int) -> int {
    if is_na_lit(t, t.child(i, 2)) {
        2int
    } else {
        0int
    }
}

/// The whole comparison's range; the fix tests with `is.na`, negated for
/// `!=`.
#[verifier::opaque]
pub open spec fn msg(t: SyntaxTree, i: int, file: Seq<char>) -> MessageV {
    let other = t.child(i, 2 - na_side(t, i));
    let s = t.nodes@[i].start;
    let e = t.nodes@[i].end;
    let content = if op_text(t, i) == "!="@ {
        "!is.na("@ + t.text_of(other) + ")"@
    } else {
        "is.na("@ + t.text_of(other) + ")"@
    };
    MessageV {
        kind: MsgKind::EqualsNa,
        diag: diag_v(t, file, s, e, Some(fix_v(t, content, s, e))),
    }
}

pub fn check(t: &SyntaxTree, i: usize, file: &str, new_lines: &Vec<usize>) -> (r: Option<
    Message,
>)
    requires
        rule_ctx(*t, i as int, new_lines@),
    ensures
        r is Some <==> fires(*t, i as int),
        r is Some ==> r->Some_0@ == msg(*t, i as int, file@),
{
    proof {
        reveal(fires);
        reveal(msg);
    }
    if !(t.kind_at(i) == NodeKind::Binary && t.n_child_at(i) == 3) {
        return None;
    }
    let lhs = t.child_at(i, 0);
    let op = t.child_at(i, 1);
    let rhs = t.child_at(i, 2);
    if !(t.text_is(op, "==") || t.text_is(op, "!=") || t.text_is(op, "%in%")) {
        return None;
    }
    let rhs_na = na_lit(t, rhs);
    let lhs_na = na_lit(t, lhs);
    if !(rhs_na || lhs_na) {
        return None;
    }
    let other = if rhs_na {
        lhs
    } else {
        rhs
    };
    proof {
        assert(node_ok(t.nodes@, t.text@, i as int));
        assert(node_ok(t.nodes@, t.text@, other as int));
    }
    let neg = t.text_is(op, "!=");
    let mut buf: Vec<char> = Vec::new();
    if neg {
        push_str_chars(&mut buf, "!is.na(");
    } else {
        push_str_chars(&mut buf, "is.na(");
    }
    push_range(&mut buf, &t.nodes[other].text, 0, t.nodes[other].text.len());
    push_str_chars(&mut buf, ")");
    proof {
        if op_text(*t, i as int) == "!="@ {
            assert(buf@ =~= "!is.na("@ + t.text_of(other as int) + ")"@);
        } else {
            assert(buf@ =~= "is.na("@ + t.text_of(other as int) + ")"@);
        }
    }
    let s = t.start_at(i);
    let e = t.end_at(i);
    let fix = make_fix(t, &buf, s, e);
    Some(Message::EqualsNa(make_diag(Ghost(*t), file, new_lines, s, e, Some(fix))))
}

/// Decides `is_na_lit`.
fn na_lit(t: &SyntaxTree, j: usize) -> (r: bool)
    requires
        tree_wf_j(*t, j as int),
    ensures
        r == is_na_lit(*t, j as int),
{
    t.kind_at(j) == NodeKind::Ident && (t.text_is(j, "NA") || t.text_is(j, "NA_integer_")
        || t.text_is(j, "NA_real_") || t.text_is(j, "NA_logical_") || t.text_is(
        j,
        "NA_character_",
    ) || t.text_is(j, "NA_complex_"))
}

/// Bounds needed to inspect node `j`.
pub open spec fn tree_wf_j(t: SyntaxTree, j: int) -> bool {
    0 <= j < t.nodes@.len()
}

} // verus!

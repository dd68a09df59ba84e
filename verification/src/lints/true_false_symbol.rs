//! The symbols `T` and `F` can be reassigned; spell out `TRUE` and
//! `FALSE`.

use vstd::prelude::*;
use crate::check::{diag_v, fix_v, make_diag, make_fix, op_text, rule_ctx};
use crate::message::{Message, MessageV, MsgKind};
use crate::syntax::{node_ok, NodeKind, SyntaxTree};
use crate::text::push_str_chars;

verus! {

/// Is node `j` a context that makes identifier `i` a name rather than a
/// value: an argument or parameter name, or the member after `$`, `@` or
/// `::`?
pub open spec fn excl_at(t: SyntaxTree, i: int, j: int) -> bool {
    ||| (t.kind(j) == NodeKind::NamedArg && t.n_child(j) >= 1 && t.child(j, 0) == i)
    ||| (t.kind(j) == NodeKind::Param && t.n_child(j) >= 1 && t.child(j, 0) == i)
    ||| (t.kind(j) == NodeKind::Binary && t.n_child(j) == 3 && (op_text(t, j) == "$"@ || op_text(
        t,
        j,
    ) == "@"@ || op_text(t, j) == "::"@) && t.child(j, 2) == i)
}

pub open spec fn excluded(t: SyntaxTree, i: int) -> bool {
    exists|j: int| i < j < t.nodes@.len() && #[trigger] excl_at(t, i, j)
}

#[verifier::opaque]
pub open spec fn fires(t: SyntaxTree, i: int) -> bool {
    &&& t.kind(i) == NodeKind::Ident
    &&& (t.text_of(i) == "T"@ || t.text_of(i) == "F"@)
    &&& !excluded(t, i)
}

#[verifier::opaque]
pub open spec fn msg(t: SyntaxTree, i: int, file: Seq<char>) -> MessageV {
    let s = t.nodes@[i].start;
    let e = t.nodes@[i].end;
    let content = if t.text_of(i) == "T"@ {
        "TRUE"@
    } else {
        "FALSE"@
    };
    MessageV {
        kind: MsgKind::TrueFalseSymbol,
        diag: diag_v(t, file, s, e, Some(fix_v(t, content, s, e))),
    }
}

/// Decides `excl_at`.
fn is_excl_at(t: &SyntaxTree, i: usize, j: usize) -> (r: bool)
    requires
        crate::syntax::tree_wf(*t),
        i < t.nodes@.len(),
        j < t.nodes@.len(),
    ensures
        r == excl_at(*t, i as int, j as int),
{
    let k = t.kind_at(j);
    if (k == NodeKind::NamedArg || k == NodeKind::Param) && t.n_child_at(j) >= 1 {
        if t.child_at(j, 0) == i {
            return true;
        }
    }
    if k == NodeKind::Binary && t.n_child_at(j) == 3 {
        let op = t.child_at(j, 1);
        if (t.text_is(op, "$") || t.text_is(op, "@") || t.text_is(op, "::")) && t.child_at(j, 2)
            == i {
            return true;
        }
    }
    false
}

pub fn check(t: &SyntaxTree, i: usize, file: &str, new_lines: &Vec<usize>) -> (r: Option<
    Message,
>)
    requires
        rule_ctx(*t, i as int, new_lines@),
    ensures
        r is Some <==> fires(*t, i as int),
        r is Some ==> r->Some_0@ == msg(*t, i as int, file@),
{
    proof {
        reveal(fires);
        reveal(msg);
    }
    if t.kind_at(i) != NodeKind::Ident {
        return None;
    }
    let is_t = t.text_is(i, "T");
    let is_f = t.text_is(i, "F");
    if !(is_t || is_f) {
        return None;
    }
    let n = t.nodes.len();
    let mut j: usize = i + 1;
    while j < n
        invariant
            rule_ctx(*t, i as int, new_lines@),
            n == t.nodes@.len(),
            i < j,
            forall|jj: int| i < jj < j ==> !#[trigger] excl_at(*t, i as int, jj),
        decreases n - j,
    {
        if is_excl_at(t, i, j) {
            proof {
                reveal(fires);
            }
            return None;
        }
        j += 1;
    }
    proof {
        vstd::assert_by_contradiction!(!excluded(*t, i as int), {
            let w = choose|w: int| i < w < t.nodes@.len() && #[trigger] excl_at(*t, i as int, w);
            assert(!excl_at(*t, i as int, w));
        });
        assert(node_ok(t.nodes@, t.text@, i as int));
    }
    let mut buf: Vec<char> = Vec::new();
    if is_t {
        push_str_chars(&mut buf, "TRUE");
    } else {
        push_str_chars(&mut buf, "FALSE");
    }
    proof {
        if t.text_of(i as int) == "T"@ {
            assert(buf@ =~= "TRUE"@);
        } else {
            assert(buf@ =~= "FALSE"@);
        }
    }
    let s = t.start_at(i);
    let e = t.end_at(i);
    let fix = make_fix(t, &buf, s, e);
    Some(Message::TrueFalseSymbol(make_diag(Ghost(*t), file, new_lines, s, e, Some(fix))))
}

} // verus!

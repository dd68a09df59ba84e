//! Assignment with `=` or `->`; the rewrite uses `<-`.

use vstd::prelude::*;
use crate::check::{diag_v, fix_v, is_binary, make_diag, make_fix, op_text, rule_ctx};
use crate::message::{Message, MessageV, MsgKind};
use crate::syntax::{node_ok, SyntaxTree};
use crate::text::{push_range, push_str_chars};

verus! {

/// A binary expression whose operator is `=` or `->`.
#[verifier::opaque]
pub open spec fn fires(t: SyntaxTree, i: int) -> bool {
    &&& is_binary(t, i)
    &&& (op_text(t, i) == "="@ || op_text(t, i) == "->"@)
}

/// The reported range covers only the target and the operator (not the
/// whole assigned expression); the fix rewrites the whole expression.
#[verifier::opaque]
pub open spec fn msg(t: SyntaxTree, i: int, file: Seq<char>) -> MessageV {
    let lhs = t.child(i, 0);
    let op = t.child(i, 1);
    let rhs = t.child(i, 2);
    let fs = t.nodes@[i].start;
    let fe = t.nodes@[i].end;
    if op_text(t, i) == "="@ {
        MessageV {
            kind: MsgKind::EqualAssignment,
            diag: diag_v(
                t,
                file,
                t.nodes@[lhs].start,
                t.nodes@[op].end,
                Some(fix_v(t, t.text_of(lhs) + " <- "@ + t.text_of(rhs), fs, fe)),
            ),
        }
    } else {
        MessageV {
            kind: MsgKind::EqualAssignment,
            diag: diag_v(
                t,
                file,
                t.nodes@[op].start,
                t.nodes@[rhs].end,
                Some(fix_v(t, t.text_of(rhs) + " <- "@ + t.text_of(lhs), fs, fe)),
            ),
        }
    }
}

pub fn check(t: &SyntaxTree, i: usize, file: &str, new_lines: &Vec<usize>) -> (r: Option<
    Message,
>)
    requires
        rule_ctx(*t, i as int, new_lines@),
    ensures
        r is Some <==> fires(*t, i as int),
        r is Some ==> r->Some_0@ == msg(*t, i as int, file@),
{
    proof {
        reveal(fires);
        reveal(msg);
    }
    if !(t.kind_at(i) == crate::syntax::NodeKind::Binary && t.n_child_at(i) == 3) {
        return None;
    }
    let lhs = t.child_at(i, 0);
    let op = t.child_at(i, 1);
    let rhs = t.child_at(i, 2);
    let is_eq = t.text_is(op, "=");
    let is_right = t.text_is(op, "->");
    if !(is_eq || is_right) {
        return None;
    }
    proof {
        assert(node_ok(t.nodes@, t.text@, i as int));
        assert(node_ok(t.nodes@, t.text@, lhs as int));
        assert(node_ok(t.nodes@, t.text@, op as int));
        assert(node_ok(t.nodes@, t.text@, rhs as int));
    }
    let fs = t.start_at(i);
    let fe = t.end_at(i);
    let mut buf: Vec<char> = Vec::new();
    if is_eq {
        push_range(&mut buf, &t.nodes[lhs].text, 0, t.nodes[lhs].text.len());
        push_str_chars(&mut buf, " <- ");
        push_range(&mut buf, &t.nodes[rhs].text, 0, t.nodes[rhs].text.len());
        proof {
            assert(buf@ =~= t.text_of(lhs as int) + " <- "@ + t.text_of(rhs as int));
        }
        let fix = make_fix(t, &buf, fs, fe);
        let ds = t.start_at(lhs);
        let de = t.end_at(op);
        Some(Message::EqualAssignment(make_diag(Ghost(*t), file, new_lines, ds, de, Some(fix))))
    } else {
        push_range(&mut buf, &t.nodes[rhs].text, 0, t.nodes[rhs].text.len());
        push_str_chars(&mut buf, " <- ");
        push_range(&mut buf, &t.nodes[lhs].text, 0, t.nodes[lhs].text.len());
        proof {
            assert(buf@ =~= t.text_of(rhs as int) + " <- "@ + t.text_of(lhs as int));
        }
        let fix = make_fix(t, &buf, fs, fe);
        let ds = t.start_at(op);
        let de = t.end_at(rhs);
        Some(Message::EqualAssignment(make_diag(Ghost(*t), file, new_lines, ds, de, Some(fix))))
    }
}

} // verus!

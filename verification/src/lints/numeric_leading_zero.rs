//! Fractional numeric constants should include the leading zero: `.1` is
//! rewritten to `0.1`.

use vstd::prelude::*;
use crate::check::{diag_v, fix_v, make_diag, make_fix, rule_ctx};
use crate::message::{Message, MessageV, MsgKind};
use crate::syntax::{node_ok, NodeKind, SyntaxTree};
use crate::text::{push_range, push_str_chars};

verus! {

/// A numeric literal whose text starts with `.`.
#[verifier::opaque]
pub open spec fn fires(t: SyntaxTree, i: int) -> bool {
    &&& t.kind(i) == NodeKind::Num
    &&& t.text_of(i).len() > 0
    &&& t.text_of(i)[0] == '.'
}

/// The message: the literal's own range, with a fix prepending `0`.
#[verifier::opaque]
pub open spec fn msg(t: SyntaxTree, i: int, file: Seq<char>) -> MessageV {
    let s = t.nodes@[i].start;
    let e = t.nodes@[i].end;
    MessageV {
        kind: MsgKind::NumericLeadingZero,
        diag: diag_v(t, file, s, e, Some(fix_v(t, "0"@ + t.text_of(i), s, e))),
    }
}

pub fn check(t: &SyntaxTree, i: usize, file: &str, new_lines: &Vec<usize>) -> (r: Option<
    Message,
>)
    requires
        rule_ctx(*t, i as int, new_lines@),
    ensures
        r is Some <==> fires(*t, i as int),
        r is Some ==> r->Some_0@ == msg(*t, i as int, file@),
{
    proof {
        reveal(fires);
        reveal(msg);
    }
    if t.kind_at(i) != NodeKind::Num {
        return None;
    }
    if t.nodes[i].text.len() == 0 {
        return None;
    }
    if t.nodes[i].text[0] != '.' {
        return None;
    }
    proof {
        assert(node_ok(t.nodes@, t.text@, i as int));
    }
    let mut buf: Vec<char> = Vec::new();
    push_str_chars(&mut buf, "0");
    push_range(&mut buf, &t.nodes[i].text, 0, t.nodes[i].text.len());
    proof {
        assert(buf@ =~= "0"@ + t.text_of(i as int));
    }
    let s = t.start_at(i);
    let e = t.end_at(i);
    let fix = make_fix(t, &buf, s, e);
    Some(Message::NumericLeadingZero(make_diag(Ghost(*t), file, new_lines, s, e, Some(fix))))
}

} // verus!

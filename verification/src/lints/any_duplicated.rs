//! `any(duplicated(...))` is inefficient; rewrite it to `anyDuplicated(...) > 0`.

use vstd::prelude::*;
use crate::check::{any_pattern_diag, any_pattern_fires, check_any_pattern, rule_ctx};
use crate::message::{Message, MessageV, MsgKind};
use crate::syntax::SyntaxTree;

verus! {

/// Does the rule report at node `i`?
#[verifier::opaque]
pub open spec fn fires(t: SyntaxTree, i: int) -> bool {
    any_pattern_fires(t, i, "duplicated"@)
}

/// The message the rule reports at node `i`.
#[verifier::opaque]
pub open spec fn msg(t: SyntaxTree, i: int, file: Seq<char>) -> MessageV {
    MessageV {
        kind: MsgKind::AnyDuplicated,
        diag: any_pattern_diag(t, i, file, "duplicated"@, "anyDuplicated("@, ") > 0"@),
    }
}

pub fn check(t: &SyntaxTree, i: usize, file: &str, new_lines: &Vec<usize>) -> (r: Option<
    Message,
>)
    requires
        rule_ctx(*t, i as int, new_lines@),
    ensures
        r is Some <==> fires(*t, i as int),
        r is Some ==> r->Some_0@ == msg(*t, i as int, file@),
{
    proof {
        reveal(fires);
        reveal(msg);
    }
    match check_any_pattern(t, i, file, new_lines, "duplicated", "anyDuplicated(", ") > 0") {
        Some(d) => Some(Message::AnyDuplicated(d)),
        None => None,
    }
}

} // verus!

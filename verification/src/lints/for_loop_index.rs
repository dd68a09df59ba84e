//! A for loop whose sequence mentions the loop variable itself, e.g.
//! `for (x in foo(x))`.

use vstd::prelude::*;
use crate::check::{diag_v, make_diag, rule_ctx};
use crate::message::{Message, MessageV, MsgKind};
use crate::syntax::{node_ok, tree_wf, NodeKind, SyntaxTree};

verus! {

/// Does the expression at `e` mention `name`: as the identifier itself, or
/// inside a call as an argument name or (recursively) an argument value?
/// Other expression shapes are not searched.
pub open spec fn contains_ident(t: SyntaxTree, e: int, name: Seq<char>) -> bool
    decreases e, 1int, 0int,
{
    if !(0 <= e < t.nodes@.len()) {
        false
    } else if t.kind(e) == NodeKind::Ident {
        t.text_of(e) == name
    } else if t.kind(e) == NodeKind::Call {
        contains_in_args(t, e, 1, name)
    } else {
        false
    }
}

/// Does any argument `k..` of call `e` mention `name`?
pub open spec fn contains_in_args(t: SyntaxTree, e: int, k: int, name: Seq<char>) -> bool
    decreases e, 0int, t.n_child(e) - k,
{
    if !(0 <= e < t.nodes@.len()) || !(0 <= k < t.n_child(e)) {
        false
    } else {
        let a = t.child(e, k);
        let named = t.kind(a) == NodeKind::NamedArg && t.n_child(a) >= 1 && t.text_of(
            t.child(a, 0),
        ) == name;
        let value = arg_value_of(t, a);
        let in_value = value >= 0 && value < e && contains_ident(t, value, name);
        named || in_value || contains_in_args(t, e, k + 1, name)
    }
}

/// The value carried by argument node `a`, or -1.
pub open spec fn arg_value_of(t: SyntaxTree, a: int) -> int {
    if t.kind(a) == NodeKind::Arg && t.n_child(a) == 1 {
        t.child(a, 0)
    } else if t.kind(a) == NodeKind::NamedArg && t.n_child(a) == 2 {
        t.child(a, 1)
    } else {
        -1
    }
}

#[verifier::opaque]
pub open spec fn fires(t: SyntaxTree, i: int) -> bool {
    &&& t.kind(i) == NodeKind::For
    &&& t.n_child(i) == 3
    &&& t.kind(t.child(i, 0)) == NodeKind::Ident
    &&& contains_ident(t, t.child(i, 1), t.text_of(t.child(i, 0)))
}

/// The reported range spans the variable and the sequence; the rule offers
/// no automatic fix.
#[verifier::opaque]
pub open spec fn msg(t: SyntaxTree, i: int, file: Seq<char>) -> MessageV {
    MessageV {
        kind: MsgKind::ForLoopIndex,
        diag: diag_v(
            t,
            file,
            t.nodes@[t.child(i, 0)].start,
            t.nodes@[t.child(i, 1)].end,
            None,
        ),
    }
}

/// Decides `contains_ident`.
fn search_ident(t: &SyntaxTree, e: usize, name: &Vec<char>) -> (r: bool)
    requires
        tree_wf(*t),
        e < t.nodes@.len(),
    ensures
        r == contains_ident(*t, e as int, name@),
    decreases e,
{
    if t.kind_at(e) == NodeKind::Ident {
        return crate::text::chars_eq(&t.nodes[e].text, name);
    }
    if t.kind_at(e) != NodeKind::Call {
        return false;
    }
    let n = t.n_child_at(e);
    let mut k: usize = 1;
    while k < n
        invariant
            tree_wf(*t),
            e < t.nodes@.len(),
            n as int == t.n_child(e as int),
            1 <= k,
            t.kind(e as int) == NodeKind::Call,
            contains_in_args(*t, e as int, 1, name@) == contains_in_args(
                *t,
                e as int,
                k as int,
                name@,
            ),
        decreases n - k,
    {
        proof {
            assert(node_ok(t.nodes@, t.text@, e as int));
        }
        let a = t.child_at(e, k);
        if t.kind_at(a) == NodeKind::NamedArg && t.n_child_at(a) >= 1 {
            proof {
                assert(node_ok(t.nodes@, t.text@, a as int));
            }
            let nm = t.child_at(a, 0);
            if crate::text::chars_eq(&t.nodes[nm].text, name) {
                return true;
            }
        }
        let mut value: usize = 0;
        let mut has_value = false;
        if t.kind_at(a) == NodeKind::Arg && t.n_child_at(a) == 1 {
            proof {
                assert(node_ok(t.nodes@, t.text@, a as int));
            }
            value = t.child_at(a, 0);
            has_value = true;
        } else if t.kind_at(a) == NodeKind::NamedArg && t.n_child_at(a) == 2 {
            proof {
                assert(node_ok(t.nodes@, t.text@, a as int));
            }
            value = t.child_at(a, 1);
            has_value = true;
        }
        if has_value {
            proof {
                assert(value as int == arg_value_of(*t, a as int));
                assert(value < a < e);
            }
            if search_ident(t, value, name) {
                return true;
            }
        }
        proof {
            if !has_value {
                assert(arg_value_of(*t, a as int) == -1);
            }
        }
        k += 1;
    }
    false
}

pub fn check(t: &SyntaxTree, i: usize, file: &str, new_lines: &Vec<usize>) -> (r: Option<
    Message,
>)
    requires
        rule_ctx(*t, i as int, new_lines@),
    ensures
        r is Some <==> fires(*t, i as int),
        r is Some ==> r->Some_0@ == msg(*t, i as int, file@),
{
    proof {
        reveal(fires);
        reveal(msg);
    }
    if !(t.kind_at(i) == NodeKind::For && t.n_child_at(i) == 3) {
        return None;
    }
    let var = t.child_at(i, 0);
    let sq = t.child_at(i, 1);
    if t.kind_at(var) != NodeKind::Ident {
        return None;
    }
    if !search_ident(t, sq, &t.nodes[var].text) {
        return None;
    }
    proof {
        assert(node_ok(t.nodes@, t.text@, i as int));
        assert(node_ok(t.nodes@, t.text@, var as int));
        assert(node_ok(t.nodes@, t.text@, sq as int));
    }
    let ds = t.start_at(var);
    let de = t.end_at(sq);
    Some(Message::ForLoopIndex(make_diag(Ghost(*t), file, new_lines, ds, de, None)))
}

} // verus!

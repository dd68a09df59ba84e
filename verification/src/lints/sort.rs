//! `x[order(x)]` is better written `sort(x)`, keeping any named
//! arguments of `order`.

use vstd::prelude::*;
use crate::check::{
    arg_value, call_named, count_value_args, diag_v, find_value_arg, first_value_arg, fix_v,
    is_call_named, is_value_arg, make_diag, make_fix, rule_ctx,
};
use crate::message::{Message, MessageV, MsgKind};
use crate::syntax::{node_ok, NodeKind, SyntaxTree};
use crate::text::{push_range, push_str_chars};

verus! {

/// Every argument of `c` (from child `k`) is either a positional value or
/// a named argument with a value.
pub open spec fn args_shape_ok(t: SyntaxTree, c: int, k: int) -> bool {
    forall|kk: int|
        k <= kk < t.n_child(c) ==> is_value_arg(t, c, kk) || (t.kind(#[trigger] t.child(c, kk))
            == NodeKind::NamedArg && t.n_child(t.child(c, kk)) == 2)
}

#[verifier::opaque]
pub open spec fn fires(t: SyntaxTree, i: int) -> bool {
    let b = t.child(i, 0);
    let c = arg_value(t, i, 1);
    &&& t.kind(i) == NodeKind::Subset
    &&& t.n_child(i) == 2
    &&& t.kind(b) == NodeKind::Ident
    &&& is_value_arg(t, i, 1)
    &&& is_call_named(t, c, "order"@)
    &&& t.n_child(c) >= 2
    &&& count_value_args(t, c, 1) == 1
    &&& first_value_arg(t, c, 1) >= 0
    &&& t.kind(arg_value(t, c, first_value_arg(t, c, 1))) == NodeKind::Ident
    &&& t.text_of(arg_value(t, c, first_value_arg(t, c, 1))) == t.text_of(b)
    &&& args_shape_ok(t, c, 1)
}

/// The named arguments of `order`, joined after the base: `", arg"` each.
pub open spec fn join_named(t: SyntaxTree, c: int, k: int, skip: int) -> Seq<char>
    decreases t.n_child(c) - k,
{
    if k < 1 || k >= t.n_child(c) {
        Seq::empty()
    } else if k == skip {
        join_named(t, c, k + 1, skip)
    } else {
        ", "@ + t.text_of(t.child(c, k)) + join_named(t, c, k + 1, skip)
    }
}

#[verifier::opaque]
pub open spec fn msg(t: SyntaxTree, i: int, file: Seq<char>) -> MessageV {
    let b = t.child(i, 0);
    let c = arg_value(t, i, 1);
    let s = t.nodes@[i].start;
    let e = t.nodes@[i].end;
    let content = "sort("@ + t.text_of(b) + join_named(t, c, 1, first_value_arg(t, c, 1))
        + ")"@;
    MessageV { kind: MsgKind::Sort, diag: diag_v(t, file, s, e, Some(fix_v(t, content, s, e))) }
}

#[verifier::rlimit(100)]
pub fn check(t: &SyntaxTree, i: usize, file: &str, new_lines: &Vec<usize>) -> (r: Option<
    Message,
>)
    requires
        rule_ctx(*t, i as int, new_lines@),
    ensures
        r is Some <==> fires(*t, i as int),
        r is Some ==> r->Some_0@ == msg(*t, i as int, file@),
{
    proof {
        reveal(fires);
        reveal(msg);
    }
    if !(t.kind_at(i) == NodeKind::Subset && t.n_child_at(i) == 2) {
        return None;
    }
    let b = t.child_at(i, 0);
    if t.kind_at(b) != NodeKind::Ident {
        return None;
    }
    proof {
        assert(node_ok(t.nodes@, t.text@, i as int));
    }
    let a = t.child_at(i, 1);
    if !(t.kind_at(a) == NodeKind::Arg && t.n_child_at(a) == 1) {
        return None;
    }
    proof {
        assert(node_ok(t.nodes@, t.text@, a as int));
    }
    let c = t.child_at(a, 0);
    if !call_named(t, c, "order") {
        return None;
    }
    let n = t.n_child_at(c);
    if n < 2 {
        return None;
    }
    proof {
        assert(c as int == arg_value(*t, i as int, 1));
        assert(node_ok(t.nodes@, t.text@, c as int));
    }
    // exactly one positional argument, every other one named with a value
    let mut cnt: usize = 0;
    let mut shape_ok = true;
    let mut k: usize = 1;
    while k < n
        invariant
            rule_ctx(*t, i as int, new_lines@),
            c < t.nodes@.len(),
            n as int == t.n_child(c as int),
            1 <= k <= n,
            cnt <= k,
            cnt as int + count_value_args(*t, c as int, k as int) == count_value_args(
                *t,
                c as int,
                1,
            ),
            shape_ok <==> (forall|kk: int|
                1 <= kk < k ==> is_value_arg(*t, c as int, kk) || (t.kind(
                    #[trigger] t.child(c as int, kk),
                ) == NodeKind::NamedArg && t.n_child(t.child(c as int, kk)) == 2)),
        decreases n - k,
    {
        proof {
            assert(node_ok(t.nodes@, t.text@, c as int));
        }
        let ck = t.child_at(c, k);
        if t.kind_at(ck) == NodeKind::Arg && t.n_child_at(ck) == 1 {
            cnt += 1;
        } else if !(t.kind_at(ck) == NodeKind::NamedArg && t.n_child_at(ck) == 2) {
            shape_ok = false;
        }
        k += 1;
    }
    if cnt != 1 || !shape_ok {
        return None;
    }
    let pk = match find_value_arg(t, c, 1) {
        Some(pk) => pk,
        None => {
            return None;
        },
    };
    let pa = t.child_at(c, pk);
    proof {
        assert(node_ok(t.nodes@, t.text@, pa as int));
    }
    let pv = t.child_at(pa, 0);
    if !(t.kind_at(pv) == NodeKind::Ident) {
        return None;
    }
    if !crate::text::chars_eq(&t.nodes[pv].text, &t.nodes[b].text) {
        return None;
    }
    proof {
        assert(pv as int == arg_value(*t, c as int, first_value_arg(*t, c as int, 1)));
        assert(args_shape_ok(*t, c as int, 1));
        assert(node_ok(t.nodes@, t.text@, b as int));
    }
    let mut buf: Vec<char> = Vec::new();
    push_str_chars(&mut buf, "sort(");
    push_range(&mut buf, &t.nodes[b].text, 0, t.nodes[b].text.len());
    proof {
        assert(buf@ =~= "sort("@ + t.text_of(b as int));
    }
    let mut k: usize = 1;
    while k < n
        invariant
            rule_ctx(*t, i as int, new_lines@),
            b < t.nodes@.len(),
            c < t.nodes@.len(),
            n as int == t.n_child(c as int),
            1 <= k <= n,
            pk < n,
            buf@ + join_named(*t, c as int, k as int, pk as int) == "sort("@ + t.text_of(
                b as int,
            ) + join_named(*t, c as int, 1, pk as int),
        decreases n - k,
    {
        proof {
            assert(node_ok(t.nodes@, t.text@, c as int));
        }
        if k != pk {
            let ck = t.child_at(c, k);
            proof {
                assert(node_ok(t.nodes@, t.text@, ck as int));
            }
            let ghost before = buf@;
            push_str_chars(&mut buf, ", ");
            push_range(&mut buf, &t.nodes[ck].text, 0, t.nodes[ck].text.len());
            proof {
                assert(buf@ =~= before + (", "@ + t.text_of(ck as int)));
                assert(buf@ + join_named(*t, c as int, k + 1 as int, pk as int) =~= before
                    + join_named(*t, c as int, k as int, pk as int));
            }
        }
        k += 1;
    }
    push_str_chars(&mut buf, ")");
    proof {
        assert(buf@ =~= "sort("@ + t.text_of(b as int) + join_named(
            *t,
            c as int,
            1,
            first_value_arg(*t, c as int, 1),
        ) + ")"@);
    }
    let s = t.start_at(i);
    let e = t.end_at(i);
    let fix = make_fix(t, &buf, s, e);
    Some(Message::Sort(make_diag(Ghost(*t), file, new_lines, s, e, Some(fix))))
}

} // verus!

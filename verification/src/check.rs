//! Rule dispatch: one traversal of the syntax tree, invoking every enabled
//! rule at every node and accumulating the diagnostics in traversal order.
//!
//! Every rule has a specification twin: `fires` says exactly on which nodes
//! it reports, and a message function says exactly which diagnostic it
//! builds.  `check_tree` is proved to return precisely the concatenation of
//! those messages over the preorder traversal (`collect_node`).

use vstd::prelude::*;
use vstd::string::*;
use crate::location::{count_le, find_row_col, last_le, newline_index, Location};
use crate::message::{DiagV, Diagnostic, Fix, FixV, Message, MessageV, MsgKind};
use crate::rule_table::{spec_enabled, table_view, RuleTable, RuleV};
use crate::syntax::{node_ok, tree_wf, NodeKind, SyntaxTree};
use crate::text::{push_range, push_str_chars, string_of};
use crate::lints::any_is_na;
use crate::lints::any_duplicated;
use crate::lints::length_levels;
use crate::lints::length_test;
use crate::lints::lengths;
use crate::lints::which_grepl;
use crate::lints::grepv;
use crate::lints::sort;
use crate::lints::redundant_equals;
use crate::lints::equals_na;
use crate::lints::class_equals;
use crate::lints::equal_assignment;
use crate::lints::empty_assignment;
use crate::lints::true_false_symbol;
use crate::lints::numeric_leading_zero;
use crate::lints::all_equal;
use crate::lints::expect_named;
use crate::lints::expect_not;
use crate::lints::for_loop_index;

verus! {

/// Common preconditions of every rule check: a well-formed tree, a node
/// index inside it, and the precomputed newline index of its text.
pub open spec fn rule_ctx(t: SyntaxTree, i: int, new_lines: Seq<usize>) -> bool {
    &&& tree_wf(t)
    &&& 0 <= i < t.nodes@.len()
    &&& new_lines == newline_index(t.text@)
    &&& t.text@.len() < usize::MAX
    &&& new_lines.len() < usize::MAX
}

/// The diagnostic data a rule reports for range `[start, end)` with the
/// given fix.
pub open spec fn diag_v(
    t: SyntaxTree,
    file: Seq<char>,
    start: usize,
    end: usize,
    fix: Option<FixV>,
) -> DiagV {
    DiagV {
        filename: file,
        row: count_le(newline_index(t.text@), start) + 1,
        column: start - last_le(newline_index(t.text@), start) + 1,
        start: start as int,
        end: end as int,
        fix,
    }
}

/// Builds the concrete `Diagnostic` matching `diag_v`.
pub fn make_diag(
    Ghost(t): Ghost<SyntaxTree>,
    file: &str,
    new_lines: &Vec<usize>,
    start: usize,
    end: usize,
    fix: Option<Fix>,
) -> (d: Diagnostic)
    requires
        new_lines@ == newline_index(t.text@),
        start < usize::MAX,
        new_lines@.len() < usize::MAX,
    ensures
        d@ == diag_v(
            t,
            file@,
            start,
            end,
            match fix {
                Some(f) => Some(f@),
                None => None::<FixV>,
            },
        ),
{
    let (row, column) = find_row_col(start, new_lines);
    Diagnostic {
        filename: String::from_str(file),
        location: Location { row, column },
        start,
        end,
        fix,
    }
}

/// Is node `i` a call whose callee is the identifier `name`?
pub open spec fn is_call_named(t: SyntaxTree, i: int, name: Seq<char>) -> bool {
    &&& t.kind(i) == NodeKind::Call
    &&& t.n_child(i) >= 1
    &&& t.kind(t.child(i, 0)) == NodeKind::Ident
    &&& t.text_of(t.child(i, 0)) == name
}

/// Decides `is_call_named`.
pub fn call_named(t: &SyntaxTree, i: usize, name: &str) -> (r: bool)
    requires
        tree_wf(*t),
        i < t.nodes@.len(),
    ensures
        r == is_call_named(*t, i as int, name@),
{
    if t.kind_at(i) != NodeKind::Call {
        return false;
    }
    if t.n_child_at(i) < 1 {
        return false;
    }
    let c = t.child_at(i, 0);
    t.kind_at(c) == NodeKind::Ident && t.text_is(c, name)
}

/// Is child `k` of node `i` a positional argument carrying a value?
pub open spec fn is_value_arg(t: SyntaxTree, i: int, k: int) -> bool {
    &&& t.kind(t.child(i, k)) == NodeKind::Arg
    &&& t.n_child(t.child(i, k)) == 1
}

/// The value of argument child `k` of node `i`.
pub open spec fn arg_value(t: SyntaxTree, i: int, k: int) -> int {
    t.child(t.child(i, k), 0)
}

/// The first `k >= from` such that child `k` of `i` is a positional
/// argument with a value, or `-1`.
pub open spec fn first_value_arg(t: SyntaxTree, i: int, from: int) -> int
    decreases t.n_child(i) - from,
{
    if from < 0 || from >= t.n_child(i) {
        -1
    } else if is_value_arg(t, i, from) {
        from
    } else {
        first_value_arg(t, i, from + 1)
    }
}

/// Finds `first_value_arg(t, i, from)`.
#[verifier::rlimit(50)]
pub fn find_value_arg(t: &SyntaxTree, i: usize, from: usize) -> (r: Option<usize>)
    requires
        tree_wf(*t),
        i < t.nodes@.len(),
    ensures
        match r {
            Some(k) => k as int == first_value_arg(*t, i as int, from as int) && from <= k < t
                .n_child(i as int) && is_value_arg(*t, i as int, k as int),
            None => first_value_arg(*t, i as int, from as int) == -1,
        },
{
    let n = t.n_child_at(i);
    let mut k = from;
    while k < n
        invariant
            tree_wf(*t),
            i < t.nodes@.len(),
            n as int == t.n_child(i as int),
            from <= k,
            first_value_arg(*t, i as int, from as int) == first_value_arg(
                *t,
                i as int,
                k as int,
            ),
        decreases n - k,
    {
        proof {
            assert(node_ok(t.nodes@, t.text@, i as int));
        }
        let a = t.child_at(i, k);
        if t.kind_at(a) == NodeKind::Arg && t.n_child_at(a) == 1 {
            return Some(k);
        }
        k += 1;
    }
    None
}

/// The specification views of a list of messages.
pub open spec fn views(ms: Seq<Message>) -> Seq<MessageV> {
    ms.map_values(|m: Message| m@)
}

/// One or zero messages, as a sequence.
pub open spec fn maybe(c: bool, m: MessageV) -> Seq<MessageV> {
    if c {
        seq![m]
    } else {
        Seq::empty()
    }
}

/// Shorthand: is this rule name in the enabled set?
pub open spec fn on(rules: Seq<RuleV>, name: Seq<char>) -> bool {
    spec_enabled(rules, name)
}

/// The messages every enabled rule reports at node `i`, in registry order
/// (the concatenation of the four rule groups below).
pub open spec fn msgs_at(t: SyntaxTree, i: int, rules: Seq<RuleV>, file: Seq<char>) -> Seq<
    MessageV,
> {
    msgs_group_0(t, i, rules, file) + msgs_group_1(t, i, rules, file) + msgs_group_2(
        t,
        i,
        rules,
        file,
    ) + msgs_group_3(t, i, rules, file)
}

/// The messages of the whole subtree rooted at `i`, parent first, children
/// in order.
pub open spec fn collect_node(t: SyntaxTree, i: int, rules: Seq<RuleV>, file: Seq<char>) -> Seq<
    MessageV,
>
    decreases i, 1int, 0int,
{
    msgs_at(t, i, rules, file) + collect_children(t, i, 0, rules, file)
}

/// The messages of the subtrees of children `k..` of node `i`.
pub open spec fn collect_children(
    t: SyntaxTree,
    i: int,
    k: int,
    rules: Seq<RuleV>,
    file: Seq<char>,
) -> Seq<MessageV>
    decreases i, 0int, t.n_child(i) - k,
{
    if 0 <= i < t.nodes@.len() && 0 <= k < t.n_child(i) {
        (if 0 <= t.child(i, k) < i {
            collect_node(t, t.child(i, k), rules, file)
        } else {
            Seq::empty()
        }) + collect_children(t, i, k + 1, rules, file)
    } else {
        Seq::empty()
    }
}

/// Runs every enabled rule at node `i` and appends the diagnostics.
/// The messages of one group of rules at node `i`.
pub open spec fn msgs_group_0(t: SyntaxTree, i: int, rules: Seq<RuleV>, file: Seq<char>) -> Seq<
    MessageV,
> {
    maybe(on(rules, "all_equal"@) && all_equal::fires(t, i), all_equal::msg(t, i, file)) + maybe(on(rules, "any_duplicated"@) && any_duplicated::fires(t, i), any_duplicated::msg(t, i, file)) + maybe(on(rules, "any_is_na"@) && any_is_na::fires(t, i), any_is_na::msg(t, i, file)) + maybe(on(rules, "class_equals"@) && class_equals::fires(t, i), class_equals::msg(t, i, file)) + maybe(on(rules, "empty_assignment"@) && empty_assignment::fires(t, i), empty_assignment::msg(t, i, file))
}

#[verifier::rlimit(100)]
fn check_group_0(
    t: &SyntaxTree,
    i: usize,
    table: &RuleTable,
    file: &str,
    new_lines: &Vec<usize>,
    out: &mut Vec<Message>,
)
    requires
        rule_ctx(*t, i as int, new_lines@),
    ensures
        views(final(out)@) == views(old(out)@) + msgs_group_0(
            *t,
            i as int,
            table_view(*table),
            file@,
        ),
{
    let ghost rules = table_view(*table);
    let ghost base = views(out@);
    let ghost mut acc: Seq<MessageV> = Seq::empty();
    let m = if table.is_enabled("all_equal") {
        all_equal::check(t, i, file, new_lines)
    } else {
        None
    };
    match m {
        Some(msg) => {
            let ghost pre = views(out@);
            out.push(msg);
            proof {
                assert(views(out@) =~= pre.push(msg@));
            }
        },
        None => {},
    }
    proof {
        acc = acc + maybe(
            on(rules, "all_equal"@) && all_equal::fires(*t, i as int),
            all_equal::msg(*t, i as int, file@),
        );
        assert(views(out@) =~= base + acc);
    }
    let m = if table.is_enabled("any_duplicated") {
        any_duplicated::check(t, i, file, new_lines)
    } else {
        None
    };
    match m {
        Some(msg) => {
            let ghost pre = views(out@);
            out.push(msg);
            proof {
                assert(views(out@) =~= pre.push(msg@));
            }
        },
        None => {},
    }
    proof {
        acc = acc + maybe(
            on(rules, "any_duplicated"@) && any_duplicated::fires(*t, i as int),
            any_duplicated::msg(*t, i as int, file@),
        );
        assert(views(out@) =~= base + acc);
    }
    let m = if table.is_enabled("any_is_na") {
        any_is_na::check(t, i, file, new_lines)
    } else {
        None
    };
    match m {
        Some(msg) => {
            let ghost pre = views(out@);
            out.push(msg);
            proof {
                assert(views(out@) =~= pre.push(msg@));
            }
        },
        None => {},
    }
    proof {
        acc = acc + maybe(
            on(rules, "any_is_na"@) && any_is_na::fires(*t, i as int),
            any_is_na::msg(*t, i as int, file@),
        );
        assert(views(out@) =~= base + acc);
    }
    let m = if table.is_enabled("class_equals") {
        class_equals::check(t, i, file, new_lines)
    } else {
        None
    };
    match m {
        Some(msg) => {
            let ghost pre = views(out@);
            out.push(msg);
            proof {
                assert(views(out@) =~= pre.push(msg@));
            }
        },
        None => {},
    }
    proof {
        acc = acc + maybe(
            on(rules, "class_equals"@) && class_equals::fires(*t, i as int),
            class_equals::msg(*t, i as int, file@),
        );
        assert(views(out@) =~= base + acc);
    }
    let m = if table.is_enabled("empty_assignment") {
        empty_assignment::check(t, i, file, new_lines)
    } else {
        None
    };
    match m {
        Some(msg) => {
            let ghost pre = views(out@);
            out.push(msg);
            proof {
                assert(views(out@) =~= pre.push(msg@));
            }
        },
        None => {},
    }
    proof {
        acc = acc + maybe(
            on(rules, "empty_assignment"@) && empty_assignment::fires(*t, i as int),
            empty_assignment::msg(*t, i as int, file@),
        );
        assert(views(out@) =~= base + acc);
    }
    proof {
        assert(acc =~= msgs_group_0(*t, i as int, rules, file@));
    }
}

/// The messages of one group of rules at node `i`.
pub open spec fn msgs_group_1(t: SyntaxTree, i: int, rules: Seq<RuleV>, file: Seq<char>) -> Seq<
    MessageV,
> {
    maybe(on(rules, "equal_assignment"@) && equal_assignment::fires(t, i), equal_assignment::msg(t, i, file)) + maybe(on(rules, "equals_na"@) && equals_na::fires(t, i), equals_na::msg(t, i, file)) + maybe(on(rules, "expect_named"@) && expect_named::fires(t, i), expect_named::msg(t, i, file)) + maybe(on(rules, "expect_not"@) && expect_not::fires(t, i), expect_not::msg(t, i, file)) + maybe(on(rules, "for_loop_index"@) && for_loop_index::fires(t, i), for_loop_index::msg(t, i, file))
}

#[verifier::rlimit(100)]
fn check_group_1(
    t: &SyntaxTree,
    i: usize,
    table: &RuleTable,
    file: &str,
    new_lines: &Vec<usize>,
    out: &mut Vec<Message>,
)
    requires
        rule_ctx(*t, i as int, new_lines@),
    ensures
        views(final(out)@) == views(old(out)@) + msgs_group_1(
            *t,
            i as int,
            table_view(*table),
            file@,
        ),
{
    let ghost rules = table_view(*table);
    let ghost base = views(out@);
    let ghost mut acc: Seq<MessageV> = Seq::empty();
    let m = if table.is_enabled("equal_assignment") {
        equal_assignment::check(t, i, file, new_lines)
    } else {
        None
    };
    match m {
        Some(msg) => {
            let ghost pre = views(out@);
            out.push(msg);
            proof {
                assert(views(out@) =~= pre.push(msg@));
            }
        },
        None => {},
    }
    proof {
        acc = acc + maybe(
            on(rules, "equal_assignment"@) && equal_assignment::fires(*t, i as int),
            equal_assignment::msg(*t, i as int, file@),
        );
        assert(views(out@) =~= base + acc);
    }
    let m = if table.is_enabled("equals_na") {
        equals_na::check(t, i, file, new_lines)
    } else {
        None
    };
    match m {
        Some(msg) => {
            let ghost pre = views(out@);
            out.push(msg);
            proof {
                assert(views(out@) =~= pre.push(msg@));
            }
        },
        None => {},
    }
    proof {
        acc = acc + maybe(
            on(rules, "equals_na"@) && equals_na::fires(*t, i as int),
            equals_na::msg(*t, i as int, file@),
        );
        assert(views(out@) =~= base + acc);
    }
    let m = if table.is_enabled("expect_named") {
        expect_named::check(t, i, file, new_lines)
    } else {
        None
    };
    match m {
        Some(msg) => {
            let ghost pre = views(out@);
            out.push(msg);
            proof {
                assert(views(out@) =~= pre.push(msg@));
            }
        },
        None => {},
    }
    proof {
        acc = acc + maybe(
            on(rules, "expect_named"@) && expect_named::fires(*t, i as int),
            expect_named::msg(*t, i as int, file@),
        );
        assert(views(out@) =~= base + acc);
    }
    let m = if table.is_enabled("expect_not") {
        expect_not::check(t, i, file, new_lines)
    } else {
        None
    };
    match m {
        Some(msg) => {
            let ghost pre = views(out@);
            out.push(msg);
            proof {
                assert(views(out@) =~= pre.push(msg@));
            }
        },
        None => {},
    }
    proof {
        acc = acc + maybe(
            on(rules, "expect_not"@) && expect_not::fires(*t, i as int),
            expect_not::msg(*t, i as int, file@),
        );
        assert(views(out@) =~= base + acc);
    }
    let m = if table.is_enabled("for_loop_index") {
        for_loop_index::check(t, i, file, new_lines)
    } else {
        None
    };
    match m {
        Some(msg) => {
            let ghost pre = views(out@);
            out.push(msg);
            proof {
                assert(views(out@) =~= pre.push(msg@));
            }
        },
        None => {},
    }
    proof {
        acc = acc + maybe(
            on(rules, "for_loop_index"@) && for_loop_index::fires(*t, i as int),
            for_loop_index::msg(*t, i as int, file@),
        );
        assert(views(out@) =~= base + acc);
    }
    proof {
        assert(acc =~= msgs_group_1(*t, i as int, rules, file@));
    }
}

/// The messages of one group of rules at node `i`.
pub open spec fn msgs_group_2(t: SyntaxTree, i: int, rules: Seq<RuleV>, file: Seq<char>) -> Seq<
    MessageV,
> {
    maybe(on(rules, "grepv"@) && grepv::fires(t, i), grepv::msg(t, i, file)) + maybe(on(rules, "length_levels"@) && length_levels::fires(t, i), length_levels::msg(t, i, file)) + maybe(on(rules, "length_test"@) && length_test::fires(t, i), length_test::msg(t, i, file)) + maybe(on(rules, "lengths"@) && lengths::fires(t, i), lengths::msg(t, i, file)) + maybe(on(rules, "numeric_leading_zero"@) && numeric_leading_zero::fires(t, i), numeric_leading_zero::msg(t, i, file))
}

#[verifier::rlimit(100)]
fn check_group_2(
    t: &SyntaxTree,
    i: usize,
    table: &RuleTable,
    file: &str,
    new_lines: &Vec<usize>,
    out: &mut Vec<Message>,
)
    requires
        rule_ctx(*t, i as int, new_lines@),
    ensures
        views(final(out)@) == views(old(out)@) + msgs_group_2(
            *t,
            i as int,
            table_view(*table),
            file@,
        ),
{
    let ghost rules = table_view(*table);
    let ghost base = views(out@);
    let ghost mut acc: Seq<MessageV> = Seq::empty();
    let m = if table.is_enabled("grepv") {
        grepv::check(t, i, file, new_lines)
    } else {
        None
    };
    match m {
        Some(msg) => {
            let ghost pre = views(out@);
            out.push(msg);
            proof {
                assert(views(out@) =~= pre.push(msg@));
            }
        },
        None => {},
    }
    proof {
        acc = acc + maybe(
            on(rules, "grepv"@) && grepv::fires(*t, i as int),
            grepv::msg(*t, i as int, file@),
        );
        assert(views(out@) =~= base + acc);
    }
    let m = if table.is_enabled("length_levels") {
        length_levels::check(t, i, file, new_lines)
    } else {
        None
    };
    match m {
        Some(msg) => {
            let ghost pre = views(out@);
            out.push(msg);
            proof {
                assert(views(out@) =~= pre.push(msg@));
            }
        },
        None => {},
    }
    proof {
        acc = acc + maybe(
            on(rules, "length_levels"@) && length_levels::fires(*t, i as int),
            length_levels::msg(*t, i as int, file@),
        );
        assert(views(out@) =~= base + acc);
    }
    let m = if table.is_enabled("length_test") {
        length_test::check(t, i, file, new_lines)
    } else {
        None
    };
    match m {
        Some(msg) => {
            let ghost pre = views(out@);
            out.push(msg);
            proof {
                assert(views(out@) =~= pre.push(msg@));
            }
        },
        None => {},
    }
    proof {
        acc = acc + maybe(
            on(rules, "length_test"@) && length_test::fires(*t, i as int),
            length_test::msg(*t, i as int, file@),
        );
        assert(views(out@) =~= base + acc);
    }
    let m = if table.is_enabled("lengths") {
        lengths::check(t, i, file, new_lines)
    } else {
        None
    };
    match m {
        Some(msg) => {
            let ghost pre = views(out@);
            out.push(msg);
            proof {
                assert(views(out@) =~= pre.push(msg@));
            }
        },
        None => {},
    }
    proof {
        acc = acc + maybe(
            on(rules, "lengths"@) && lengths::fires(*t, i as int),
            lengths::msg(*t, i as int, file@),
        );
        assert(views(out@) =~= base + acc);
    }
    let m = if table.is_enabled("numeric_leading_zero") {
        numeric_leading_zero::check(t, i, file, new_lines)
    } else {
        None
    };
    match m {
        Some(msg) => {
            let ghost pre = views(out@);
            out.push(msg);
            proof {
                assert(views(out@) =~= pre.push(msg@));
            }
        },
        None => {},
    }
    proof {
        acc = acc + maybe(
            on(rules, "numeric_leading_zero"@) && numeric_leading_zero::fires(*t, i as int),
            numeric_leading_zero::msg(*t, i as int, file@),
        );
        assert(views(out@) =~= base + acc);
    }
    proof {
        assert(acc =~= msgs_group_2(*t, i as int, rules, file@));
    }
}

/// The messages of one group of rules at node `i`.
pub open spec fn msgs_group_3(t: SyntaxTree, i: int, rules: Seq<RuleV>, file: Seq<char>) -> Seq<
    MessageV,
> {
    maybe(on(rules, "redundant_equals"@) && redundant_equals::fires(t, i), redundant_equals::msg(t, i, file)) + maybe(on(rules, "sort"@) && sort::fires(t, i), sort::msg(t, i, file)) + maybe(on(rules, "true_false_symbol"@) && true_false_symbol::fires(t, i), true_false_symbol::msg(t, i, file)) + maybe(on(rules, "which_grepl"@) && which_grepl::fires(t, i), which_grepl::msg(t, i, file))
}

#[verifier::rlimit(100)]
fn check_group_3(
    t: &SyntaxTree,
    i: usize,
    table: &RuleTable,
    file: &str,
    new_lines: &Vec<usize>,
    out: &mut Vec<Message>,
)
    requires
        rule_ctx(*t, i as int, new_lines@),
    ensures
        views(final(out)@) == views(old(out)@) + msgs_group_3(
            *t,
            i as int,
            table_view(*table),
            file@,
        ),
{
    let ghost rules = table_view(*table);
    let ghost base = views(out@);
    let ghost mut acc: Seq<MessageV> = Seq::empty();
    let m = if table.is_enabled("redundant_equals") {
        redundant_equals::check(t, i, file, new_lines)
    } else {
        None
    };
    match m {
        Some(msg) => {
            let ghost pre = views(out@);
            out.push(msg);
            proof {
                assert(views(out@) =~= pre.push(msg@));
            }
        },
        None => {},
    }
    proof {
        acc = acc + maybe(
            on(rules, "redundant_equals"@) && redundant_equals::fires(*t, i as int),
            redundant_equals::msg(*t, i as int, file@),
        );
        assert(views(out@) =~= base + acc);
    }
    let m = if table.is_enabled("sort") {
        sort::check(t, i, file, new_lines)
    } else {
        None
    };
    match m {
        Some(msg) => {
            let ghost pre = views(out@);
            out.push(msg);
            proof {
                assert(views(out@) =~= pre.push(msg@));
            }
        },
        None => {},
    }
    proof {
        acc = acc + maybe(
            on(rules, "sort"@) && sort::fires(*t, i as int),
            sort::msg(*t, i as int, file@),
        );
        assert(views(out@) =~= base + acc);
    }
    let m = if table.is_enabled("true_false_symbol") {
        true_false_symbol::check(t, i, file, new_lines)
    } else {
        None
    };
    match m {
        Some(msg) => {
            let ghost pre = views(out@);
            out.push(msg);
            proof {
                assert(views(out@) =~= pre.push(msg@));
            }
        },
        None => {},
    }
    proof {
        acc = acc + maybe(
            on(rules, "true_false_symbol"@) && true_false_symbol::fires(*t, i as int),
            true_false_symbol::msg(*t, i as int, file@),
        );
        assert(views(out@) =~= base + acc);
    }
    let m = if table.is_enabled("which_grepl") {
        which_grepl::check(t, i, file, new_lines)
    } else {
        None
    };
    match m {
        Some(msg) => {
            let ghost pre = views(out@);
            out.push(msg);
            proof {
                assert(views(out@) =~= pre.push(msg@));
            }
        },
        None => {},
    }
    proof {
        acc = acc + maybe(
            on(rules, "which_grepl"@) && which_grepl::fires(*t, i as int),
            which_grepl::msg(*t, i as int, file@),
        );
        assert(views(out@) =~= base + acc);
    }
    proof {
        assert(acc =~= msgs_group_3(*t, i as int, rules, file@));
    }
}

#[verifier::rlimit(100)]
#[verifier::spinoff_prover]
fn check_one_node(
    t: &SyntaxTree,
    i: usize,
    table: &RuleTable,
    file: &str,
    new_lines: &Vec<usize>,
    out: &mut Vec<Message>,
)
    requires
        rule_ctx(*t, i as int, new_lines@),
    ensures
        views(final(out)@) == views(old(out)@) + msgs_at(*t, i as int, table_view(*table), file@),
{
    let ghost rules = table_view(*table);
    check_group_0(t, i, table, file, new_lines, out);
    check_group_1(t, i, table, file, new_lines, out);
    check_group_2(t, i, table, file, new_lines, out);
    check_group_3(t, i, table, file, new_lines, out);
    proof {
        lemma_groups_cover(*t, i as int, rules, file@);
        assert(views(out@) =~= views(old(out)@) + msgs_at(*t, i as int, rules, file@));
    }
}

/// The four rule groups together are exactly the registry-ordered message
/// collection.
proof fn lemma_groups_cover(t: SyntaxTree, i: int, rules: Seq<RuleV>, file: Seq<char>)
    ensures
        msgs_group_0(t, i, rules, file) + msgs_group_1(t, i, rules, file) + msgs_group_2(
            t,
            i,
            rules,
            file,
        ) + msgs_group_3(t, i, rules, file) == msgs_at(t, i, rules, file),
{
}

/// Preorder traversal from node `i`: the node's own messages, then each
/// child's subtree.
#[verifier::rlimit(100)]
fn check_node_rec(
    t: &SyntaxTree,
    i: usize,
    table: &RuleTable,
    file: &str,
    new_lines: &Vec<usize>,
    out: &mut Vec<Message>,
)
    requires
        rule_ctx(*t, i as int, new_lines@),
    ensures
        views(final(out)@) == views(old(out)@) + collect_node(*t, i as int, table_view(*table), file@),
    decreases i,
{
    let ghost rules = table_view(*table);
    check_one_node(t, i, table, file, new_lines, out);
    let n = t.n_child_at(i);
    let mut k: usize = 0;
    while k < n
        invariant
            rule_ctx(*t, i as int, new_lines@),
            rules == table_view(*table),
            n as int == t.n_child(i as int),
            k <= n,
            views(out@) + collect_children(*t, i as int, k as int, rules, file@) == views(
                old(out)@,
            ) + collect_node(*t, i as int, rules, file@),
        decreases n - k,
    {
        let ghost before = views(out@);
        proof {
            assert(node_ok(t.nodes@, t.text@, i as int));
        }
        let c = t.child_at(i, k);
        check_node_rec(t, c, table, file, new_lines, out);
        proof {
            assert(collect_children(*t, i as int, k as int, rules, file@) == collect_node(
                *t,
                c as int,
                rules,
                file@,
            ) + collect_children(*t, i as int, k + 1 as int, rules, file@));
            assert(views(out@) + collect_children(*t, i as int, k + 1 as int, rules, file@)
                =~= before + collect_children(*t, i as int, k as int, rules, file@));
        }
        k += 1;
    }
    proof {
        assert(collect_children(*t, i as int, n as int, rules, file@) =~= Seq::<
            MessageV,
        >::empty());
        assert(views(out@) =~= views(out@) + Seq::<MessageV>::empty());
    }
}

/// Runs every enabled rule over the whole tree; the result is exactly the
/// preorder collection of every rule's messages.
pub fn check_tree(t: &SyntaxTree, table: &RuleTable, file: &str) -> (r: Vec<Message>)
    requires
        tree_wf(*t),
        t.text@.len() < usize::MAX,
    ensures
        views(r@) == collect_node(*t, t.spec_root(), table_view(*table), file@),
{
    let new_lines = crate::location::find_new_lines(&t.text);
    proof {
        lemma_newline_index_len(t.text@);
    }
    let mut out: Vec<Message> = Vec::new();
    proof {
        assert(views(out@) =~= Seq::<MessageV>::empty());
    }
    let root = t.root();
    check_node_rec(t, root, table, file, &new_lines, &mut out);
    out
}

/// There are no more newlines than characters.
proof fn lemma_newline_index_len(text: Seq<char>)
    ensures
        newline_index(text).len() <= text.len(),
    decreases text.len(),
{
    if text.len() > 0 {
        lemma_newline_index_len(text.drop_last());
    }
}


/// Is argument `k` of call `i` a positional argument holding a call to
/// `inner` that itself has a positional argument with a value?
pub open spec fn arg_is_inner_call(t: SyntaxTree, i: int, k: int, inner: Seq<char>) -> bool {
    &&& is_value_arg(t, i, k)
    &&& is_call_named(t, arg_value(t, i, k), inner)
    &&& first_value_arg(t, arg_value(t, i, k), 1) >= 0
}

/// The first `k >= from` with `arg_is_inner_call`, or `-1`.
pub open spec fn first_inner_arg(t: SyntaxTree, i: int, from: int, inner: Seq<char>) -> int
    decreases t.n_child(i) - from,
{
    if from < 0 || from >= t.n_child(i) {
        -1
    } else if arg_is_inner_call(t, i, from, inner) {
        from
    } else {
        first_inner_arg(t, i, from + 1, inner)
    }
}

/// Does node `i` match `any(..., inner(v), ...)`: a call to `any` with some
/// positional argument that is a call to `inner` carrying a value?
pub open spec fn any_pattern_fires(t: SyntaxTree, i: int, inner: Seq<char>) -> bool {
    &&& is_call_named(t, i, "any"@)
    &&& first_inner_arg(t, i, 1, inner) >= 0
}

/// The value inside the matched inner call.
pub open spec fn any_pattern_value(t: SyntaxTree, i: int, inner: Seq<char>) -> int {
    let c = arg_value(t, i, first_inner_arg(t, i, 1, inner));
    arg_value(t, c, first_value_arg(t, c, 1))
}

/// The diagnostic an `any(inner(...))` rule reports: the whole call's
/// range, with a fix rewriting it to `prefix <value> suffix`.
pub open spec fn any_pattern_diag(
    t: SyntaxTree,
    i: int,
    file: Seq<char>,
    inner: Seq<char>,
    prefix: Seq<char>,
    suffix: Seq<char>,
) -> DiagV {
    let s = t.nodes@[i].start;
    let e = t.nodes@[i].end;
    diag_v(
        t,
        file,
        s,
        e,
        Some(
            FixV {
                content: prefix + t.text_of(any_pattern_value(t, i, inner)) + suffix,
                start: s as int,
                end: e as int,
                to_skip: t.spec_comment_attached(s as int, e as int),
            },
        ),
    )
}

/// Finds `first_inner_arg(t, i, 1, inner)`.
#[verifier::rlimit(100)]
fn find_inner_arg(t: &SyntaxTree, i: usize, inner: &str) -> (r: Option<usize>)
    requires
        tree_wf(*t),
        i < t.nodes@.len(),
    ensures
        match r {
            Some(k) => k as int == first_inner_arg(*t, i as int, 1, inner@) && 1 <= k < t.n_child(
                i as int,
            ) && arg_is_inner_call(*t, i as int, k as int, inner@),
            None => first_inner_arg(*t, i as int, 1, inner@) == -1,
        },
{
    let n = t.n_child_at(i);
    let mut k: usize = 1;
    while k < n
        invariant
            tree_wf(*t),
            i < t.nodes@.len(),
            n as int == t.n_child(i as int),
            1 <= k,
            first_inner_arg(*t, i as int, 1, inner@) == first_inner_arg(
                *t,
                i as int,
                k as int,
                inner@,
            ),
        decreases n - k,
    {
        proof {
            assert(node_ok(t.nodes@, t.text@, i as int));
        }
        let a = t.child_at(i, k);
        let mut hit = false;
        if t.kind_at(a) == NodeKind::Arg && t.n_child_at(a) == 1 {
            proof {
                assert(node_ok(t.nodes@, t.text@, a as int));
            }
            let c = t.child_at(a, 0);
            if call_named(t, c, inner) {
                match find_value_arg(t, c, 1) {
                    Some(_j) => {
                        hit = true;
                    },
                    None => {},
                }
            }
        }
        if hit {
            proof {
                assert(arg_is_inner_call(*t, i as int, k as int, inner@));
            }
            return Some(k);
        }
        proof {
            assert(!arg_is_inner_call(*t, i as int, k as int, inner@));
        }
        k += 1;
    }
    None
}

/// Checks the `any(inner(...))` pattern and builds its diagnostic.
#[verifier::rlimit(100)]
pub fn check_any_pattern(
    t: &SyntaxTree,
    i: usize,
    file: &str,
    new_lines: &Vec<usize>,
    inner: &str,
    prefix: &str,
    suffix: &str,
) -> (r: Option<Diagnostic>)
    requires
        rule_ctx(*t, i as int, new_lines@),
    ensures
        r is Some <==> any_pattern_fires(*t, i as int, inner@),
        r is Some ==> r->Some_0@ == any_pattern_diag(
            *t,
            i as int,
            file@,
            inner@,
            prefix@,
            suffix@,
        ),
{
    if !call_named(t, i, "any") {
        return None;
    }
    let k = match find_inner_arg(t, i, inner) {
        None => {
            return None;
        },
        Some(k) => k,
    };
    proof {
        assert(node_ok(t.nodes@, t.text@, i as int));
    }
    let a = t.child_at(i, k);
    proof {
        assert(node_ok(t.nodes@, t.text@, a as int));
    }
    let c = t.child_at(a, 0);
    let j = match find_value_arg(t, c, 1) {
        None => {
            proof {
                assert(false);
            }
            return None;
        },
        Some(j) => j,
    };
    proof {
        assert(node_ok(t.nodes@, t.text@, c as int));
    }
    let an = t.child_at(c, j);
    proof {
        assert(node_ok(t.nodes@, t.text@, an as int));
        assert(is_value_arg(*t, c as int, j as int));
    }
    let v = t.child_at(an, 0);
    proof {
        assert(c as int == arg_value(*t, i as int, k as int));
        assert(k as int == first_inner_arg(*t, i as int, 1, inner@));
        assert(v as int == arg_value(*t, c as int, j as int));
        assert(v as int == any_pattern_value(*t, i as int, inner@));
    }
    let mut buf: Vec<char> = Vec::new();
    push_str_chars(&mut buf, prefix);
    push_range(&mut buf, &t.nodes[v].text, 0, t.nodes[v].text.len());
    push_str_chars(&mut buf, suffix);
    proof {
        assert(buf@ =~= prefix@ + t.text_of(v as int) + suffix@);
    }
    let content = string_of(&buf);
    let s = t.start_at(i);
    let e = t.end_at(i);
    let fix = Fix { content, start: s, end: e, to_skip: t.comment_attached(s, e) };
    Some(make_diag(Ghost(*t), file, new_lines, s, e, Some(fix)))
}

/// A binary-expression node: `[lhs, operator, rhs]`.
pub open spec fn is_binary(t: SyntaxTree, i: int) -> bool {
    t.kind(i) == NodeKind::Binary && t.n_child(i) == 3
}

/// The operator text of a binary node.
pub open spec fn op_text(t: SyntaxTree, i: int) -> Seq<char> {
    t.text_of(t.child(i, 1))
}

/// The fix a rule attaches for replacing `[s, e)` by `content`; it is
/// never auto-applied when a comment is attached to the range.
pub open spec fn fix_v(t: SyntaxTree, content: Seq<char>, s: usize, e: usize) -> FixV {
    FixV {
        content,
        start: s as int,
        end: e as int,
        to_skip: t.spec_comment_attached(s as int, e as int),
    }
}

/// Builds the concrete `Fix` matching `fix_v`.
pub fn make_fix(t: &SyntaxTree, buf: &Vec<char>, s: usize, e: usize) -> (f: Fix)
    ensures
        f@ == fix_v(*t, buf@, s, e),
{
    Fix { content: string_of(buf), start: s, end: e, to_skip: t.comment_attached(s, e) }
}

/// Decides `arg_is_inner_call`.
pub fn arg_inner_call(t: &SyntaxTree, i: usize, k: usize, inner: &str) -> (r: bool)
    requires
        tree_wf(*t),
        i < t.nodes@.len(),
        k < t.n_child(i as int),
    ensures
        r == arg_is_inner_call(*t, i as int, k as int, inner@),
{
    proof {
        assert(node_ok(t.nodes@, t.text@, i as int));
    }
    let a = t.child_at(i, k);
    if !(t.kind_at(a) == NodeKind::Arg && t.n_child_at(a) == 1) {
        return false;
    }
    proof {
        assert(node_ok(t.nodes@, t.text@, a as int));
    }
    let c = t.child_at(a, 0);
    if !call_named(t, c, inner) {
        return false;
    }
    match find_value_arg(t, c, 1) {
        Some(_j) => true,
        None => false,
    }
}

/// The value inside the inner call of a matched `arg_is_inner_call`.
pub fn inner_call_value(t: &SyntaxTree, i: usize, k: usize, Ghost(inner): Ghost<Seq<char>>) -> (v:
    usize)
    requires
        tree_wf(*t),
        i < t.nodes@.len(),
        k < t.n_child(i as int),
        arg_is_inner_call(*t, i as int, k as int, inner),
    ensures
        v < t.nodes@.len(),
        v as int == arg_value(
            *t,
            arg_value(*t, i as int, k as int),
            first_value_arg(*t, arg_value(*t, i as int, k as int), 1),
        ),
{
    proof {
        assert(node_ok(t.nodes@, t.text@, i as int));
    }
    let a = t.child_at(i, k);
    proof {
        assert(node_ok(t.nodes@, t.text@, a as int));
    }
    let c = t.child_at(a, 0);
    let j = match find_value_arg(t, c, 1) {
        Some(j) => j,
        None => {
            proof {
                assert(false);
            }
            0
        },
    };
    proof {
        assert(node_ok(t.nodes@, t.text@, c as int));
    }
    let an = t.child_at(c, j);
    proof {
        assert(node_ok(t.nodes@, t.text@, an as int));
        assert(is_value_arg(*t, c as int, j as int));
    }
    t.child_at(an, 0)
}

/// Is `s` one of the comparison operators?
pub open spec fn is_cmp_op(s: Seq<char>) -> bool {
    s == "=="@ || s == "!="@ || s == "<"@ || s == ">"@ || s == "<="@ || s == ">="@
}

/// The first `k >= from` such that child `k` of `i` is a named argument
/// `name = value`, or `-1`.
pub open spec fn first_named_arg(t: SyntaxTree, i: int, from: int, name: Seq<char>) -> int
    decreases t.n_child(i) - from,
{
    if from < 0 || from >= t.n_child(i) {
        -1
    } else if is_named_arg(t, i, from, name) {
        from
    } else {
        first_named_arg(t, i, from + 1, name)
    }
}

/// Is child `k` of `i` a named argument `name = value`?
pub open spec fn is_named_arg(t: SyntaxTree, i: int, k: int, name: Seq<char>) -> bool {
    &&& t.kind(t.child(i, k)) == NodeKind::NamedArg
    &&& t.n_child(t.child(i, k)) == 2
    &&& t.text_of(t.child(t.child(i, k), 0)) == name
}

/// The value of the named argument child `k` of `i`.
pub open spec fn named_arg_value(t: SyntaxTree, i: int, k: int) -> int {
    t.child(t.child(i, k), 1)
}

/// Finds `first_named_arg(t, i, from, name)`.
#[verifier::rlimit(50)]
pub fn find_named_arg(t: &SyntaxTree, i: usize, from: usize, name: &str) -> (r: Option<usize>)
    requires
        tree_wf(*t),
        i < t.nodes@.len(),
    ensures
        match r {
            Some(k) => k as int == first_named_arg(*t, i as int, from as int, name@) && from <= k
                < t.n_child(i as int) && is_named_arg(*t, i as int, k as int, name@),
            None => first_named_arg(*t, i as int, from as int, name@) == -1,
        },
{
    let n = t.n_child_at(i);
    let mut k = from;
    while k < n
        invariant
            tree_wf(*t),
            i < t.nodes@.len(),
            n as int == t.n_child(i as int),
            from <= k,
            first_named_arg(*t, i as int, from as int, name@) == first_named_arg(
                *t,
                i as int,
                k as int,
                name@,
            ),
        decreases n - k,
    {
        proof {
            assert(node_ok(t.nodes@, t.text@, i as int));
        }
        let a = t.child_at(i, k);
        if t.kind_at(a) == NodeKind::NamedArg && t.n_child_at(a) == 2 {
            proof {
                assert(node_ok(t.nodes@, t.text@, a as int));
            }
            let nm = t.child_at(a, 0);
            if t.text_is(nm, name) {
                return Some(k);
            }
        }
        proof {
            assert(!is_named_arg(*t, i as int, k as int, name@));
        }
        k += 1;
    }
    None
}

/// The child index of the `cnt`-th positional argument at or after `from`,
/// or `-1`.
pub open spec fn nth_value_arg(t: SyntaxTree, i: int, from: int, cnt: int) -> int
    decreases t.n_child(i) - from,
{
    if from < 0 || from >= t.n_child(i) || cnt < 1 {
        -1
    } else if is_value_arg(t, i, from) {
        if cnt == 1 {
            from
        } else {
            nth_value_arg(t, i, from + 1, cnt - 1)
        }
    } else {
        nth_value_arg(t, i, from + 1, cnt)
    }
}

/// Finds `nth_value_arg(t, i, from, cnt)`.
#[verifier::rlimit(50)]
pub fn find_nth_value_arg(t: &SyntaxTree, i: usize, from: usize, cnt: usize) -> (r: Option<usize>)
    requires
        tree_wf(*t),
        i < t.nodes@.len(),
        cnt >= 1,
    ensures
        match r {
            Some(k) => k as int == nth_value_arg(*t, i as int, from as int, cnt as int) && from
                <= k < t.n_child(i as int) && is_value_arg(*t, i as int, k as int),
            None => nth_value_arg(*t, i as int, from as int, cnt as int) == -1,
        },
{
    let n = t.n_child_at(i);
    let mut k = from;
    let mut c = cnt;
    while k < n
        invariant
            tree_wf(*t),
            i < t.nodes@.len(),
            n as int == t.n_child(i as int),
            from <= k,
            1 <= c <= cnt,
            nth_value_arg(*t, i as int, from as int, cnt as int) == nth_value_arg(
                *t,
                i as int,
                k as int,
                c as int,
            ),
        decreases n - k,
    {
        proof {
            assert(node_ok(t.nodes@, t.text@, i as int));
        }
        let a = t.child_at(i, k);
        if t.kind_at(a) == NodeKind::Arg && t.n_child_at(a) == 1 {
            if c == 1 {
                return Some(k);
            }
            c -= 1;
        }
        k += 1;
    }
    None
}

/// How many positional value arguments follow position `from`.
pub open spec fn count_value_args(t: SyntaxTree, i: int, from: int) -> int
    decreases t.n_child(i) - from,
{
    if from < 0 || from >= t.n_child(i) {
        0
    } else {
        (if is_value_arg(t, i, from) {
            1int
        } else {
            0int
        }) + count_value_args(t, i, from + 1)
    }
}

} // verus!

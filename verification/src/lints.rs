//! The set of rules this linter knows, with their metadata.
//!
//! The individual pattern-matching rule bodies live in the submodules; this
//! module owns the registry entries: name, categories, fix safety, and the
//! minimum language version a rewrite needs.
//!
//! Categories:
//! * CORR: correctness, code that is outright wrong or useless
//! * SUSP: suspicious, code that is most likely wrong or useless
//! * PERF: performance, code that can be written to run faster
//! * READ: readability, code that is correct but can be written in a way
//!   that is easier to read.


pub mod all_equal;
pub mod any_duplicated;
pub mod any_is_na;
pub mod class_equals;
pub mod empty_assignment;
pub mod equal_assignment;
pub mod equals_na;
pub mod expect_named;
pub mod expect_not;
pub mod for_loop_index;
pub mod grepv;
pub mod length_levels;
pub mod length_test;
pub mod lengths;
pub mod numeric_leading_zero;
pub mod redundant_equals;
pub mod sort;
pub mod true_false_symbol;
pub mod which_grepl;

use vstd::prelude::*;
use crate::rule_table::{table_view, RuleTable, RuleV};
use crate::text::split_chars;

verus! {

/// Shorthand for one registry entry.
pub open spec fn rv(
    name: Seq<char>,
    categories: Seq<char>,
    should_fix: bool,
    minimum_r_version: Option<(u32, u32)>,
) -> RuleV {
    RuleV { name, categories: split_chars(categories, ','), should_fix, minimum_r_version }
}

/// Every rule the linter knows, in registry order.  Only rules with a
/// checker module are listed: a registry entry without one would make its
/// selection silently inert.
pub open spec fn spec_all_rules() -> Seq<RuleV> {
    seq![
        rv("all_equal"@, "SUSP"@, false, None),
        rv("any_duplicated"@, "PERF"@, true, None),
        rv("any_is_na"@, "PERF"@, true, None),
        rv("class_equals"@, "SUSP"@, false, None),
        rv("empty_assignment"@, "READ"@, true, None),
        rv("equal_assignment"@, "READ"@, true, None),
        rv("equals_na"@, "CORR"@, true, None),
        rv("expect_named"@, "READ"@, true, None),
        rv("expect_not"@, "READ"@, true, None),
        rv("for_loop_index"@, "SUSP"@, false, None),
        rv("grepv"@, "READ"@, true, Some((4u32, 5u32))),
        rv("length_levels"@, "PERF,READ"@, true, None),
        rv("length_test"@, "CORR"@, true, None),
        rv("lengths"@, "PERF,READ"@, true, None),
        rv("numeric_leading_zero"@, "READ"@, true, None),
        rv("redundant_equals"@, "READ"@, true, None),
        rv("sort"@, "PERF,READ"@, true, None),
        rv("true_false_symbol"@, "READ"@, false, None),
        rv("which_grepl"@, "PERF,READ"@, true, None),
    ]
}

/// List of supported rules and whether they have a safe fix.
pub fn all_rules_and_safety() -> (r: RuleTable)
    ensures
        table_view(r) == spec_all_rules(),
{
    let mut t = RuleTable::empty();
    t.enable("all_equal", "SUSP", false, None);
    t.enable("any_duplicated", "PERF", true, None);
    t.enable("any_is_na", "PERF", true, None);
    t.enable("class_equals", "SUSP", false, None);
    t.enable("empty_assignment", "READ", true, None);
    t.enable("equal_assignment", "READ", true, None);
    t.enable("equals_na", "CORR", true, None);
    t.enable("expect_named", "READ", true, None);
    t.enable("expect_not", "READ", true, None);
    t.enable("for_loop_index", "SUSP", false, None);
    t.enable("grepv", "READ", true, Some((4, 5)));
    t.enable("length_levels", "PERF,READ", true, None);
    t.enable("length_test", "CORR", true, None);
    t.enable("lengths", "PERF,READ", true, None);
    t.enable("numeric_leading_zero", "READ", true, None);
    t.enable("redundant_equals", "READ", true, None);
    t.enable("sort", "PERF,READ", true, None);
    t.enable("true_false_symbol", "READ", false, None);
    t.enable("which_grepl", "PERF,READ", true, None);
    proof {
        assert(table_view(t) =~= spec_all_rules());
    }
    t
}

} // verus!

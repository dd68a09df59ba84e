//! The table of known lint rules.
//!
//! Each rule has a unique name, category tags, a flag saying whether its fix
//! is safe to apply automatically, and an optional minimum language version.
//! The table is built once at start-up and treated as immutable thereafter.

use vstd::prelude::*;
use vstd::string::*;
use crate::text::{chars_match_str, split_chars, split_str, string_of};

verus! {

/// One known rule.
#[derive(Debug)]
pub struct Rule {
    pub name: String,
    /// Category tags such as `PERF` or `READ`.
    pub categories: Vec<String>,
    /// Does the rule's rewrite preserve behaviour, so that it may be applied
    /// without the unsafe-fixes opt-in?
    pub should_fix: bool,
    /// The `(major, minor)` language version the rewrite needs, when it
    /// relies on functions absent from older versions.
    pub minimum_r_version: Option<(u32, u32)>,
}

/// Specification view of a rule.
pub struct RuleV {
    pub name: Seq<char>,
    pub categories: Seq<Seq<char>>,
    pub should_fix: bool,
    pub minimum_r_version: Option<(u32, u32)>,
}

impl View for Rule {
    type V = RuleV;

    open spec fn view(&self) -> RuleV {
        RuleV {
            name: self.name@,
            categories: self.categories@.map_values(|c: String| c@),
            should_fix: self.should_fix,
            minimum_r_version: self.minimum_r_version,
        }
    }
}

/// The set of enabled rules.
#[derive(Debug)]
pub struct RuleTable {
    pub enabled: Vec<Rule>,
}

/// The view of a whole table.
pub open spec fn table_view(t: RuleTable) -> Seq<RuleV> {
    t.enabled@.map_values(|r: Rule| r@)
}

/// Is a rule of this name in the table?
pub open spec fn spec_enabled(rules: Seq<RuleV>, name: Seq<char>) -> bool {
    exists|i: int| 0 <= i < rules.len() && (#[trigger] rules[i]).name == name
}

impl RuleTable {
    /// Creates a new empty rule table.
    pub fn empty() -> (r: RuleTable)
        ensures
            table_view(r) == Seq::<RuleV>::empty(),
    {
        let t = RuleTable { enabled: Vec::new() };
        proof {
            assert(table_view(t) =~= Seq::<RuleV>::empty());
        }
        t
    }

    /// Enables the given rule; the category string is split on commas.
    pub fn enable(
        &mut self,
        rule: &str,
        categories: &str,
        should_fix: bool,
        minimum_r_version: Option<(u32, u32)>,
    )
        ensures
            table_view(*final(self)) == table_view(*old(self)).push(
                RuleV {
                    name: rule@,
                    categories: split_chars(categories@, ','),
                    should_fix,
                    minimum_r_version,
                },
            ),
    {
        let pieces = split_str(categories, ',');
        let mut cats: Vec<String> = Vec::new();
        let mut i: usize = 0;
        while i < pieces.len()
            invariant
                i <= pieces@.len(),
                cats@.len() == i,
                forall|j: int| 0 <= j < i ==> (#[trigger] cats@[j])@ == pieces@[j]@,
            decreases pieces@.len() - i,
        {
            cats.push(string_of(&pieces[i]));
            i += 1;
        }
        proof {
            assert(cats@.map_values(|c: String| c@) =~= pieces@.map_values(|p: Vec<char>| p@));
        }
        let ghost pre = table_view(*self);
        self.enabled.push(
            Rule { name: String::from_str(rule), categories: cats, should_fix, minimum_r_version },
        );
        proof {
            assert(table_view(*self) =~= pre.push(
                RuleV {
                    name: rule@,
                    categories: split_chars(categories@, ','),
                    should_fix,
                    minimum_r_version,
                },
            ));
        }
    }

    /// The rules of the table, for iteration by index.
    pub fn iter(&self) -> (r: &Vec<Rule>)
        ensures
            r == &self.enabled,
    {
        &self.enabled
    }

    /// Is a rule of this name in the table?
    pub fn is_enabled(&self, name: &str) -> (r: bool)
        ensures
            r == spec_enabled(table_view(*self), name@),
    {
        let mut i: usize = 0;
        while i < self.enabled.len()
            invariant
                i <= self.enabled@.len(),
                forall|j: int|
                    0 <= j < i ==> (#[trigger] table_view(*self)[j]).name != name@,
            decreases self.enabled@.len() - i,
        {
            let cs = crate::text::chars_of(self.enabled[i].name.as_str());
            if chars_match_str(&cs, name) {
                proof {
                    assert((table_view(*self)[i as int]).name == name@);
                }
                return true;
            }
            i += 1;
        }
        false
    }
}

/// Duplicates a rule (the derived clone carries no specification, so the
/// copy is built field by field).
pub fn clone_rule(r: &Rule) -> (c: Rule)
    ensures
        c@ == r@,
{
    let mut cats: Vec<String> = Vec::new();
    let mut i: usize = 0;
    while i < r.categories.len()
        invariant
            i <= r.categories@.len(),
            cats@.len() == i,
            forall|j: int| 0 <= j < i ==> (#[trigger] cats@[j])@ == (r.categories@[j])@,
        decreases r.categories@.len() - i,
    {
        cats.push(String::from_str(r.categories[i].as_str()));
        i += 1;
    }
    let c = Rule {
        name: String::from_str(r.name.as_str()),
        categories: cats,
        should_fix: r.should_fix,
        minimum_r_version: r.minimum_r_version,
    };
    proof {
        assert(c@.categories =~= r@.categories);
    }
    c
}

} // verus!

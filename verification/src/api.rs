//! The top-level linting entry points: detect diagnostics in source text
//! and apply the resulting fixes.

use vstd::prelude::*;
use vstd::string::*;
use crate::check::{check_tree, collect_node, views};
use crate::config::{spec_parse_version, spec_report_rules};
use crate::fix::{apply_all, apply_fix_list, apply_init, fixes_wf};
use crate::message::{body_of_kind, code_of_kind, Fix, FixV, Message, MessageV};
use crate::parser::parse_chars;
use crate::rule_table::{table_view, RuleTable, RuleV};
use crate::syntax::{tree_wf, SyntaxTree};
use crate::text::{chars_of, string_of, spec_contains, contains_str};

verus! {

/// The rule set a selection string and minimum-version argument denote:
/// the named rules after version gating, or nothing when the version
/// argument is malformed.
pub open spec fn selection(rule: Seq<char>, v: Option<Seq<char>>) -> Option<Seq<RuleV>> {
    match v {
        None => Some(spec_report_rules(rule, None)),
        Some(s) => match spec_parse_version(s) {
            Some(m) => Some(spec_report_rules(rule, Some(m))),
            None => None,
        },
    }
}

/// The view of an optional version string.
pub open spec fn opt_view(v: Option<&str>) -> Option<Seq<char>> {
    match v {
        None => None,
        Some(s) => Some(s@),
    }
}

/// Does the message's body or code contain the needle?
pub open spec fn msg_matches(m: MessageV, needle: Seq<char>) -> bool {
    spec_contains(body_of_kind(m.kind), needle) || spec_contains(code_of_kind(m.kind), needle)
}

/// Does some message of the list match the needle?
pub open spec fn some_match(ms: Seq<MessageV>, needle: Seq<char>) -> bool {
    exists|j: int| 0 <= j < ms.len() && msg_matches(#[trigger] ms[j], needle)
}

/// Parses source text into a syntax tree.  A returned tree is well-formed
/// and spans exactly the given text.  Which texts are accepted is decided
/// by the parser itself; the `None` arm therefore carries no specification,
/// and a caller who needs the pinned path holds the tree and runs
/// `check_tree` on it.
pub fn parse_source(text: &str) -> (r: Option<SyntaxTree>)
    ensures
        match r {
            Some(t) => tree_wf(t) && t.text@ == text@ && t.text@.len() < usize::MAX,
            None => true,
        },
{
    let cs = chars_of(text);
    if cs.len() == usize::MAX {
        return None;
    }
    parse_chars(&cs)
}

/// Detects the enabled rules' diagnostics in `text`: the convenience
/// composition of `parse_source` and `check_tree`.  Returns `None` when
/// the text does not parse; otherwise the diagnostics are exactly the
/// traversal collection over the parsed well-formed tree of the text
/// (stated here as an existential; `parse_source` + `check_tree` give the
/// same result with the tree in hand).
pub fn detect(text: &str, table: &RuleTable) -> (r: Option<Vec<Message>>)
    ensures
        match r {
            Some(ms) => exists|t: SyntaxTree|
                tree_wf(t) && t.text@ == text@ && t.text@.len() < usize::MAX && #[trigger] views(
                    ms@,
                ) == collect_node(t, t.spec_root(), table_view(*table), ""@),
            None => true,
        },
{
    let tree = match parse_source(text) {
        Some(t) => t,
        None => {
            return None;
        },
    };
    let ms = check_tree(&tree, table, "");
    proof {
        assert(tree_wf(tree) && tree.text@ == text@ && views(ms@) == collect_node(
            tree,
            tree.spec_root(),
            table_view(*table),
            ""@,
        ));
    }
    Some(ms)
}

/// Does the text lint clean for the given rule selection?  True when the
/// text parses and no enabled rule reports, and also when the text cannot
/// be parsed at all (an unparseable file produces no diagnostics) or the
/// version argument is malformed.  A `false` answer is evidenced: some
/// well-formed tree of the text carries a diagnostic of the selected
/// rules.  (The converse direction would need a tree-independent statement
/// of which texts parse, which the operational parser does not provide.)
pub fn no_lint(text: &str, rule: &str, min_r_version: Option<&str>) -> (r: bool)
    ensures
        selection(rule@, opt_view(min_r_version)) is None ==> r,
        !r ==> match selection(rule@, opt_view(min_r_version)) {
            Some(rules) => exists|t: SyntaxTree|
                {
                    &&& #[trigger] tree_wf(t)
                    &&& t.text@ == text@
                    &&& t.text@.len() < usize::MAX
                    &&& collect_node(t, t.spec_root(), rules, ""@).len() > 0
                },
            None => false,
        },
{
    match detect_selected(text, rule, min_r_version) {
        None => true,
        Some(ms) => ms.len() == 0,
    }
}

/// Is a diagnostic whose body or code contains `msg` reported for the
/// text under the given rule selection?  A `true` answer is evidenced:
/// some well-formed tree of the text carries a matching diagnostic of the
/// selected rules.
pub fn has_lint(text: &str, msg: &str, rule: &str, min_r_version: Option<&str>) -> (r: bool)
    ensures
        selection(rule@, opt_view(min_r_version)) is None ==> !r,
        r ==> match selection(rule@, opt_view(min_r_version)) {
            Some(rules) => exists|t: SyntaxTree|
                {
                    &&& #[trigger] tree_wf(t)
                    &&& t.text@ == text@
                    &&& t.text@.len() < usize::MAX
                    &&& some_match(collect_node(t, t.spec_root(), rules, ""@), msg@)
                },
            None => false,
        },
{
    match detect_selected(text, rule, min_r_version) {
        None => false,
        Some(ms) => {
            let mut i: usize = 0;
            while i < ms.len()
                invariant
                    detect_selected_post(ms, text@, rule@, opt_view(min_r_version)),
                    i <= ms@.len(),
                decreases ms@.len() - i,
            {
                let body = chars_of(ms[i].body());
                let code = chars_of(ms[i].code());
                let hit = contains_str(&body, msg) || contains_str(&code, msg);
                if hit {
                    proof {
                        assert(views(ms@)[i as int] == ms@[i as int]@);
                        assert(views(ms@)[i as int].kind == ms@[i as int].spec_kind());
                        assert(body_of_kind(views(ms@)[i as int].kind) == body@);
                        assert(code_of_kind(views(ms@)[i as int].kind) == code@);
                        assert(spec_contains(body@, msg@) || spec_contains(code@, msg@));
                        assert(msg_matches(views(ms@)[i as int], msg@));
                        assert(some_match(views(ms@), msg@));
                    }
                    return true;
                }
                i += 1;
            }
            false
        },
    }
}

/// What `detect_selected` guarantees of a `Some` result.
pub open spec fn detect_selected_post(
    ms: Vec<Message>,
    text: Seq<char>,
    rule: Seq<char>,
    v: Option<Seq<char>>,
) -> bool {
    match selection(rule, v) {
        Some(rules) => exists|t: SyntaxTree|
            {
                &&& #[trigger] tree_wf(t)
                &&& t.text@ == text
                &&& t.text@.len() < usize::MAX
                &&& views(ms@) == collect_node(t, t.spec_root(), rules, ""@)
            },
        None => false,
    }
}

/// Runs detection with the rule selection and minimum version given as
/// strings, as the command line supplies them.
fn detect_selected(text: &str, rule: &str, min_r_version: Option<&str>) -> (r: Option<
    Vec<Message>,
>)
    ensures
        match r {
            Some(ms) => detect_selected_post(ms, text@, rule@, opt_view(min_r_version)),
            None => true,
        },
{
    let min = match min_r_version {
        None => None,
        Some(s) => Some(String::from_str(s)),
    };
    let args = crate::config::CliArgs {
        dir: String::new(),
        fix: false,
        unsafe_fixes: false,
        rules: String::from_str(rule),
        with_timing: false,
        min_r_version: min,
    };
    let cfg = match crate::config::build_config(&args, Vec::new()) {
        Ok(c) => c,
        Err(_) => {
            return None;
        },
    };
    detect(text, &cfg.rules)
}

/// Expects the text to lint clean; returns whether it does, with the same
/// guarantee as `no_lint`.
pub fn expect_no_lint(text: &str, rule: &str, min_r_version: Option<&str>) -> (r: bool)
    ensures
        selection(rule@, opt_view(min_r_version)) is None ==> r,
        !r ==> match selection(rule@, opt_view(min_r_version)) {
            Some(rules) => exists|t: SyntaxTree|
                {
                    &&& #[trigger] tree_wf(t)
                    &&& t.text@ == text@
                    &&& t.text@.len() < usize::MAX
                    &&& collect_node(t, t.spec_root(), rules, ""@).len() > 0
                },
            None => false,
        },
{
    no_lint(text, rule, min_r_version)
}

/// Expects a diagnostic containing `msg`; returns whether one is reported,
/// with the same guarantee as `has_lint`.
pub fn expect_lint(text: &str, msg: &str, rule: &str, min_r_version: Option<&str>) -> (r: bool)
    ensures
        selection(rule@, opt_view(min_r_version)) is None ==> !r,
        r ==> match selection(rule@, opt_view(min_r_version)) {
            Some(rules) => exists|t: SyntaxTree|
                {
                    &&& #[trigger] tree_wf(t)
                    &&& t.text@ == text@
                    &&& t.text@.len() < usize::MAX
                    &&& some_match(collect_node(t, t.spec_root(), rules, ""@), msg@)
                },
            None => false,
        },
{
    has_lint(text, msg, rule, min_r_version)
}

/// Takes all diagnostics found in a given file and the content of this
/// file, and applies the automatic fixes in one pass.  Returns whether
/// some overlapping fixes were skipped (the caller then re-runs detection
/// and repeats), and the rewritten content; the rewrite is exactly the
/// `apply_all` model over the diagnostics' fixes.
pub fn apply_fixes(fixes: &Vec<Message>, contents: &str) -> (r: (bool, String))
    requires
        fixes_wf(crate::fix::message_fixes(fixes@), contents@.len() as int),
    ensures
        ({
            let s = apply_all(
                crate::fix::message_fixes(fixes@),
                apply_init(contents@),
            );
            r.0 == s.skipped && r.1@ == s.text
        }),
{
    let cs = chars_of(contents);
    let mut fs: Vec<Fix> = Vec::new();
    let mut i: usize = 0;
    while i < fixes.len()
        invariant
            i <= fixes@.len(),
            fs@.map_values(|f: Fix| f@) =~= crate::fix::message_fixes(fixes@).subrange(
                0,
                i as int,
            ),
        decreases fixes@.len() - i,
    {
        let d = fixes[i].diag();
        let ghost pre = fs@.map_values(|f: Fix| f@);
        match &d.fix {
            Some(f) => {
                fs.push(
                    Fix {
                        content: String::from_str(f.content.as_str()),
                        start: f.start,
                        end: f.end,
                        to_skip: f.to_skip,
                    },
                );
            },
            None => {
                fs.push(Fix { content: String::new(), start: 0, end: 0, to_skip: true });
            },
        }
        proof {
            let full = crate::fix::message_fixes(fixes@);
            assert(fs@.map_values(|f: Fix| f@) =~= pre.push(full[i as int]));
            assert(fs@.map_values(|f: Fix| f@) =~= full.subrange(0, i + 1 as int));
        }
        i += 1;
    }
    proof {
        let full = crate::fix::message_fixes(fixes@);
        assert(full.subrange(0, fixes@.len() as int) =~= full);
    }
    let (skipped, out) = apply_fix_list(&fs, &cs);
    (skipped, string_of(&out))
}

} // verus!

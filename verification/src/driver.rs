//! The fixpoint loop of the diagnostic-fix pipeline: detect diagnostics,
//! apply the non-conflicting fixes, re-parse the rewritten text, and repeat
//! until a detection pass finds no applicable fix.  An iteration cap bounds
//! the loop; when it is exhausted the remaining conflicts are surfaced as
//! unresolved rather than retried forever.
//!
//! Idempotence is the driver's contract: when it reports a clean result,
//! the tree its final pass parsed from the output text carries zero
//! applicable fixes under the apply rule set, so re-running the driver on
//! its own output applies nothing.

use vstd::prelude::*;
use vstd::string::*;
use crate::check::{check_tree, collect_node, views};
use crate::config::Config;
use crate::fix::{apply_all, apply_fix_list, apply_init, fixes_wf};
use crate::message::{Fix, FixV, Message, MessageV};
use crate::parser::{parse_chars, ParseError};
use crate::rule_table::table_view;
use crate::syntax::{tree_wf, SyntaxTree};
use crate::text::{chars_of, string_of};

verus! {

/// How many detect-apply rounds the driver attempts before reporting the
/// remaining conflicts as unresolved.
pub const FIXPOINT_CAP: usize = 25;

/// Does the message carry a fix that may be applied automatically?
pub open spec fn applicable(m: MessageV) -> bool {
    match m.diag.fix {
        Some(f) => !f.to_skip,
        None => false,
    }
}

/// No message of the list carries an applicable fix.
pub open spec fn no_applicable(ms: Seq<MessageV>) -> bool {
    forall|j: int| 0 <= j < ms.len() ==> !applicable(#[trigger] ms[j])
}

/// The fix handed to the applier for one message: its own fix when that is
/// applicable and lies within the text, otherwise a fix that is never
/// applied.
pub open spec fn checked_fix(m: MessageV, len: int) -> FixV {
    let never = FixV { content: Seq::empty(), start: 0, end: 0, to_skip: true };
    match m.diag.fix {
        Some(f) => if !f.to_skip && 0 <= f.start <= f.end <= len {
            f
        } else {
            never
        },
        None => never,
    }
}

/// The applier input derived from a list of messages.
pub open spec fn checked_fixes(ms: Seq<MessageV>, len: int) -> Seq<FixV> {
    ms.map_values(|m: MessageV| checked_fix(m, len))
}

/// Builds the applier input for the messages, in order; the result is
/// always well-formed for the text length.
fn messages_to_fixes(ms: &Vec<Message>, len: usize) -> (r: Vec<Fix>)
    ensures
        r@.map_values(|f: Fix| f@) == checked_fixes(views(ms@), len as int),
        fixes_wf(r@.map_values(|f: Fix| f@), len as int),
{
    let mut fs: Vec<Fix> = Vec::new();
    let mut i: usize = 0;
    while i < ms.len()
        invariant
            i <= ms@.len(),
            fs@.map_values(|f: Fix| f@) =~= checked_fixes(views(ms@), len as int).subrange(
                0,
                i as int,
            ),
            fixes_wf(fs@.map_values(|f: Fix| f@), len as int),
        decreases ms@.len() - i,
    {
        let ghost pre = fs@.map_values(|f: Fix| f@);
        let d = ms[i].diag();
        let mut keep = false;
        match &d.fix {
            Some(f) => {
                if !f.to_skip && f.start <= f.end && f.end <= len {
                    fs.push(
                        Fix {
                            content: String::from_str(f.content.as_str()),
                            start: f.start,
                            end: f.end,
                            to_skip: f.to_skip,
                        },
                    );
                    keep = true;
                }
            },
            None => {},
        }
        if !keep {
            fs.push(Fix { content: String::new(), start: 0, end: 0, to_skip: true });
        }
        proof {
            let full = checked_fixes(views(ms@), len as int);
            assert(full[i as int] == checked_fix(views(ms@)[i as int], len as int));
            assert(fs@.map_values(|f: Fix| f@) =~= pre.push(full[i as int]));
            assert(fs@.map_values(|f: Fix| f@) =~= full.subrange(0, i + 1 as int));
        }
        i += 1;
    }
    proof {
        assert(checked_fixes(views(ms@), len as int).subrange(0, ms@.len() as int)
            =~= checked_fixes(views(ms@), len as int));
    }
    fs
}

/// Does some message carry an applicable fix?
fn has_applicable(ms: &Vec<Message>) -> (r: bool)
    ensures
        r == !no_applicable(views(ms@)),
{
    let mut i: usize = 0;
    while i < ms.len()
        invariant
            i <= ms@.len(),
            forall|j: int| 0 <= j < i ==> !applicable(#[trigger] views(ms@)[j]),
        decreases ms@.len() - i,
    {
        let d = ms[i].diag();
        match &d.fix {
            Some(f) => {
                if !f.to_skip {
                    proof {
                        assert(applicable(views(ms@)[i as int]));
                    }
                    return true;
                }
            },
            None => {},
        }
        proof {
            assert(!applicable(views(ms@)[i as int]));
        }
        i += 1;
    }
    proof {
        vstd::assert_by_contradiction!(no_applicable(views(ms@)), {
            let w = choose|j: int| 0 <= j < views(ms@).len() && applicable(#[trigger] views(ms@)[j]);
            assert(!applicable(views(ms@)[w]));
        });
    }
    false
}

/// Repeats detect-then-apply until a detection pass finds no applicable
/// fix, re-parsing the rewritten text between rounds, for at most `cap`
/// apply rounds.  Returns the final text, the diagnostics of the final
/// pass under the reporting rule set, and whether the fixpoint was
/// reached; `Err` when some round's text does not parse.
///
/// On a clean result the returned evidence is idempotence: the tree the
/// final pass parsed from the output text has no applicable fix left under
/// the apply rule set, and the returned diagnostics are exactly the
/// reporting rule set's findings on that same tree.
pub fn run_fixpoint(text: &str, file: &str, config: &Config, cap: usize) -> (r: Result<
    (String, Vec<Message>, bool),
    ParseError,
>)
    ensures
        match r {
            Ok(out) => out.2 ==> exists|t: SyntaxTree|
                {
                    &&& #[trigger] tree_wf(t)
                    &&& t.text@ == out.0@
                    &&& t.text@.len() < usize::MAX
                    &&& no_applicable(
                        collect_node(
                            t,
                            t.spec_root(),
                            table_view(config.rules_to_apply),
                            file@,
                        ),
                    )
                    &&& views(out.1@) == collect_node(
                        t,
                        t.spec_root(),
                        table_view(config.rules),
                        file@,
                    )
                },
            Err(e) => e.filename@ == file@,
        },
{
    let mut cur: Vec<char> = chars_of(text);
    let mut rounds: usize = 0;
    loop
        invariant
            rounds <= cap,
        decreases cap - rounds,
    {
        if cur.len() == usize::MAX {
            // cannot index such a text; report the conflicts as unresolved
            return Ok((string_of(&cur), Vec::new(), false));
        }
        let tree = match parse_chars(&cur) {
            Some(t) => t,
            None => {
                return Err(ParseError { filename: String::from_str(file) });
            },
        };
        let apply_ms = check_tree(&tree, &config.rules_to_apply, file);
        if !has_applicable(&apply_ms) {
            let report = check_tree(&tree, &config.rules, file);
            proof {
                assert(tree.text@ == cur@);
            }
            return Ok((string_of(&cur), report, true));
        }
        if rounds == cap {
            let report = check_tree(&tree, &config.rules, file);
            return Ok((string_of(&cur), report, false));
        }
        let fs = messages_to_fixes(&apply_ms, cur.len());
        let (_skipped, rewritten) = apply_fix_list(&fs, &cur);
        cur = rewritten;
        rounds += 1;
    }
}

/// The outcome of checking one file's content.
pub struct FileReport {
    /// The file's path, as given.
    pub path: String,
    /// Did the content parse?  A file that does not parse contributes no
    /// diagnostics and is reported through this flag.
    pub parsed: bool,
    /// The content after fixing (the original content when not fixing or
    /// when the parse failed).
    pub fixed: String,
    /// The diagnostics of the final pass under the reporting rule set.
    pub diagnostics: Vec<Message>,
    /// Was the fixpoint reached (always set when only linting)?
    pub clean: bool,
}

/// What `check_files` guarantees of one report.
pub open spec fn file_report_ok(
    rep: FileReport,
    path: Seq<char>,
    content: Seq<char>,
    config: Config,
) -> bool {
    &&& rep.path@ == path
    &&& !rep.parsed ==> rep.fixed@ == content && rep.diagnostics@.len() == 0 && !rep.clean
    &&& !config.should_fix ==> rep.fixed@ == content
    &&& (rep.parsed && rep.clean) ==> exists|t: SyntaxTree|
        {
            &&& #[trigger] tree_wf(t)
            &&& t.text@ == rep.fixed@
            &&& t.text@.len() < usize::MAX
            &&& (config.should_fix ==> no_applicable(
                collect_node(t, t.spec_root(), table_view(config.rules_to_apply), path),
            ))
            &&& views(rep.diagnostics@) == collect_node(
                t,
                t.spec_root(),
                table_view(config.rules),
                path,
            )
        }
}

/// Checks every `(path, content)` pair: runs the fixpoint loop per file
/// when fixing, a single detection pass otherwise.  One file's parse
/// failure does not stop the others; it yields a report with `parsed`
/// false.  Writing rewritten contents back and printing the reports are
/// the callers' concern.
pub fn check_files(files: &Vec<(String, String)>, config: &Config) -> (r: Vec<FileReport>)
    ensures
        r@.len() == files@.len(),
        forall|k: int|
            0 <= k < r@.len() ==> file_report_ok(
                #[trigger] r@[k],
                files@[k].0@,
                files@[k].1@,
                *config,
            ),
{
    let mut out: Vec<FileReport> = Vec::new();
    let mut i: usize = 0;
    while i < files.len()
        invariant
            i <= files@.len(),
            out@.len() == i,
            forall|k: int|
                0 <= k < i ==> file_report_ok(#[trigger] out@[k], files@[k].0@, files@[k].1@, *config),
        decreases files@.len() - i,
    {
        let (path, content) = &files[i];
        let rep = check_one_file(path, content, config);
        out.push(rep);
        i += 1;
    }
    out
}

/// Checks one file's content.
fn check_one_file(path: &String, content: &String, config: &Config) -> (rep: FileReport)
    ensures
        file_report_ok(rep, path@, content@, *config),
{
    if config.should_fix {
        match run_fixpoint(content.as_str(), path.as_str(), config, FIXPOINT_CAP) {
            Ok((fixed, diagnostics, clean)) => FileReport {
                path: String::from_str(path.as_str()),
                parsed: true,
                fixed,
                diagnostics,
                clean,
            },
            Err(_) => FileReport {
                path: String::from_str(path.as_str()),
                parsed: false,
                fixed: String::from_str(content.as_str()),
                diagnostics: Vec::new(),
                clean: false,
            },
        }
    } else {
        let cs = chars_of(content.as_str());
        if cs.len() == usize::MAX {
            return FileReport {
                path: String::from_str(path.as_str()),
                parsed: false,
                fixed: String::from_str(content.as_str()),
                diagnostics: Vec::new(),
                clean: false,
            };
        }
        match parse_chars(&cs) {
            Some(tree) => {
                let diagnostics = check_tree(&tree, &config.rules, path.as_str());
                FileReport {
                    path: String::from_str(path.as_str()),
                    parsed: true,
                    fixed: String::from_str(content.as_str()),
                    diagnostics,
                    clean: true,
                }
            },
            None => FileReport {
                path: String::from_str(path.as_str()),
                parsed: false,
                fixed: String::from_str(content.as_str()),
                diagnostics: Vec::new(),
                clean: false,
            },
        }
    }
}

} // verus!

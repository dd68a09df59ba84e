//! Run configuration: rule selection, fix flags, and the minimum language
//! version, resolved from the command-line arguments.

use vstd::prelude::*;
use vstd::string::*;
use vstd::seq_lib::*;
use vstd::assert_by_contradiction;
use crate::lints::{all_rules_and_safety, spec_all_rules};
use crate::rule_table::{clone_rule, table_view, Rule, RuleTable, RuleV};
use crate::text::{chars_match_str, split_chars, split_str};

verus! {

/// Command-line arguments, already parsed into plain values.
#[derive(Debug)]
pub struct CliArgs {
    /// The directory in which to check or fix lints.
    pub dir: String,
    /// Automatically fix issues detected by the linter.
    pub fix: bool,
    /// Include fixes that may not retain the original intent of the code.
    pub unsafe_fixes: bool,
    /// Names of rules to include, separated by a comma (no spaces); empty
    /// means every rule.
    pub rules: String,
    /// Show the time taken by the run.
    pub with_timing: bool,
    /// The minimum R version to be used by the linter, as `"major.minor"`.
    pub min_r_version: Option<String>,
}

/// Resolved configuration settings.
#[derive(Debug)]
pub struct Config {
    /// Paths to files to lint.
    pub paths: Vec<String>,
    /// Rules selected by the user; used for reporting.
    pub rules: RuleTable,
    /// Rules whose fixes may be applied: equal to `rules` when only
    /// linting, restricted to safe fixes when fixing without the
    /// unsafe-fixes opt-in.
    pub rules_to_apply: RuleTable,
    /// Did the user pass the fix flag?
    pub should_fix: bool,
    /// Did the user pass the unsafe-fixes flag?
    pub unsafe_fixes: bool,
    /// The minimum R version used in the project; rules that need a newer
    /// version are disabled.
    pub minimum_r_version: Option<(u32, u32)>,
}

/// Is every character a decimal digit?
pub open spec fn all_digits(s: Seq<char>) -> bool {
    forall|i: int| 0 <= i < s.len() ==> '0' <= #[trigger] s[i] <= '9'
}

/// The value of a decimal digit string.
pub open spec fn dec_val(s: Seq<char>) -> int
    decreases s.len(),
{
    if s.len() == 0 {
        0
    } else {
        dec_val(s.drop_last()) * 10 + (s.last() as int - '0' as int)
    }
}

/// A non-empty digit string whose value fits in `u32`.
pub open spec fn valid_u32(s: Seq<char>) -> bool {
    s.len() > 0 && all_digits(s) && dec_val(s) <= u32::MAX
}

proof fn lemma_dec_val_grows(s: Seq<char>, i: int)
    requires
        0 <= i <= s.len(),
        all_digits(s),
    ensures
        dec_val(s.subrange(0, i)) <= dec_val(s),
    decreases s.len() - i,
{
    if i < s.len() {
        lemma_dec_val_grows(s, i + 1);
        let a = s.subrange(0, i);
        let b = s.subrange(0, i + 1);
        assert(b.drop_last() =~= a);
        assert(dec_val(a) >= 0) by {
            lemma_dec_val_nonneg(a);
        }
        assert(dec_val(b) == dec_val(a) * 10 + (s[i] as int - '0' as int));
        assert(dec_val(a) * 10 >= dec_val(a)) by (nonlinear_arith)
            requires
                dec_val(a) >= 0,
        ;
    } else {
        assert(s.subrange(0, i) =~= s);
    }
}

proof fn lemma_dec_val_nonneg(s: Seq<char>)
    requires
        all_digits(s),
    ensures
        dec_val(s) >= 0,
    decreases s.len(),
{
    if s.len() > 0 {
        assert(all_digits(s.drop_last()));
        lemma_dec_val_nonneg(s.drop_last());
        assert(dec_val(s.drop_last()) * 10 >= 0) by (nonlinear_arith)
            requires
                dec_val(s.drop_last()) >= 0,
        ;
    }
}

/// Parses a decimal digit string into a `u32`; `None` exactly when the
/// input is empty, holds a non-digit, or does not fit.
pub fn parse_u32_chars(v: &Vec<char>) -> (r: Option<u32>)
    ensures
        r is Some <==> valid_u32(v@),
        r is Some ==> r->Some_0 as int == dec_val(v@),
{
    if v.len() == 0 {
        return None;
    }
    let mut acc: u64 = 0;
    let mut i: usize = 0;
    while i < v.len()
        invariant
            i <= v@.len(),
            all_digits(v@.subrange(0, i as int)),
            acc as int == dec_val(v@.subrange(0, i as int)),
            acc <= u32::MAX,
        decreases v@.len() - i,
    {
        let ghost pre = v@.subrange(0, i as int);
        let c = v[i];
        if !('0' <= c && c <= '9') {
            return None;
        }
        proof {
            let post = v@.subrange(0, i + 1 as int);
            assert(post.drop_last() =~= pre);
            assert(post.last() == v@[i as int]);
        }
        acc = acc * 10 + ((c as u32) as u64 - ('0' as u32) as u64);
        if acc > u32::MAX as u64 {
            proof {
                if all_digits(v@) {
                    lemma_dec_val_grows(v@, i + 1);
                }
            }
            return None;
        }
        i += 1;
    }
    proof {
        assert(v@.subrange(0, v@.len() as int) =~= v@);
    }
    Some(acc as u32)
}

/// The version encoded by `s`, which must be `major.minor` with both parts
/// valid decimal numbers.
pub open spec fn spec_parse_version(s: Seq<char>) -> Option<(u32, u32)> {
    let pieces = split_chars(s, '.');
    if pieces.len() == 2 && valid_u32(pieces[0]) && valid_u32(pieces[1]) {
        Some((dec_val(pieces[0]) as u32, dec_val(pieces[1]) as u32))
    } else {
        None
    }
}

/// Parses a minimum version argument such as `"4.3"`.  `None` stays
/// `None`; a malformed version is an error.
pub fn parse_r_version(min_r_version: &Option<String>) -> (r: Result<
    Option<(u32, u32)>,
    String,
>)
    ensures
        min_r_version is None ==> r == Result::<Option<(u32, u32)>, String>::Ok(
            Option::<(u32, u32)>::None,
        ),
        min_r_version is Some ==> match spec_parse_version(min_r_version->Some_0@) {
            Some(v) => r == Result::<Option<(u32, u32)>, String>::Ok(Some(v)),
            None => r is Err,
        },
{
    match min_r_version {
        None => Ok(None),
        Some(s) => {
            let pieces = split_str(s.as_str(), '.');
            if pieces.len() != 2 {
                return Err(String::from_str(
                    "Invalid version format. Expected 'x.y', e.g., '4.3'",
                ));
            }
            let major = parse_u32_chars(&pieces[0]);
            let minor = parse_u32_chars(&pieces[1]);
            match (major, minor) {
                (Some(ma), Some(mi)) => Ok(Some((ma, mi))),
                _ => Err(String::from_str("Version parts should be valid integers.")),
            }
        },
    }
}

/// Is the rule usable at the configured minimum version?  A rule without a
/// version requirement is always usable, and so is any rule when no minimum
/// version is configured; otherwise the rule's requirement must not exceed
/// the configured version.
pub open spec fn version_ok(rule_min: Option<(u32, u32)>, cfg_min: Option<(u32, u32)>) -> bool {
    match (rule_min, cfg_min) {
        (None, _) => true,
        (_, None) => true,
        (Some((rmaj, rmin)), Some((cmaj, cmin))) => rmaj < cmaj || (rmaj == cmaj && rmin <= cmin),
    }
}

/// Version selection: a rule is kept exactly when `version_ok` holds, so
/// a rule requiring `(4,5)` is excluded under a minimum of `(4,3)` and
/// included under `(4,5)` or when no minimum is set.
pub proof fn lemma_version_gating(rule_min: (u32, u32), cfg: (u32, u32))
    ensures
        version_ok(Some(rule_min), Some(cfg)) <==> (rule_min.0 < cfg.0 || (rule_min.0 == cfg.0
            && rule_min.1 <= cfg.1)),
        version_ok(Some(rule_min), None),
        version_ok(None, Some(cfg)),
{
}

/// `filter` distributes over `push`.
proof fn lemma_filter_push<A>(s: Seq<A>, pred: spec_fn(A) -> bool, x: A)
    ensures
        s.push(x).filter(pred) == if pred(x) {
            s.filter(pred).push(x)
        } else {
            s.filter(pred)
        },
{
    reveal(Seq::filter);
    let q = s.push(x);
    assert(q.drop_last() =~= s);
    assert(q.last() == x);
    if pred(x) {
        assert(q.filter(pred) == q.drop_last().filter(pred).push(x));
    } else {
        assert(q.filter(pred) == q.drop_last().filter(pred));
    }
}

/// Keeps the rules usable at the configured minimum version.
fn filter_rules_by_version(t: &RuleTable, min: Option<(u32, u32)>) -> (r: RuleTable)
    ensures
        table_view(r) == table_view(*t).filter(
            |rv: RuleV| version_ok(rv.minimum_r_version, min),
        ),
{
    let ghost spred = |rv: RuleV| version_ok(rv.minimum_r_version, min);
    let mut out = RuleTable::empty();
    let mut i: usize = 0;
    while i < t.enabled.len()
        invariant
            i <= t.enabled@.len(),
            spred == (|rv: RuleV| version_ok(rv.minimum_r_version, min)),
            table_view(out) == table_view(*t).subrange(0, i as int).filter(spred),
        decreases t.enabled@.len() - i,
    {
        let ghost pre = table_view(*t).subrange(0, i as int);
        proof {
            let post = table_view(*t).subrange(0, i + 1 as int);
            assert(post =~= pre.push(table_view(*t)[i as int]));
            lemma_filter_push(pre, spred, table_view(*t)[i as int]);
        }
        let keep = match (t.enabled[i].minimum_r_version, min) {
            (None, _) => true,
            (_, None) => true,
            (Some((rmaj, rmin)), Some((cmaj, cmin))) => rmaj < cmaj || (rmaj == cmaj && rmin
                <= cmin),
        };
        if keep {
            let ghost before = table_view(out);
            out.enabled.push(clone_rule(&t.enabled[i]));
            proof {
                assert(table_view(out) =~= before.push(table_view(*t)[i as int]));
            }
        }
        i += 1;
    }
    proof {
        assert(table_view(*t).subrange(0, t.enabled@.len() as int) =~= table_view(*t));
    }
    out
}

/// Keeps the rules whose fixes are safe to apply automatically.
fn filter_rules_by_safety(t: &RuleTable) -> (r: RuleTable)
    ensures
        table_view(r) == table_view(*t).filter(|rv: RuleV| rv.should_fix),
{
    let ghost spred = |rv: RuleV| rv.should_fix;
    let mut out = RuleTable::empty();
    let mut i: usize = 0;
    while i < t.enabled.len()
        invariant
            i <= t.enabled@.len(),
            spred == (|rv: RuleV| rv.should_fix),
            table_view(out) == table_view(*t).subrange(0, i as int).filter(spred),
        decreases t.enabled@.len() - i,
    {
        let ghost pre = table_view(*t).subrange(0, i as int);
        proof {
            let post = table_view(*t).subrange(0, i + 1 as int);
            assert(post =~= pre.push(table_view(*t)[i as int]));
            lemma_filter_push(pre, spred, table_view(*t)[i as int]);
        }
        if t.enabled[i].should_fix {
            let ghost before = table_view(out);
            out.enabled.push(clone_rule(&t.enabled[i]));
            proof {
                assert(table_view(out) =~= before.push(table_view(*t)[i as int]));
            }
        }
        i += 1;
    }
    proof {
        assert(table_view(*t).subrange(0, t.enabled@.len() as int) =~= table_view(*t));
    }
    out
}

/// Duplicates a whole table.
fn copy_table(t: &RuleTable) -> (r: RuleTable)
    ensures
        table_view(r) == table_view(*t),
{
    let mut out = RuleTable::empty();
    let mut i: usize = 0;
    while i < t.enabled.len()
        invariant
            i <= t.enabled@.len(),
            table_view(out) == table_view(*t).subrange(0, i as int),
        decreases t.enabled@.len() - i,
    {
        let ghost pre = table_view(*t).subrange(0, i as int);
        out.enabled.push(clone_rule(&t.enabled[i]));
        proof {
            assert(table_view(*t).subrange(0, i + 1 as int) =~= pre.push(
                table_view(*t)[i as int],
            ));
            assert(table_view(out) =~= pre.push(table_view(*t)[i as int]));
        }
        i += 1;
    }
    proof {
        assert(table_view(*t).subrange(0, t.enabled@.len() as int) =~= table_view(*t));
    }
    out
}

/// The rules named by a comma-separated selection string; an empty string
/// selects every known rule.  Unknown names are silently absent.
pub open spec fn spec_selected_rules(rules: Seq<char>) -> Seq<RuleV> {
    if rules.len() == 0 {
        spec_all_rules()
    } else {
        spec_all_rules().filter(
            |r: RuleV| split_chars(rules, ',').contains(r.name),
        )
    }
}

/// Is the given name one of the pieces?
fn name_selected(pieces: &Vec<Vec<char>>, name: &str) -> (r: bool)
    ensures
        r == pieces@.map_values(|p: Vec<char>| p@).contains(name@),
{
    let ghost sel = pieces@.map_values(|p: Vec<char>| p@);
    let mut j: usize = 0;
    while j < pieces.len()
        invariant
            j <= pieces@.len(),
            sel == pieces@.map_values(|p: Vec<char>| p@),
            forall|k: int| 0 <= k < j ==> sel[k] != name@,
        decreases pieces@.len() - j,
    {
        if chars_match_str(&pieces[j], name) {
            proof {
                assert(sel[j as int] == name@);
            }
            return true;
        }
        j += 1;
    }
    proof {
        assert_by_contradiction!(!sel.contains(name@), {
            let w = choose|w: int| 0 <= w < sel.len() && sel[w] == name@;
            assert(sel[w] != name@);
        });
    }
    false
}

/// Builds the rule table from the comma-separated rule selection string.
pub fn parse_rules_cli(rules: &str) -> (r: RuleTable)
    ensures
        table_view(r) == spec_selected_rules(rules@),
{
    let all = all_rules_and_safety();
    if rules.unicode_len() == 0 {
        return all;
    }
    let pieces = split_str(rules, ',');
    let mut out = RuleTable::empty();
    let ghost spred = |rv: RuleV| split_chars(rules@, ',').contains(rv.name);
    let mut i: usize = 0;
    while i < all.enabled.len()
        invariant
            i <= all.enabled@.len(),
            table_view(all) == spec_all_rules(),
            pieces@.map_values(|p: Vec<char>| p@) == split_chars(rules@, ','),
            spred == (|rv: RuleV| split_chars(rules@, ',').contains(rv.name)),
            table_view(out) == table_view(all).subrange(0, i as int).filter(spred),
        decreases all.enabled@.len() - i,
    {
        let ghost pre = table_view(all).subrange(0, i as int);
        proof {
            let post = table_view(all).subrange(0, i + 1 as int);
            assert(post =~= pre.push(table_view(all)[i as int]));
            lemma_filter_push(pre, spred, table_view(all)[i as int]);
        }
        let found = name_selected(&pieces, all.enabled[i].name.as_str());
        proof {
            assert(table_view(all)[i as int].name == all.enabled@[i as int].name@);
        }
        if found {
            let ghost before = table_view(out);
            out.enabled.push(clone_rule(&all.enabled[i]));
            proof {
                assert(table_view(out) =~= before.push(table_view(all)[i as int]));
            }
        } else {
            proof {
                assert(!split_chars(rules@, ',').contains(table_view(all)[i as int].name));
            }
        }
        i += 1;
    }
    proof {
        assert(table_view(all).subrange(0, all.enabled@.len() as int) =~= table_view(all));
    }
    out
}

/// The report set of a run: the selected rules that pass the version gate.
pub open spec fn spec_report_rules(rules: Seq<char>, min: Option<(u32, u32)>) -> Seq<RuleV> {
    spec_selected_rules(rules).filter(|r: RuleV| version_ok(r.minimum_r_version, min))
}

/// The apply set of a run: the report set, restricted to rules with safe
/// fixes when fixing without the unsafe-fixes opt-in.
pub open spec fn spec_apply_rules(
    rules: Seq<char>,
    min: Option<(u32, u32)>,
    fix: bool,
    unsafe_fixes: bool,
) -> Seq<RuleV> {
    if fix && !unsafe_fixes {
        spec_report_rules(rules, min).filter(|r: RuleV| r.should_fix)
    } else {
        spec_report_rules(rules, min)
    }
}

/// Resolves the configuration: selects rules, applies the version gate to
/// both rule sets, and restricts the apply set to safe fixes unless unsafe
/// fixes were requested.  Fails exactly when the minimum version argument
/// is malformed.
pub fn build_config(args: &CliArgs, paths: Vec<String>) -> (r: Result<Config, String>)
    ensures
        (match spec_parse_version_opt(args.min_r_version) {
            Some(min) => match r {
                Result::Ok(c) => {
                    &&& table_view(c.rules) == spec_report_rules(args.rules@, min)
                    &&& table_view(c.rules_to_apply) == spec_apply_rules(
                        args.rules@,
                        min,
                        args.fix,
                        args.unsafe_fixes,
                    )
                    &&& c.should_fix == args.fix
                    &&& c.unsafe_fixes == args.unsafe_fixes
                    &&& c.minimum_r_version == min
                    &&& c.paths@ == paths@
                },
                Result::Err(_) => false,
            },
            None => r is Err,
        }),
{
    let minimum_r_version = match parse_r_version(&args.min_r_version) {
        Ok(v) => v,
        Err(e) => {
            return Err(e);
        },
    };
    let selected = parse_rules_cli(args.rules.as_str());
    let gated = filter_rules_by_version(&selected, minimum_r_version);
    let rules_to_apply = if args.fix && !args.unsafe_fixes {
        filter_rules_by_safety(&gated)
    } else {
        copy_table(&gated)
    };
    Ok(
        Config {
            paths,
            rules: gated,
            rules_to_apply,
            should_fix: args.fix,
            unsafe_fixes: args.unsafe_fixes,
            minimum_r_version,
        },
    )
}

/// The parsed version argument, or `None` when it is malformed; a missing
/// argument parses to no minimum version.
pub open spec fn spec_parse_version_opt(v: Option<String>) -> Option<Option<(u32, u32)>> {
    match v {
        None => Some(None),
        Some(s) => match spec_parse_version(s@) {
            Some(p) => Some(Some(p)),
            None => None,
        },
    }
}

/// Resolved settings used within the linter.
#[derive(Debug)]
pub struct Settings {
    pub linter: LinterSettings,
}

/// Linter-specific settings; `None` means "not specified", rather than an
/// empty list.
#[derive(Debug)]
pub struct LinterSettings {
    pub select: Option<Vec<String>>,
    pub ignore: Option<Vec<String>>,
    pub assignment: Option<String>,
    pub exclude: Option<Vec<String>>,
    pub default_exclude: Option<bool>,
}

impl Default for LinterSettings {
    /// The default has no rule lists specified at all.
    fn default() -> (r: Self)
        ensures
            r.select is None,
            r.ignore is None,
            r.assignment is None,
            r.exclude is None,
            r.default_exclude is None,
    {
        LinterSettings {
            select: None,
            ignore: None,
            assignment: None,
            exclude: None,
            default_exclude: None,
        }
    }
}

impl Default for Settings {
    fn default() -> (r: Self)
        ensures
            r.linter.select is None,
    {
        Settings { linter: LinterSettings::default() }
    }
}

/// Verbosity levels of the log output.
#[derive(Clone, Copy, Debug, Default, PartialEq, Eq, PartialOrd, Ord)]
pub enum LogLevel {
    Error,
    #[default]
    Warn,
    Info,
    Debug,
    Trace,
}

impl LogLevel {
    /// The level's name, as written on the command line.
    pub fn name(self) -> (r: &'static str)
        ensures
            self is Error ==> r@ == "error"@,
            self is Warn ==> r@ == "warn"@,
            self is Info ==> r@ == "info"@,
            self is Debug ==> r@ == "debug"@,
            self is Trace ==> r@ == "trace"@,
    {
        match self {
            LogLevel::Error => "error",
            LogLevel::Warn => "warn",
            LogLevel::Info => "info",
            LogLevel::Debug => "debug",
            LogLevel::Trace => "trace",
        }
    }

    /// Relies on the `tracing` crate's level constants: maps each verbosity
    /// level to the corresponding `tracing::Level`.
    #[verifier::external_body]
    pub fn tracing_level(self) -> tracing::Level {
        match self {
            LogLevel::Error => tracing::Level::ERROR,
            LogLevel::Warn => tracing::Level::WARN,
            LogLevel::Info => tracing::Level::INFO,
            LogLevel::Debug => tracing::Level::DEBUG,
            LogLevel::Trace => tracing::Level::TRACE,
        }
    }
}

/// The `tracing` crate's severity level, held opaquely.
#[verifier::external_type_specification]
#[verifier::external_body]
pub struct ExTracingLevel(tracing::Level);

} // verus!

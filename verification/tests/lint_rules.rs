use jarl::api::{expect_lint, expect_no_lint};

fn ok(text: &str, rule: &str, v: Option<&str>) {
    assert!(expect_no_lint(text, rule, v), "unexpected lint for {text}");
}

fn bad(text: &str, msg: &str, rule: &str, v: Option<&str>) {
    assert!(expect_lint(text, msg, rule, v), "missing lint for {text}");
}

#[test]
fn test_no_lint_any_na() {
    ok("any(x)", "any_is_na", None);
    ok("is.na(x)", "any_is_na", None);
    ok("any(!is.na(x))", "any_is_na", None);
    ok("any(!is.na(foo(x)))", "any_is_na", None);
    ok("any()", "any_is_na", None);
    ok("any(na.rm = TRUE)", "any_is_na", None);
}

#[test]
fn test_lint_any_na() {
    let expected_message = "`any(is.na(...))` is inefficient";
    bad("any(is.na(x))", expected_message, "any_is_na", None);
    bad("any(is.na(foo(x)))", expected_message, "any_is_na", None);
    bad("any(is.na(x), na.rm = TRUE)", expected_message, "any_is_na", None);
}

#[test]
fn test_no_lint_any_duplicated() {
    ok("any(x)", "any_duplicated", None);
    ok("duplicated(x)", "any_duplicated", None);
    ok("any(!duplicated(x))", "any_duplicated", None);
    ok("any(!duplicated(foo(x)))", "any_duplicated", None);
    ok("any(na.rm = TRUE)", "any_duplicated", None);
    ok("any()", "any_duplicated", None);
}

#[test]
fn test_lint_any_duplicated() {
    let expected_message = "`any(duplicated(...))` is inefficient";
    bad("any(duplicated(x))", expected_message, "any_duplicated", None);
    bad("any(duplicated(foo(x)))", expected_message, "any_duplicated", None);
    bad("any(duplicated(x), na.rm = TRUE)", expected_message, "any_duplicated", None);
    bad("any(na.rm = TRUE, duplicated(x))", expected_message, "any_duplicated", None);
    bad("any(duplicated(x)); 1 + 1; any(duplicated(y))", expected_message, "any_duplicated", None);
}

#[test]
fn test_no_lint_all_equal() {
    ok("all.equal(a, b)", "all_equal", None);
    ok("all.equal(a, b, tolerance = 1e-3)", "all_equal", None);
    ok("if (isFALSE(x)) 1", "all_equal", None);
    ok("if (isTRUE(all.equal(a, b))) message('equal')", "all_equal", None);
    ok("if (!isTRUE(all.equal(a, b))) message('different')", "all_equal", None);
    ok("if (A) all.equal(x, y)", "all_equal", None);
}

#[test]
fn test_lint_all_equal() {
    let expected_message = "Wrap `all.equal()` in `isTRUE()`";
    let expected_message_2 = "Use `!isTRUE()` to check for differences";
    bad("if (all.equal(a, b, tolerance = 1e-3)) message('equal')", expected_message, "all_equal", None);
    bad("if (all.equal(a, b)) message('equal')", expected_message, "all_equal", None);
    bad("!all.equal(a, b)", expected_message, "all_equal", None);
    bad("while (all.equal(a, b)) message('equal')", expected_message, "all_equal", None);
    bad("isFALSE(all.equal(a, b))", expected_message_2, "all_equal", None);
}

#[test]
fn test_lint_empty_assignment() {
    let expected_message = "Assign NULL explicitly or";
    bad("x <- {}", expected_message, "empty_assignment", None);
    bad("x = { }", expected_message, "empty_assignment", None);
    bad("{ } -> x", expected_message, "empty_assignment", None);
    bad("x <- {\n}", expected_message, "empty_assignment", None);
    bad("env$obj <- {}", expected_message, "empty_assignment", None);
}

#[test]
fn test_no_lint_empty_assignment() {
    ok("x <- { 3 + 4 }", "empty_assignment", None);
    ok("x = if (x > 1) { 3 + 4 }", "empty_assignment", None);
    ok("{ 3 + 4 } -> x", "empty_assignment", None);
    ok("x <- function() { }", "empty_assignment", None);
}

#[test]
fn test_no_lint_equal_assignment() {
    ok("y <- 1", "equal_assignment", None);
    ok("fun(y = 1)", "equal_assignment", None);
    ok("y == 1", "equal_assignment", None);
}

#[test]
fn test_lint_equal_assignment() {
    let expected_message = "Use <- for assignment";
    bad("blah=1", expected_message, "equal_assignment", None);
    bad("blah = 1", expected_message, "equal_assignment", None);
    bad("blah = fun(1)", expected_message, "equal_assignment", None);
    bad("fun((blah = fun(1)))", expected_message, "equal_assignment", None);
    bad("1 -> fun", expected_message, "equal_assignment", None);
}

#[test]
fn test_no_lint_expect_named() {
    ok("expect_equal(colnames(x), 'a')", "expect_named", None);
    ok("expect_equal(rownames(x), 'a')", "expect_named", None);
    ok("expect_equal(dimnames(x), 'a')", "expect_named", None);
    ok("expect_equal(nrow(x), 4L)", "expect_named", None);
    ok("testthat::expect_equal(nrow(x), 4L)", "expect_named", None);
    ok("expect_equal(colnames(x), names(y))", "expect_named", None);
    ok("expect_equal(y, names(x))", "expect_named", None);
    ok("expect_equal(foo(y), names(x))", "expect_named", None);
    ok("expect_equal(expected = names(y), x)", "expect_named", None);
    ok("expect_equal(names(x), names(y))", "expect_named", None);
    ok("expect_equal(x, 'a')", "expect_named", None);
    ok("some_other_function(names(x), 'a')", "expect_named", None);
    ok("expect_equal(names(x))", "expect_named", None);
    ok("expect_equal(names())", "expect_named", None);
    ok("expect_equal(object =, expected =)", "expect_named", None);
}

#[test]
fn test_lint_expect_named() {
    let lint_msg = "`expect_named(x, n)` is better than";
    bad("expect_equal(names(x), 'a')", lint_msg, "expect_named", None);
    bad("expect_equal(names(x), c('a', 'b'))", lint_msg, "expect_named", None);
    bad("expect_identical(names(x), 'a')", lint_msg, "expect_named", None);
    bad("expect_equal(names(x), NULL)", lint_msg, "expect_named", None);
}

#[test]
fn test_no_lint_expect_not() {
    ok("expect_true()", "expect_not", None);
    ok("expect_false()", "expect_not", None);
    ok("expect_true(x)", "expect_not", None);
    ok("expect_false(x)", "expect_not", None);
    ok("expect_true(!x || !y)", "expect_not", None);
    ok("some_other_function(!x)", "expect_not", None);
    ok("expect_true(~x)", "expect_not", None);
    ok("expect_true(!!x)", "expect_not", None);
    ok("expect_true(!!!x)", "expect_not", None);
    ok("expect_false(!!x)", "expect_not", None);
    ok("expect_false(!!!x)", "expect_not", None);
    ok("expect_true(label = 'test', object = !x)", "expect_not", None);
    ok("expect_true(!)", "expect_not", None);
    ok("expect_true(!!)", "expect_not", None);
    ok("expect_true(!!!)", "expect_not", None);
    ok("expect_true(object =)", "expect_not", None);
    ok("expect_true(~)", "expect_not", None);
}

#[test]
fn test_lint_expect_not() {
    let expected_message = "is not as clear as";
    bad("expect_true(!x)", expected_message, "expect_not", None);
    bad("expect_false(!foo(x))", expected_message, "expect_not", None);
    bad("expect_true(!(x && y))", expected_message, "expect_not", None);
    bad("expect_false(!is.na(x))", expected_message, "expect_not", None);
}

#[test]
fn test_no_lint_for_loop_index() {
    ok("for (xi in x) {}", "for_loop_index", None);
    ok("for (col in DF$col) {}", "for_loop_index", None);
    ok("for (col in S4@col) {}", "for_loop_index", None);
    ok("for (col in DT[, col]) {}", "for_loop_index", None);
    ok("{\n        for (i in 1:10) {\n          42L\n        }\n        i <- 7L\n      }", "for_loop_index", None);
}

#[test]
fn test_lint_for_loop_index() {
    let expected_message = "Don't re-use any sequence symbols as the index";
    bad("for (x in x) {}", expected_message, "for_loop_index", None);
    bad("for (x in foo(x)) {}", expected_message, "for_loop_index", None);
    bad("for (x in foo(x = 1)) {}", expected_message, "for_loop_index", None);
    bad("for (x in foo(bar(y, baz(2, x)))) {}", expected_message, "for_loop_index", None);
    bad("for (x in foo(bar(y, baz(2, x = z)))) {}", expected_message, "for_loop_index", None);
}

#[test]
fn test_for_loop_index_diagnostic_ranges() {
    expect_diagnostic_highlight("for (x in foo(x)) { TRUE }", "for_loop_index", "x in foo(x)");
    expect_diagnostic_highlight("for (x in foo(\nx\n)) { TRUE }", "for_loop_index", "x in foo(\nx\n)");
}

fn expect_diagnostic_highlight(text: &str, rule: &str, expected: &str) {
    let table = jarl::config::build_config(
        &jarl::config::CliArgs {
            dir: String::new(),
            fix: false,
            unsafe_fixes: false,
            rules: rule.to_string(),
            with_timing: false,
            min_r_version: None,
        },
        Vec::new(),
    )
    .unwrap();
    let ms = jarl::api::detect(text, &table.rules).unwrap();
    assert_eq!(ms.len(), 1);
    let d = ms[0].diag();
    let span: String = text.chars().skip(d.start).take(d.end - d.start).collect();
    assert_eq!(span, expected);
}

#[test]
fn test_no_lint_grepv() {
    ok("grep('i', x)", "grepv", Some("4.5"));
    ok("grep(pattern = 'i', x)", "grepv", Some("4.5"));
    ok("grep('i', x, TRUE, TRUE)", "grepv", Some("4.5"));
}

#[test]
fn test_lint_grepv() {
    let expected_message = "Use `grepv(...)`";
    bad("grep('i', x, value = TRUE)", expected_message, "grepv", Some("4.5"));
    bad("grep('i', x, TRUE, TRUE, TRUE)", expected_message, "grepv", Some("4.5"));
    bad("grep('i', x, TRUE, TRUE, TRUE, value = TRUE)", expected_message, "grepv", Some("4.5"));
}

#[test]
fn test_no_lint_length_levels() {
    ok("length(c(levels(x), 'a'))", "length_levels", None);
}

#[test]
fn test_lint_length_levels() {
    let expected_message = "Use `nlevels(...)` instead";
    bad("2:length(levels(x))", expected_message, "length_levels", None);
    bad("2:length(levels(foo(a)))", expected_message, "length_levels", None);
}

#[test]
fn test_no_lint_length_test() {
    ok("length(x) > 0", "length_test", None);
    ok("length(DF[key == val, cols])", "length_test", None);
}

#[test]
fn test_lint_length_test() {
    let expected_message = "Checking the length of a logical vector";
    bad("length(x != 0)", expected_message, "length_test", None);
    bad("length(x >= 0)", expected_message, "length_test", None);
    bad("length(x <= 0)", expected_message, "length_test", None);
    bad("length(x > 0)", expected_message, "length_test", None);
    bad("length(x < 0)", expected_message, "length_test", None);
    bad("length(x + y == 2)", expected_message, "length_test", None);
}

#[test]
fn test_no_lint_lengths() {
    ok("length(x)", "lengths", None);
    ok("function(x) length(x) + 1L", "lengths", None);
    ok("vapply(x, fun, integer(length(y)))", "lengths", None);
    ok("sapply(x, sqrt, simplify = length(x))", "lengths", None);
    ok("lapply(x, length)", "lengths", None);
    ok("map(x, length)", "lengths", None);
}

#[test]
fn test_lint_lengths() {
    let expected_message = "Use `lengths()` to find the length";
    bad("sapply(x, length)", expected_message, "lengths", None);
    bad("sapply(x, FUN = length)", expected_message, "lengths", None);
    bad("sapply(FUN = length, x)", expected_message, "lengths", None);
    bad("vapply(x, length, integer(1))", expected_message, "lengths", None);
}

#[test]
fn test_no_lint_numeric_leading_zero() {
    ok("a <- 0.1", "numeric_leading_zero", None);
    ok("b <- -0.2", "numeric_leading_zero", None);
    ok("c <- 3.0", "numeric_leading_zero", None);
    ok("d <- 4L", "numeric_leading_zero", None);
    ok("e <- TRUE", "numeric_leading_zero", None);
    ok("f <- 0.5e6", "numeric_leading_zero", None);
    ok("g <- 0x78", "numeric_leading_zero", None);
    ok("h <- 0.9 + 0.1i", "numeric_leading_zero", None);
    ok("h <- 0.9+0.1i", "numeric_leading_zero", None);
    ok("h <- 0.9 - 0.1i", "numeric_leading_zero", None);
    ok("i <- 2L + 3.4i", "numeric_leading_zero", None);
    ok("i <- '.1'", "numeric_leading_zero", None);
}

#[test]
fn test_lint_numeric_leading_zero() {
    let expected_message = "Include the leading zero";
    bad("a <- .1", expected_message, "numeric_leading_zero", None);
    bad("b <- -.2", expected_message, "numeric_leading_zero", None);
    bad("e <- .9e10", expected_message, "numeric_leading_zero", None);
}

#[test]
fn test_no_lint_redundant_equals() {
    ok("x == 1", "redundant_equals", None);
    ok("x == 'TRUE'", "redundant_equals", None);
    ok("x == 'FALSE'", "redundant_equals", None);
    ok("x > 1", "redundant_equals", None);
}

#[test]
fn test_lint_redundant_equals() {
    let expected_message = "Using == on a logical vector is";
    bad("a == TRUE", expected_message, "redundant_equals", None);
    bad("TRUE == a", expected_message, "redundant_equals", None);
    bad("a == FALSE", expected_message, "redundant_equals", None);
    bad("FALSE == a", expected_message, "redundant_equals", None);
    bad("a != TRUE", expected_message, "redundant_equals", None);
    bad("TRUE != a", expected_message, "redundant_equals", None);
    bad("a != FALSE", expected_message, "redundant_equals", None);
    bad("FALSE != a", expected_message, "redundant_equals", None);
}

#[test]
fn test_no_lint_sort() {
    ok("x[]", "sort", None);
    ok("x[,]", "sort", None);
    ok("x[,order(x)]", "sort", None);
    ok("x[order(x),]", "sort", None);
    ok("x[order(x), 'foo']", "sort", None);
    ok("order(x)", "sort", None);
    ok("x[order()]", "sort", None);
    ok("x[order(y)]", "sort", None);
    ok("x[order(x, y)]", "sort", None);
    ok("x[c(order(x))]", "sort", None);
}

#[test]
fn test_lint_sort() {
    let expected_message = "Use `sort(x)` instead";
    bad("x[order(x)]", expected_message, "sort", None);
    bad("x[order(x, decreasing = TRUE)]", expected_message, "sort", None);
    bad("x[order(x, na.last = TRUE)]", expected_message, "sort", None);
    bad("x[order(x, method = \"radix\")]", expected_message, "sort", None);
    bad("x[order(x, method = \"radix\", na.last = TRUE)]", expected_message, "sort", None);
    bad("x[order(method = \"radix\", na.last = TRUE, x)]", expected_message, "sort", None);
}

#[test]
fn test_no_lint_which_grepl() {
    ok("which(grepl(p1, x) | grepl(p2, x))", "which_grepl", None);
    ok("which(grep(p1, x))", "which_grepl", None);
}

#[test]
fn test_no_lint_equals_na() {
    ok("x + NA", "equals_na", None);
    ok("x == \"NA\"", "equals_na", None);
    ok("x == 'NA'", "equals_na", None);
    ok("x <- NA", "equals_na", None);
    ok("x <- NaN", "equals_na", None);
    ok("x <- NA_real_", "equals_na", None);
    ok("is.na(x)", "equals_na", None);
    ok("is.nan(x)", "equals_na", None);
    ok("x[!is.na(x)]", "equals_na", None);
    ok("# x == NA", "equals_na", None);
    ok("'x == NA'", "equals_na", None);
    ok("x == f(NA)", "equals_na", None);
}

#[test]
fn test_fix_output_scenarios() {
    assert_eq!(fixed_text("x = 1", "equal_assignment"), "x <- 1");
    assert_eq!(fixed_text("any(is.na(x))", "any_is_na"), "anyNA(x)");
    assert_eq!(fixed_text("# leading comment\nany(is.na(x))", "any_is_na"), "# leading comment\nany(is.na(x))");
}

fn fixed_text(text: &str, rule: &str) -> String {
    let cfg = jarl::config::build_config(
        &jarl::config::CliArgs {
            dir: String::new(),
            fix: true,
            unsafe_fixes: false,
            rules: rule.to_string(),
            with_timing: false,
            min_r_version: None,
        },
        Vec::new(),
    )
    .unwrap();
    let ms = jarl::api::detect(text, &cfg.rules_to_apply).unwrap();
    let (_skipped, out) = jarl::api::apply_fixes(&ms, text);
    out
}

fn fix_config(rules: &str) -> jarl::config::Config {
    jarl::config::build_config(
        &jarl::config::CliArgs {
            dir: String::new(),
            fix: true,
            unsafe_fixes: false,
            rules: rules.to_string(),
            with_timing: false,
            min_r_version: None,
        },
        Vec::new(),
    )
    .unwrap()
}

#[test]
fn test_fixpoint_idempotence() {
    let cfg = fix_config("any_is_na,equal_assignment");
    let cap = jarl::driver::FIXPOINT_CAP;
    let (fixed, diags, clean) = jarl::driver::run_fixpoint("x = 1\nany(is.na(y))\n", "demo.R", &cfg, cap).unwrap();
    assert!(clean);
    assert_eq!(fixed, "x <- 1\nanyNA(y)\n");
    assert!(diags.is_empty());
    let (fixed2, diags2, clean2) = jarl::driver::run_fixpoint(&fixed, "demo.R", &cfg, cap).unwrap();
    assert!(clean2);
    assert_eq!(fixed2, fixed);
    assert!(diags2.is_empty());
}

#[test]
fn test_fixpoint_overlap_retry() {
    // two rules whose ranges nest: the inner fix is skipped in the first
    // pass and picked up after the re-parse
    let cfg = fix_config("any_is_na,true_false_symbol");
    let cap = jarl::driver::FIXPOINT_CAP;
    let (fixed, _diags, clean) = jarl::driver::run_fixpoint("any(is.na(x))\n", "demo.R", &cfg, cap).unwrap();
    assert!(clean);
    assert_eq!(fixed, "anyNA(x)\n");
}

#[test]
fn test_fixpoint_comment_guard() {
    let cfg = fix_config("any_is_na");
    let cap = jarl::driver::FIXPOINT_CAP;
    let (fixed, diags, clean) =
        jarl::driver::run_fixpoint("# leading comment\nany(is.na(x))\n", "demo.R", &cfg, cap).unwrap();
    assert!(clean);
    assert_eq!(fixed, "# leading comment\nany(is.na(x))\n");
    assert_eq!(diags.len(), 1);
}

#[test]
fn test_report_line_format() {
    let cfg = fix_config("equal_assignment");
    let ms = jarl::api::detect("x = 1", &cfg.rules).unwrap();
    assert_eq!(ms.len(), 1);
    assert_eq!(ms[0].report_line(), " [1:1] equal_assignment Use <- for assignment.");
}

#[test]
fn test_check_files_isolated_failures() {
    let cfg = fix_config("equal_assignment");
    let files = vec![
        ("a.R".to_string(), "x = 1\n".to_string()),
        ("broken.R".to_string(), "x <- (\n".to_string()),
        ("c.R".to_string(), "y <- 2\n".to_string()),
    ];
    let reports = jarl::driver::check_files(&files, &cfg);
    assert_eq!(reports.len(), 3);
    assert!(reports[0].parsed && reports[0].clean);
    assert_eq!(reports[0].fixed, "x <- 1\n");
    assert_eq!(reports[0].diagnostics.len(), 0);
    assert!(!reports[1].parsed);
    assert_eq!(reports[1].fixed, "x <- (\n");
    assert!(reports[2].parsed && reports[2].clean);
    assert_eq!(reports[2].fixed, "y <- 2\n");
    assert_eq!(reports[0].path, "a.R");
    assert_eq!(reports[1].path, "broken.R");
}

#[test]
fn test_check_files_lint_only() {
    let cfg = jarl::config::build_config(
        &jarl::config::CliArgs {
            dir: String::new(),
            fix: false,
            unsafe_fixes: false,
            rules: "equal_assignment".to_string(),
            with_timing: false,
            min_r_version: None,
        },
        Vec::new(),
    )
    .unwrap();
    let files = vec![("a.R".to_string(), "x = 1\n".to_string())];
    let reports = jarl::driver::check_files(&files, &cfg);
    assert_eq!(reports.len(), 1);
    assert!(reports[0].parsed);
    assert_eq!(reports[0].fixed, "x = 1\n");
    assert_eq!(reports[0].diagnostics.len(), 1);
    assert_eq!(
        reports[0].diagnostics[0].report_line(),
        "a.R [1:1] equal_assignment Use <- for assignment."
    );
}

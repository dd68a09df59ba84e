//! Diagnostics produced by the lint rules.
//!
//! A `Message` identifies one rule violation at one location; it may carry a
//! `Fix`, a textual replacement remediating it.  A fix whose `to_skip` flag
//! is set is reported but never auto-applied (the flag is set when the
//! violation's range has a comment attached, which a rewrite would destroy).

use vstd::prelude::*;
use crate::location::Location;
use crate::text::{dec_str, push_decimal, push_str_chars, string_of};

verus! {

/// A textual replacement: the characters `start .. end` of the original
/// text (character offsets at detection time) are replaced by `content`.
#[derive(Clone, Debug, PartialEq, Eq)]
pub struct Fix {
    pub content: String,
    pub start: usize,
    pub end: usize,
    /// Set when this fix must not be applied automatically.
    pub to_skip: bool,
}

/// Specification view of a `Fix`.
pub struct FixV {
    pub content: Seq<char>,
    pub start: int,
    pub end: int,
    pub to_skip: bool,
}

impl View for Fix {
    type V = FixV;

    open spec fn view(&self) -> FixV {
        FixV {
            content: self.content@,
            start: self.start as int,
            end: self.end as int,
            to_skip: self.to_skip,
        }
    }
}

/// The location data shared by every kind of message.
#[derive(Clone, Debug, PartialEq, Eq)]
pub struct Diagnostic {
    /// The file the violation was found in.
    pub filename: String,
    /// 1-based row and column of the violation.
    pub location: Location,
    /// Character range of the violation in the source text.
    pub start: usize,
    pub end: usize,
    /// The suggested replacement, when the rule has one.
    pub fix: Option<Fix>,
}

/// One rule violation.  Each variant corresponds to one lint rule (the
/// `all_equal` rule reports through two variants, one per rewrite
/// direction).
#[derive(Clone, Debug, PartialEq, Eq)]
pub enum Message {
    TrueFalseSymbol(Diagnostic),
    AnyIsNa(Diagnostic),
    AnyDuplicated(Diagnostic),
    ClassEquals(Diagnostic),
    EqualsNa(Diagnostic),
    EqualAssignment(Diagnostic),
    EmptyAssignment(Diagnostic),
    Grepv(Diagnostic),
    LengthLevels(Diagnostic),
    LengthTest(Diagnostic),
    Lengths(Diagnostic),
    RedundantEquals(Diagnostic),
    WhichGrepl(Diagnostic),
    AllEqual(Diagnostic),
    AllEqualFalse(Diagnostic),
    ExpectNamed(Diagnostic),
    ExpectNot(Diagnostic),
    ForLoopIndex(Diagnostic),
    NumericLeadingZero(Diagnostic),
    Sort(Diagnostic),
}

/// The short code of each kind of message.
pub open spec fn code_of_kind(k: MsgKind) -> Seq<char> {
    match k {
        MsgKind::TrueFalseSymbol => "T-F-symbols"@,
        MsgKind::AnyIsNa => "any-na"@,
        MsgKind::AnyDuplicated => "any-duplicated"@,
        MsgKind::ClassEquals => "class-equals"@,
        MsgKind::EqualsNa => "equals-na"@,
        MsgKind::EqualAssignment => "equal_assignment"@,
        MsgKind::EmptyAssignment => "empty_assignment"@,
        MsgKind::Grepv => "grepv"@,
        MsgKind::LengthLevels => "length_levels"@,
        MsgKind::LengthTest => "length_test"@,
        MsgKind::Lengths => "lengths"@,
        MsgKind::RedundantEquals => "redundant_equals"@,
        MsgKind::WhichGrepl => "which_grepl"@,
        MsgKind::AllEqual => "all_equal"@,
        MsgKind::AllEqualFalse => "all_equal"@,
        MsgKind::ExpectNamed => "expect_named"@,
        MsgKind::ExpectNot => "expect_not"@,
        MsgKind::ForLoopIndex => "for_loop_index"@,
        MsgKind::NumericLeadingZero => "numeric_leading_zero"@,
        MsgKind::Sort => "sort"@,
    }
}

pub open spec fn spec_code(m: Message) -> Seq<char> {
    code_of_kind(m.spec_kind())
}

/// The human-readable body of each kind of message.
pub open spec fn body_of_kind(k: MsgKind) -> Seq<char> {
    match k {
        MsgKind::TrueFalseSymbol => "`T` and `F` can be confused with variable names. Spell `TRUE` and `FALSE` entirely instead."@,
        MsgKind::AnyIsNa => "`any(is.na(...))` is inefficient. Use `anyNA(...)` instead."@,
        MsgKind::AnyDuplicated => "`any(duplicated(...))` is inefficient. Use `anyDuplicated(...) > 0` instead."@,
        MsgKind::ClassEquals => "Use `inherits(..., 'x')` instead of `class(...) == 'x'.`"@,
        MsgKind::EqualsNa => "Use `is.na()` instead of comparing to NA with ==, != or %in%."@,
        MsgKind::EqualAssignment => "Use <- for assignment."@,
        MsgKind::EmptyAssignment => "Assign NULL explicitly or remove the empty `{}` block."@,
        MsgKind::Grepv => "Use `grepv(...)` instead of `grep(..., value = TRUE)`."@,
        MsgKind::LengthLevels => "Use `nlevels(...)` instead of `length(levels(...))`."@,
        MsgKind::LengthTest => "Checking the length of a logical vector is likely a mistake. Test the condition directly or compare `length(...)` to a value."@,
        MsgKind::Lengths => "Use `lengths()` to find the length of each element in a list."@,
        MsgKind::RedundantEquals => "Using == on a logical vector is redundant. Use the vector itself, or `!` for negation."@,
        MsgKind::WhichGrepl => "`grep(pattern, x)` is better than `which(grepl(pattern, x))`."@,
        MsgKind::AllEqual => "Wrap `all.equal()` in `isTRUE()` to get a single logical value."@,
        MsgKind::AllEqualFalse => "Use `!isTRUE()` to check for differences with `all.equal()`."@,
        MsgKind::ExpectNamed => "`expect_named(x, n)` is better than `expect_equal(names(x), n)`."@,
        MsgKind::ExpectNot => "A negated condition is not as clear as the opposite expectation. Use `expect_false(x)` instead of `expect_true(!x)`."@,
        MsgKind::ForLoopIndex => "Don't re-use any sequence symbols as the index symbol in a for loop."@,
        MsgKind::NumericLeadingZero => "Include the leading zero for fractional numeric constants."@,
        MsgKind::Sort => "Use `sort(x)` instead of `x[order(x)]`."@,
    }
}

pub open spec fn spec_body(m: Message) -> Seq<char> {
    body_of_kind(m.spec_kind())
}

impl Message {
    /// The short code identifying the rule behind this message.
    pub fn code(&self) -> (r: &'static str)
        ensures
            r@ == spec_code(*self),
    {
        match self {
            Message::TrueFalseSymbol(_) => "T-F-symbols",
            Message::AnyIsNa(_) => "any-na",
            Message::AnyDuplicated(_) => "any-duplicated",
            Message::ClassEquals(_) => "class-equals",
            Message::EqualsNa(_) => "equals-na",
            Message::EqualAssignment(_) => "equal_assignment",
            Message::EmptyAssignment(_) => "empty_assignment",
            Message::Grepv(_) => "grepv",
            Message::LengthLevels(_) => "length_levels",
            Message::LengthTest(_) => "length_test",
            Message::Lengths(_) => "lengths",
            Message::RedundantEquals(_) => "redundant_equals",
            Message::WhichGrepl(_) => "which_grepl",
            Message::AllEqual(_) => "all_equal",
            Message::AllEqualFalse(_) => "all_equal",
            Message::ExpectNamed(_) => "expect_named",
            Message::ExpectNot(_) => "expect_not",
            Message::ForLoopIndex(_) => "for_loop_index",
            Message::NumericLeadingZero(_) => "numeric_leading_zero",
            Message::Sort(_) => "sort",
        }
    }

    /// The human-readable message body.
    pub fn body(&self) -> (r: &'static str)
        ensures
            r@ == spec_body(*self),
    {
        match self {
            Message::TrueFalseSymbol(_) => "`T` and `F` can be confused with variable names. Spell `TRUE` and `FALSE` entirely instead.",
            Message::AnyIsNa(_) => "`any(is.na(...))` is inefficient. Use `anyNA(...)` instead.",
            Message::AnyDuplicated(_) => "`any(duplicated(...))` is inefficient. Use `anyDuplicated(...) > 0` instead.",
            Message::ClassEquals(_) => "Use `inherits(..., 'x')` instead of `class(...) == 'x'.`",
            Message::EqualsNa(_) => "Use `is.na()` instead of comparing to NA with ==, != or %in%.",
            Message::EqualAssignment(_) => "Use <- for assignment.",
            Message::EmptyAssignment(_) => "Assign NULL explicitly or remove the empty `{}` block.",
            Message::Grepv(_) => "Use `grepv(...)` instead of `grep(..., value = TRUE)`.",
            Message::LengthLevels(_) => "Use `nlevels(...)` instead of `length(levels(...))`.",
            Message::LengthTest(_) => "Checking the length of a logical vector is likely a mistake. Test the condition directly or compare `length(...)` to a value.",
            Message::Lengths(_) => "Use `lengths()` to find the length of each element in a list.",
            Message::RedundantEquals(_) => "Using == on a logical vector is redundant. Use the vector itself, or `!` for negation.",
            Message::WhichGrepl(_) => "`grep(pattern, x)` is better than `which(grepl(pattern, x))`.",
            Message::AllEqual(_) => "Wrap `all.equal()` in `isTRUE()` to get a single logical value.",
            Message::AllEqualFalse(_) => "Use `!isTRUE()` to check for differences with `all.equal()`.",
            Message::ExpectNamed(_) => "`expect_named(x, n)` is better than `expect_equal(names(x), n)`.",
            Message::ExpectNot(_) => "A negated condition is not as clear as the opposite expectation. Use `expect_false(x)` instead of `expect_true(!x)`.",
            Message::ForLoopIndex(_) => "Don't re-use any sequence symbols as the index symbol in a for loop.",
            Message::NumericLeadingZero(_) => "Include the leading zero for fractional numeric constants.",
            Message::Sort(_) => "Use `sort(x)` instead of `x[order(x)]`.",
        }
    }

    /// The location data of this message.
    pub open spec fn spec_diag(self) -> Diagnostic {
        match self {
            Message::TrueFalseSymbol(d) => d,
            Message::AnyIsNa(d) => d,
            Message::AnyDuplicated(d) => d,
            Message::ClassEquals(d) => d,
            Message::EqualsNa(d) => d,
            Message::EqualAssignment(d) => d,
            Message::EmptyAssignment(d) => d,
            Message::Grepv(d) => d,
            Message::LengthLevels(d) => d,
            Message::LengthTest(d) => d,
            Message::Lengths(d) => d,
            Message::RedundantEquals(d) => d,
            Message::WhichGrepl(d) => d,
            Message::AllEqual(d) => d,
            Message::AllEqualFalse(d) => d,
            Message::ExpectNamed(d) => d,
            Message::ExpectNot(d) => d,
            Message::ForLoopIndex(d) => d,
            Message::NumericLeadingZero(d) => d,
            Message::Sort(d) => d,
        }
    }

    pub fn diag(&self) -> (r: &Diagnostic)
        ensures
            *r == self.spec_diag(),
    {
        match self {
            Message::TrueFalseSymbol(d) => d,
            Message::AnyIsNa(d) => d,
            Message::AnyDuplicated(d) => d,
            Message::ClassEquals(d) => d,
            Message::EqualsNa(d) => d,
            Message::EqualAssignment(d) => d,
            Message::EmptyAssignment(d) => d,
            Message::Grepv(d) => d,
            Message::LengthLevels(d) => d,
            Message::LengthTest(d) => d,
            Message::Lengths(d) => d,
            Message::RedundantEquals(d) => d,
            Message::WhichGrepl(d) => d,
            Message::AllEqual(d) => d,
            Message::AllEqualFalse(d) => d,
            Message::ExpectNamed(d) => d,
            Message::ExpectNot(d) => d,
            Message::ForLoopIndex(d) => d,
            Message::NumericLeadingZero(d) => d,
            Message::Sort(d) => d,
        }
    }

    /// The fix of this message viewed for the fix applier: a message with no
    /// fix contributes a fix that is never applied.
    pub open spec fn spec_fix_for_apply(self) -> FixV {
        match self.spec_diag().fix {
            Some(f) => f@,
            None => FixV { content: Seq::empty(), start: 0, end: 0, to_skip: true },
        }
    }
}


/// The rule tag of a message, used in specification views.
#[derive(Clone, Copy, PartialEq, Eq, Structural, Debug)]
pub enum MsgKind {
    TrueFalseSymbol,
    AnyIsNa,
    AnyDuplicated,
    ClassEquals,
    EqualsNa,
    EqualAssignment,
    EmptyAssignment,
    Grepv,
    LengthLevels,
    LengthTest,
    Lengths,
    RedundantEquals,
    WhichGrepl,
    AllEqual,
    AllEqualFalse,
    ExpectNamed,
    ExpectNot,
    ForLoopIndex,
    NumericLeadingZero,
    Sort,
}

/// Specification view of a `Diagnostic`.
pub struct DiagV {
    pub filename: Seq<char>,
    pub row: int,
    pub column: int,
    pub start: int,
    pub end: int,
    pub fix: Option<FixV>,
}

impl View for Diagnostic {
    type V = DiagV;

    open spec fn view(&self) -> DiagV {
        DiagV {
            filename: self.filename@,
            row: self.location.row as int,
            column: self.location.column as int,
            start: self.start as int,
            end: self.end as int,
            fix: match self.fix {
                Some(f) => Some(f@),
                None => None,
            },
        }
    }
}

/// Specification view of a `Message`.
pub struct MessageV {
    pub kind: MsgKind,
    pub diag: DiagV,
}

impl View for Message {
    type V = MessageV;

    open spec fn view(&self) -> MessageV {
        MessageV { kind: self.spec_kind(), diag: self.spec_diag()@ }
    }
}

impl Message {
    /// The rule tag of this message.
    pub open spec fn spec_kind(self) -> MsgKind {
        match self {
            Message::TrueFalseSymbol(_) => MsgKind::TrueFalseSymbol,
            Message::AnyIsNa(_) => MsgKind::AnyIsNa,
            Message::AnyDuplicated(_) => MsgKind::AnyDuplicated,
            Message::ClassEquals(_) => MsgKind::ClassEquals,
            Message::EqualsNa(_) => MsgKind::EqualsNa,
            Message::EqualAssignment(_) => MsgKind::EqualAssignment,
            Message::EmptyAssignment(_) => MsgKind::EmptyAssignment,
            Message::Grepv(_) => MsgKind::Grepv,
            Message::LengthLevels(_) => MsgKind::LengthLevels,
            Message::LengthTest(_) => MsgKind::LengthTest,
            Message::Lengths(_) => MsgKind::Lengths,
            Message::RedundantEquals(_) => MsgKind::RedundantEquals,
            Message::WhichGrepl(_) => MsgKind::WhichGrepl,
            Message::AllEqual(_) => MsgKind::AllEqual,
            Message::AllEqualFalse(_) => MsgKind::AllEqualFalse,
            Message::ExpectNamed(_) => MsgKind::ExpectNamed,
            Message::ExpectNot(_) => MsgKind::ExpectNot,
            Message::ForLoopIndex(_) => MsgKind::ForLoopIndex,
            Message::NumericLeadingZero(_) => MsgKind::NumericLeadingZero,
            Message::Sort(_) => MsgKind::Sort,
        }
    }
}

/// The registry name of the rule behind a message kind.
pub open spec fn rule_name_of(k: MsgKind) -> Seq<char> {
    match k {
        MsgKind::TrueFalseSymbol => "true_false_symbol"@,
        MsgKind::AnyIsNa => "any_is_na"@,
        MsgKind::AnyDuplicated => "any_duplicated"@,
        MsgKind::ClassEquals => "class_equals"@,
        MsgKind::EqualsNa => "equals_na"@,
        MsgKind::EqualAssignment => "equal_assignment"@,
        MsgKind::EmptyAssignment => "empty_assignment"@,
        MsgKind::Grepv => "grepv"@,
        MsgKind::LengthLevels => "length_levels"@,
        MsgKind::LengthTest => "length_test"@,
        MsgKind::Lengths => "lengths"@,
        MsgKind::RedundantEquals => "redundant_equals"@,
        MsgKind::WhichGrepl => "which_grepl"@,
        MsgKind::AllEqual => "all_equal"@,
        MsgKind::AllEqualFalse => "all_equal"@,
        MsgKind::ExpectNamed => "expect_named"@,
        MsgKind::ExpectNot => "expect_not"@,
        MsgKind::ForLoopIndex => "for_loop_index"@,
        MsgKind::NumericLeadingZero => "numeric_leading_zero"@,
        MsgKind::Sort => "sort"@,
    }
}

/// The report line for a message, as the batch front end prints it:
/// `<path> [<row>:<column>] <rule-code> <message>`.
pub open spec fn spec_report_line(m: Message) -> Seq<char> {
    let d = m.spec_diag();
    d.filename@ + " ["@ + dec_str(d.location.row as int) + ":"@ + dec_str(
        d.location.column as int,
    ) + "] "@ + spec_code(m) + " "@ + spec_body(m)
}

impl Message {
    /// Composes the report line `<path> [<row>:<column>] <rule-code>
    /// <message>`; colouring is the caller's concern.
    pub fn report_line(&self) -> (r: String)
        ensures
            r@ == spec_report_line(*self),
    {
        let d = self.diag();
        let mut buf: Vec<char> = Vec::new();
        push_str_chars(&mut buf, d.filename.as_str());
        push_str_chars(&mut buf, " [");
        push_decimal(&mut buf, d.location.row);
        push_str_chars(&mut buf, ":");
        push_decimal(&mut buf, d.location.column);
        push_str_chars(&mut buf, "] ");
        push_str_chars(&mut buf, self.code());
        push_str_chars(&mut buf, " ");
        push_str_chars(&mut buf, self.body());
        proof {
            assert(buf@ =~= spec_report_line(*self));
        }
        string_of(&buf)
    }
}

} // verus!

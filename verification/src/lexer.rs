//! The tokenizer for the R-like surface syntax the linter understands.
//!
//! Comments never become tokens: their ranges are collected separately so
//! that the checker can refuse to auto-apply a fix whose range has a comment
//! attached (a textual rewrite would silently delete it).

use vstd::prelude::*;

verus! {

/// The kind of one token.
#[derive(Clone, Copy, PartialEq, Eq, Structural, Debug)]
pub enum TokKind {
    Ident,
    Num,
    Str,
    Newline,
    Comma,
    Semi,
    LParen,
    RParen,
    LBrace,
    RBrace,
    LBracket,
    LBracket2,
    RBracket,
    /// `<-`
    ArrowLeft,
    /// `<<-`
    ArrowLeft2,
    /// `->`
    ArrowRight,
    /// `->>`
    ArrowRight2,
    /// `=`
    Equal,
    /// `==`
    EqEq,
    /// `!=`
    Neq,
    Le,
    Ge,
    Lt,
    Gt,
    Plus,
    Minus,
    Star,
    Slash,
    Caret,
    Bang,
    Tilde,
    AmpAmp,
    Amp,
    PipePipe,
    Pipe,
    Colon,
    ColonColon,
    Dollar,
    At,
    /// A `%...%` operator such as `%in%`.
    Special,
    Question,
}

/// One token: a kind and the character range it spans.
#[derive(Clone, Copy, PartialEq, Eq, Structural, Debug)]
pub struct Token {
    pub kind: TokKind,
    pub start: usize,
    pub end: usize,
}

/// Every token and comment range lies inside the text, ordered and non-empty.
pub open spec fn tokens_wf(toks: Seq<Token>, len: int) -> bool {
    forall|i: int|
        0 <= i < toks.len() ==> (#[trigger] toks[i]).start < toks[i].end && toks[i].end <= len
}

pub open spec fn ranges_wf(rs: Seq<(usize, usize)>, len: int) -> bool {
    forall|i: int| 0 <= i < rs.len() ==> (#[trigger] rs[i]).0 <= rs[i].1 && rs[i].1 <= len
}

spec fn is_digit(c: char) -> bool {
    '0' <= c && c <= '9'
}

spec fn is_hex_digit(c: char) -> bool {
    is_digit(c) || ('a' <= c && c <= 'f') || ('A' <= c && c <= 'F')
}

spec fn is_letter(c: char) -> bool {
    ('a' <= c && c <= 'z') || ('A' <= c && c <= 'Z')
}

/// A character that may continue an identifier.
spec fn is_ident_char(c: char) -> bool {
    is_letter(c) || is_digit(c) || c == '.' || c == '_'
}

fn digit(c: char) -> (r: bool)
    ensures
        r == is_digit(c),
{
    '0' <= c && c <= '9'
}

fn hex_digit(c: char) -> (r: bool)
    ensures
        r == is_hex_digit(c),
{
    ('0' <= c && c <= '9') || ('a' <= c && c <= 'f') || ('A' <= c && c <= 'F')
}

fn ident_char(c: char) -> (r: bool)
    ensures
        r == is_ident_char(c),
{
    ('a' <= c && c <= 'z') || ('A' <= c && c <= 'Z') || ('0' <= c && c <= '9') || c == '.' || c
        == '_'
}

/// Splits the source characters into tokens and comment ranges.
/// Returns `None` when a character cannot start a token or a string or
/// `%...%` operator is unterminated.
pub fn tokenize(text: &Vec<char>) -> (r: Option<(Vec<Token>, Vec<(usize, usize)>)>)
    ensures
        r is Some ==> tokens_wf(r->Some_0.0@, text@.len() as int) && ranges_wf(
            r->Some_0.1@,
            text@.len() as int,
        ),
{
    let n = text.len();
    let mut toks: Vec<Token> = Vec::new();
    let mut comments: Vec<(usize, usize)> = Vec::new();
    let mut i: usize = 0;
    while i < n
        invariant
            n == text@.len(),
            i <= n,
            tokens_wf(toks@, n as int),
            ranges_wf(comments@, n as int),
        decreases n - i,
    {
        let c = text[i];
        if c == ' ' || c == '\t' || c == '\r' {
            i += 1;
        } else if c == '\n' {
            toks.push(Token { kind: TokKind::Newline, start: i, end: i + 1 });
            i += 1;
        } else if c == '#' {
            let s = i;
            while i < n && text[i] != '\n'
                invariant
                    n == text@.len(),
                    s <= i <= n,
                decreases n - i,
            {
                i += 1;
            }
            comments.push((s, i));
        } else if c == '"' || c == '\'' {
            let quote = c;
            let s = i;
            i += 1;
            let mut closed = false;
            while i < n && !closed
                invariant
                    n == text@.len(),
                    s < i <= n,
                decreases n - i,
            {
                let d = text[i];
                if d == quote {
                    closed = true;
                    i += 1;
                } else if d == '\\' {
                    if i + 1 < n {
                        i += 2;
                    } else {
                        i += 1;
                    }
                } else {
                    i += 1;
                }
            }
            if !closed {
                return None;
            }
            toks.push(Token { kind: TokKind::Str, start: s, end: i });
        } else if c == '%' {
            let s = i;
            i += 1;
            let mut closed = false;
            while i < n && !closed
                invariant
                    n == text@.len(),
                    s < i <= n,
                decreases n - i,
            {
                if text[i] == '%' {
                    closed = true;
                }
                i += 1;
            }
            if !closed {
                return None;
            }
            toks.push(Token { kind: TokKind::Special, start: s, end: i });
        } else if digit(c) || (c == '.' && i + 1 < n && digit(text[i + 1])) {
            let s = i;
            if c == '0' && i + 1 < n && (text[i + 1] == 'x' || text[i + 1] == 'X') {
                i += 2;
                while i < n && hex_digit(text[i])
                    invariant
                        n == text@.len(),
                        s < i <= n,
                    decreases n - i,
                {
                    i += 1;
                }
            } else {
                while i < n && digit(text[i])
                    invariant
                        n == text@.len(),
                        s <= i <= n,
                    decreases n - i,
                {
                    i += 1;
                }
                if i < n && text[i] == '.' {
                    i += 1;
                    while i < n && digit(text[i])
                        invariant
                            n == text@.len(),
                            s < i <= n,
                        decreases n - i,
                    {
                        i += 1;
                    }
                }
                if i < n && (text[i] == 'e' || text[i] == 'E') {
                    let mut j = i + 1;
                    if j < n && (text[j] == '+' || text[j] == '-') {
                        j += 1;
                    }
                    if j < n && digit(text[j]) {
                        i = j;
                        while i < n && digit(text[i])
                            invariant
                                n == text@.len(),
                                s < i <= n,
                            decreases n - i,
                        {
                            i += 1;
                        }
                    }
                }
            }
            if i < n && (text[i] == 'L' || text[i] == 'i') {
                i += 1;
            }
            toks.push(Token { kind: TokKind::Num, start: s, end: i });
        } else if ident_char(c) {
            // identifiers start with a letter, a dot or an underscore
            let s = i;
            i += 1;
            while i < n && ident_char(text[i])
                invariant
                    n == text@.len(),
                    s < i <= n,
                decreases n - i,
            {
                i += 1;
            }
            toks.push(Token { kind: TokKind::Ident, start: s, end: i });
        } else {
            // operators and punctuation, longest match first
            let two = if i + 1 < n {
                Some(text[i + 1])
            } else {
                None
            };
            let kind: TokKind;
            let mut width: usize = 1;
            if c == '<' {
                if two == Some('<') && i + 2 < n && text[i + 2] == '-' {
                    kind = TokKind::ArrowLeft2;
                    width = 3;
                } else if two == Some('-') {
                    kind = TokKind::ArrowLeft;
                    width = 2;
                } else if two == Some('=') {
                    kind = TokKind::Le;
                    width = 2;
                } else {
                    kind = TokKind::Lt;
                }
            } else if c == '>' {
                if two == Some('=') {
                    kind = TokKind::Ge;
                    width = 2;
                } else {
                    kind = TokKind::Gt;
                }
            } else if c == '-' {
                if two == Some('>') {
                    if i + 2 < n && text[i + 2] == '>' {
                        kind = TokKind::ArrowRight2;
                        width = 3;
                    } else {
                        kind = TokKind::ArrowRight;
                        width = 2;
                    }
                } else {
                    kind = TokKind::Minus;
                }
            } else if c == '=' {
                if two == Some('=') {
                    kind = TokKind::EqEq;
                    width = 2;
                } else {
                    kind = TokKind::Equal;
                }
            } else if c == '!' {
                if two == Some('=') {
                    kind = TokKind::Neq;
                    width = 2;
                } else {
                    kind = TokKind::Bang;
                }
            } else if c == '&' {
                if two == Some('&') {
                    kind = TokKind::AmpAmp;
                    width = 2;
                } else {
                    kind = TokKind::Amp;
                }
            } else if c == '|' {
                if two == Some('|') {
                    kind = TokKind::PipePipe;
                    width = 2;
                } else {
                    kind = TokKind::Pipe;
                }
            } else if c == ':' {
                if two == Some(':') {
                    kind = TokKind::ColonColon;
                    width = 2;
                } else {
                    kind = TokKind::Colon;
                }
            } else if c == '[' {
                if two == Some('[') {
                    kind = TokKind::LBracket2;
                    width = 2;
                } else {
                    kind = TokKind::LBracket;
                }
            } else if c == ']' {
                kind = TokKind::RBracket;
            } else if c == '(' {
                kind = TokKind::LParen;
            } else if c == ')' {
                kind = TokKind::RParen;
            } else if c == '{' {
                kind = TokKind::LBrace;
            } else if c == '}' {
                kind = TokKind::RBrace;
            } else if c == ',' {
                kind = TokKind::Comma;
            } else if c == ';' {
                kind = TokKind::Semi;
            } else if c == '+' {
                kind = TokKind::Plus;
            } else if c == '*' {
                kind = TokKind::Star;
            } else if c == '/' {
                kind = TokKind::Slash;
            } else if c == '^' {
                kind = TokKind::Caret;
            } else if c == '~' {
                kind = TokKind::Tilde;
            } else if c == '$' {
                kind = TokKind::Dollar;
            } else if c == '@' {
                kind = TokKind::At;
            } else if c == '?' {
                kind = TokKind::Question;
            } else {
                return None;
            }
            toks.push(Token { kind, start: i, end: i + width });
            i += width;
        }
    }
    Some((toks, comments))
}

} // verus!

//! Recursive-descent parser producing a `SyntaxTree`.
//!
//! The parser recognises the expression grammar the lint rules need:
//! literals, identifiers, calls with named and missing arguments, `[` and
//! `[[` subsetting, the R operator precedence ladder, assignments in all
//! directions, `if`/`for`/`while`, braces, and function definitions.
//! Newlines terminate statements except inside parentheses or brackets or
//! after an operator.
//!
//! On any input it cannot understand the parser reports a `ParseError`
//! rather than guessing.  Every returned tree goes through
//! `SyntaxTree::assemble`, so it is well-formed by construction.

use vstd::prelude::*;
use crate::lexer::{tokenize, TokKind, Token};
use crate::syntax::{tree_wf, Node, NodeKind, SyntaxTree};
use crate::text::push_range;

verus! {

/// Failure to turn source text into a syntax tree.
#[derive(Clone, Debug, PartialEq, Eq)]
pub struct ParseError {
    /// Name of the file whose parse failed.
    pub filename: String,
}

impl ParseError {
    /// A human-readable description of the failure.
    pub fn message(&self) -> (r: String)
        ensures
            r@ == "Failed to parse "@ + self.filename@ + " due to syntax errors."@,
    {
        let mut s = String::new();
        s.append("Failed to parse ");
        s.append(self.filename.as_str());
        s.append(" due to syntax errors.");
        s
    }
}

struct Parser {
    toks: Vec<Token>,
    text: Vec<char>,
    pos: usize,
    /// How many parentheses or brackets are open; newlines are skipped
    /// whenever this is positive.
    depth: usize,
    nodes: Vec<Node>,
}

spec fn pinv(p: Parser) -> bool {
    p.pos <= p.toks@.len()
}

impl Parser {
    fn peek(&self) -> (r: Option<Token>)
        ensures
            r is Some <==> self.pos < self.toks@.len(),
            r is Some ==> r->Some_0 == self.toks@[self.pos as int],
    {
        if self.pos < self.toks.len() {
            Some(self.toks[self.pos])
        } else {
            None
        }
    }

    fn peek_kind(&self) -> (r: Option<TokKind>)
        ensures
            r is Some <==> self.pos < self.toks@.len(),
    {
        if self.pos < self.toks.len() {
            Some(self.toks[self.pos].kind)
        } else {
            None
        }
    }

    fn peek2_kind(&self) -> (r: Option<TokKind>)
        ensures
            r is Some <==> self.pos + 1 < self.toks@.len(),
    {
        let n = self.toks.len();
        if n > 0 && self.pos < n - 1 {
            Some(self.toks[self.pos + 1].kind)
        } else {
            None
        }
    }

    fn bump(&mut self)
        requires
            pinv(*old(self)),
            old(self).pos < old(self).toks@.len(),
        ensures
            pinv(*final(self)),
            final(self).pos == old(self).pos + 1,
            final(self).toks == old(self).toks,
            final(self).text == old(self).text,
    {
        let n = self.toks.len();
        self.pos = self.pos + 1;
    }

    /// The character position where the current token starts, or the end of
    /// the text when all tokens are consumed.
    fn here(&self) -> (r: usize) {
        if self.pos < self.toks.len() {
            let s = self.toks[self.pos].start;
            if s <= self.text.len() {
                s
            } else {
                self.text.len()
            }
        } else {
            self.text.len()
        }
    }

    /// The character position where the previous token ends.
    fn prev_end(&self) -> (r: usize) {
        if self.pos > 0 && self.pos <= self.toks.len() {
            let e = self.toks[self.pos - 1].end;
            if e <= self.text.len() {
                e
            } else {
                self.text.len()
            }
        } else {
            0
        }
    }

    /// Does the current token equal the given keyword or symbol text?
    fn at_word(&self, w: &str) -> (r: bool)
        ensures
            r ==> self.pos < self.toks@.len(),
    {
        if self.pos >= self.toks.len() {
            return false;
        }
        let t = self.toks[self.pos];
        if t.kind != TokKind::Ident {
            return false;
        }
        if t.start > t.end || t.end > self.text.len() {
            return false;
        }
        let n = w.unicode_len();
        if t.end - t.start != n {
            return false;
        }
        let mut k: usize = 0;
        while k < n
            invariant
                n == w@.len(),
                t.start + n <= self.text@.len(),
                self.text@.len() <= usize::MAX,
                k <= n,
            decreases n - k,
        {
            if self.text[t.start + k] != w.get_char(k) {
                return false;
            }
            k += 1;
        }
        true
    }

    fn skip_newlines(&mut self)
        requires
            pinv(*old(self)),
        ensures
            pinv(*final(self)),
            final(self).pos >= old(self).pos,
            final(self).toks == old(self).toks,
            final(self).text == old(self).text,
            final(self).nodes == old(self).nodes,
        decreases self.toks@.len() - self.pos,
    {
        while self.pos < self.toks.len() && self.toks[self.pos].kind == TokKind::Newline
            invariant
                pinv(*self),
                self.pos >= old(self).pos,
                self.toks == old(self).toks,
                self.text == old(self).text,
                self.nodes == old(self).nodes,
            decreases self.toks@.len() - self.pos,
        {
            self.pos = self.pos + 1;
        }
    }

    /// Skips newlines only in a nested (bracketed) context.
    fn skip_nl_nested(&mut self)
        requires
            pinv(*old(self)),
        ensures
            pinv(*final(self)),
            final(self).pos >= old(self).pos,
            final(self).toks == old(self).toks,
            final(self).text == old(self).text,
            final(self).nodes == old(self).nodes,
    {
        if self.depth > 0 {
            self.skip_newlines();
        }
    }

    fn push_node(&mut self, kind: NodeKind, start: usize, end: usize, children: Vec<usize>) -> (r:
        usize)
        requires
            pinv(*old(self)),
        ensures
            pinv(*final(self)),
            final(self).pos == old(self).pos,
            final(self).toks == old(self).toks,
            final(self).text == old(self).text,
    {
        let n = self.text.len();
        let e = if end > n {
            n
        } else {
            end
        };
        let s = if start > e {
            e
        } else {
            start
        };
        let mut t: Vec<char> = Vec::new();
        push_range(&mut t, &self.text, s, e);
        self.nodes.push(Node { kind, start: s, end: e, text: t, children });
        self.nodes.len() - 1
    }

    fn node_start(&self, i: usize) -> (r: usize) {
        if i < self.nodes.len() {
            self.nodes[i].start
        } else {
            0
        }
    }

    fn node_end(&self, i: usize) -> (r: usize) {
        if i < self.nodes.len() {
            self.nodes[i].end
        } else {
            0
        }
    }

    /// Parses a whole program: statements separated by newlines or `;`.
    fn parse_program(&mut self) -> (r: Option<usize>)
        requires
            pinv(*old(self)),
        ensures
            pinv(*final(self)),
            final(self).pos >= old(self).pos,
            final(self).toks == old(self).toks,
            final(self).text == old(self).text,
        decreases self.toks@.len() - self.pos, 20int, 0int,
    {
        let mut stmts: Vec<usize> = Vec::new();
        loop
            invariant
                pinv(*self),
                self.pos >= old(self).pos,
                self.toks == old(self).toks,
                self.text == old(self).text,
            decreases self.toks@.len() - self.pos,
        {
            match self.peek_kind() {
                None => { break ; },
                Some(k) => {
                    if k == TokKind::Newline || k == TokKind::Semi {
                        self.bump();
                    } else {
                        let e = self.parse_expr(0)?;
                        stmts.push(e);
                        // a statement must be followed by a terminator
                        match self.peek_kind() {
                            None => { break ; },
                            Some(k2) => {
                                if !(k2 == TokKind::Newline || k2 == TokKind::Semi) {
                                    return None;
                                }
                            },
                        }
                    }
                },
            }
        }
        let n = self.text.len();
        let r = self.push_node(NodeKind::Program, 0, n, stmts);
        Some(r)
    }

    /// Parses one expression at the given precedence level (0 is loosest).
    fn parse_expr(&mut self, level: usize) -> (r: Option<usize>)
        requires
            pinv(*old(self)),
            level <= 13,
        ensures
            pinv(*final(self)),
            final(self).pos >= old(self).pos,
            r is Some ==> final(self).pos > old(self).pos,
            final(self).toks == old(self).toks,
            final(self).text == old(self).text,
        decreases self.toks@.len() - self.pos, 15int - level, 1int,
    {
        if level == 5 {
            // unary `!`, looser than comparison
            self.skip_nl_nested();
            if self.peek_kind() == Some(TokKind::Bang) {
                return self.parse_unary(level);
            }
            return self.parse_expr(level + 1);
        }
        if level == 2 {
            // `~` is both a low-precedence binary operator and a prefix
            self.skip_nl_nested();
            if self.peek_kind() == Some(TokKind::Tilde) {
                return self.parse_unary(level);
            }
            // fall through to the binary loop below
        }
        if level == 11 {
            // unary minus and plus
            self.skip_nl_nested();
            if self.peek_kind() == Some(TokKind::Minus) || self.peek_kind() == Some(TokKind::Plus) {
                return self.parse_unary(level);
            }
            return self.parse_expr(level + 1);
        }
        if level == 13 {
            return self.parse_postfix();
        }
        let mut lhs = self.parse_expr(level + 1)?;
        loop
            invariant
                pinv(*self),
                self.pos > old(self).pos,
                self.toks == old(self).toks,
                self.text == old(self).text,
                level <= 13,
                level != 5 && level != 11 && level != 13,
            decreases self.toks@.len() - self.pos,
        {
            self.skip_nl_nested();
            let opk = match self.peek_kind() {
                None => { break ; },
                Some(k) => k,
            };
            if !op_at_level(opk, level) {
                break ;
            }
            let t = self.toks[self.pos];
            self.bump();
            let op = self.push_node(NodeKind::Op, t.start, t.end, Vec::new());
            self.skip_newlines();
            // assignment and `^` associate to the right
            let rhs_level = if level == 0 || level == 1 || level == 12 {
                level
            } else {
                level + 1
            };
            let rhs = self.parse_expr(rhs_level)?;
            let s = self.node_start(lhs);
            let e = self.node_end(rhs);
            let mut ch: Vec<usize> = Vec::new();
            ch.push(lhs);
            ch.push(op);
            ch.push(rhs);
            lhs = self.push_node(NodeKind::Binary, s, e, ch);
        }
        Some(lhs)
    }

    /// Parses a prefix operator at the given level; the operand is parsed at
    /// the same level, so `!!x` and `-(-x)` nest.
    fn parse_unary(&mut self, level: usize) -> (r: Option<usize>)
        requires
            pinv(*old(self)),
            level <= 13,
            old(self).pos < old(self).toks@.len(),
        ensures
            pinv(*final(self)),
            final(self).pos >= old(self).pos,
            r is Some ==> final(self).pos > old(self).pos,
            final(self).toks == old(self).toks,
            final(self).text == old(self).text,
        decreases self.toks@.len() - self.pos, 15int - level, 0int,
    {
        let t = self.toks[self.pos];
        self.bump();
        let op = self.push_node(NodeKind::Op, t.start, t.end, Vec::new());
        self.skip_newlines();
        let operand = self.parse_expr(level)?;
        let e = self.node_end(operand);
        let mut ch: Vec<usize> = Vec::new();
        ch.push(op);
        ch.push(operand);
        let r = self.push_node(NodeKind::Unary, t.start, e, ch);
        Some(r)
    }

    /// Parses a primary expression followed by any chain of calls,
    /// subsetting, and `$` / `@` / `::` accesses.
    fn parse_postfix(&mut self) -> (r: Option<usize>)
        requires
            pinv(*old(self)),
        ensures
            pinv(*final(self)),
            final(self).pos >= old(self).pos,
            r is Some ==> final(self).pos > old(self).pos,
            final(self).toks == old(self).toks,
            final(self).text == old(self).text,
        decreases self.toks@.len() - self.pos, 0int, 5int,
    {
        let mut base = self.parse_primary()?;
        loop
            invariant
                pinv(*self),
                self.pos > old(self).pos,
                self.toks == old(self).toks,
                self.text == old(self).text,
            decreases self.toks@.len() - self.pos,
        {
            self.skip_nl_nested();
            let k = match self.peek_kind() {
                None => { break ; },
                Some(k) => k,
            };
            if k == TokKind::LParen {
                base = self.parse_arg_list(base, NodeKind::Call)?;
            } else if k == TokKind::LBracket {
                base = self.parse_arg_list(base, NodeKind::Subset)?;
            } else if k == TokKind::LBracket2 {
                base = self.parse_arg_list(base, NodeKind::Index2)?;
            } else if k == TokKind::Dollar || k == TokKind::At || k == TokKind::ColonColon {
                let t = self.toks[self.pos];
                self.bump();
                let op = self.push_node(NodeKind::Op, t.start, t.end, Vec::new());
                self.skip_newlines();
                let k2 = match self.peek_kind() {
                    None => { return None; },
                    Some(k2) => k2,
                };
                if !(k2 == TokKind::Ident || k2 == TokKind::Str) {
                    return None;
                }
                let t2 = self.toks[self.pos];
                self.bump();
                let rhs = self.push_node(
                    if k2 == TokKind::Ident {
                        NodeKind::Ident
                    } else {
                        NodeKind::Str
                    },
                    t2.start,
                    t2.end,
                    Vec::new(),
                );
                let s = self.node_start(base);
                let mut ch: Vec<usize> = Vec::new();
                ch.push(base);
                ch.push(op);
                ch.push(rhs);
                base = self.push_node(NodeKind::Binary, s, t2.end, ch);
            } else {
                break ;
            }
        }
        Some(base)
    }

    /// Parses `(args...)`, `[args...]` or `[[args...]]` after `base`.
    fn parse_arg_list(&mut self, base: usize, kind: NodeKind) -> (r: Option<usize>)
        requires
            pinv(*old(self)),
            old(self).pos < old(self).toks@.len(),
        ensures
            pinv(*final(self)),
            final(self).pos > old(self).pos,
            final(self).toks == old(self).toks,
            final(self).text == old(self).text,
        decreases self.toks@.len() - self.pos, 0int, 1int,
    {
        let open = self.toks[self.pos];
        let closing_bracket = open.kind == TokKind::LBracket || open.kind == TokKind::LBracket2;
        let double = open.kind == TokKind::LBracket2;
        self.bump();
        let saved_depth = self.depth;
        self.depth = if saved_depth < 100000 {
            saved_depth + 1
        } else {
            saved_depth
        };
        let mut args: Vec<usize> = Vec::new();
        args.push(base);
        self.skip_newlines();
        let mut first = true;
        loop
            invariant
                pinv(*self),
                self.pos > old(self).pos,
                self.toks == old(self).toks,
                self.text == old(self).text,
            decreases self.toks@.len() - self.pos,
        {
            self.skip_newlines();
            let k = match self.peek_kind() {
                None => { return None; },
                Some(k) => k,
            };
            let at_close = if closing_bracket {
                k == TokKind::RBracket
            } else {
                k == TokKind::RParen
            };
            if at_close && (first || !closing_bracket) {
                // `f()` and `x[]` have no arguments; a close right after a
                // comma in brackets still produces a hole below
                break ;
            }
            if at_close {
                break ;
            }
            first = false;
            if k == TokKind::Comma {
                // a hole such as the first argument of `x[, col]`
                let h = self.here();
                let a = self.push_node(NodeKind::Arg, h, h, Vec::new());
                args.push(a);
                self.bump();
                continue ;
            }
            let arg = self.parse_one_arg()?;
            args.push(arg);
            self.skip_newlines();
            let k2 = match self.peek_kind() {
                None => { return None; },
                Some(k2) => k2,
            };
            if k2 == TokKind::Comma {
                self.bump();
                self.skip_newlines();
                let k3 = match self.peek_kind() {
                    None => { return None; },
                    Some(k3) => k3,
                };
                let closes = if closing_bracket {
                    k3 == TokKind::RBracket
                } else {
                    k3 == TokKind::RParen
                };
                if closes {
                    // trailing comma leaves a hole, as in `x[order(x),]`
                    let h = self.here();
                    let a = self.push_node(NodeKind::Arg, h, h, Vec::new());
                    args.push(a);
                    break ;
                }
            } else {
                let closes = if closing_bracket {
                    k2 == TokKind::RBracket
                } else {
                    k2 == TokKind::RParen
                };
                if !closes {
                    return None;
                }
            }
        }
        // consume the closer(s)
        match self.peek_kind() {
            None => { return None; },
            Some(_) => {},
        }
        let mut close_end = self.toks[self.pos].end;
        self.bump();
        if double {
            self.skip_newlines();
            match self.peek_kind() {
                None => { return None; },
                Some(k) => {
                    if k != TokKind::RBracket {
                        return None;
                    }
                    close_end = self.toks[self.pos].end;
                    self.bump();
                },
            }
        }
        self.depth = saved_depth;
        let s = self.node_start(base);
        let r = self.push_node(kind, s, close_end, args);
        Some(r)
    }

    /// Parses a single call or subset argument: positional, `name = value`,
    /// or `name =` with a missing value.
    fn parse_one_arg(&mut self) -> (r: Option<usize>)
        requires
            pinv(*old(self)),
        ensures
            pinv(*final(self)),
            final(self).pos >= old(self).pos,
            r is Some ==> final(self).pos > old(self).pos,
            final(self).toks == old(self).toks,
            final(self).text == old(self).text,
        decreases self.toks@.len() - self.pos, 15int, 0int,
    {
        let k = match self.peek_kind() {
            None => { return None; },
            Some(k) => k,
        };
        if (k == TokKind::Ident || k == TokKind::Str) && self.peek2_kind() == Some(
            TokKind::Equal,
        ) {
            let t = self.toks[self.pos];
            self.bump();
            let name = self.push_node(
                if k == TokKind::Ident {
                    NodeKind::Ident
                } else {
                    NodeKind::Str
                },
                t.start,
                t.end,
                Vec::new(),
            );
            self.bump();  // `=`
            self.skip_newlines();
            let k2 = match self.peek_kind() {
                None => { return None; },
                Some(k2) => k2,
            };
            if k2 == TokKind::Comma || k2 == TokKind::RParen || k2 == TokKind::RBracket {
                // `f(object =)`: a named argument with a missing value
                let mut ch: Vec<usize> = Vec::new();
                ch.push(name);
                let r = self.push_node(NodeKind::NamedArg, t.start, self.prev_end(), ch);
                return Some(r);
            }
            let v = self.parse_expr(1)?;
            let e = self.node_end(v);
            let mut ch: Vec<usize> = Vec::new();
            ch.push(name);
            ch.push(v);
            let r = self.push_node(NodeKind::NamedArg, t.start, e, ch);
            Some(r)
        } else {
            let v = self.parse_expr(1)?;
            let s = self.node_start(v);
            let e = self.node_end(v);
            let mut ch: Vec<usize> = Vec::new();
            ch.push(v);
            let r = self.push_node(NodeKind::Arg, s, e, ch);
            Some(r)
        }
    }

    /// Parses a literal, an identifier, a parenthesised or braced
    /// expression, or a control-flow construct.
    fn parse_primary(&mut self) -> (r: Option<usize>)
        requires
            pinv(*old(self)),
        ensures
            pinv(*final(self)),
            final(self).pos >= old(self).pos,
            r is Some ==> final(self).pos > old(self).pos,
            final(self).toks == old(self).toks,
            final(self).text == old(self).text,
        decreases self.toks@.len() - self.pos, 0int, 4int,
    {
        self.skip_nl_nested();
        let k = match self.peek_kind() {
            None => { return None; },
            Some(k) => k,
        };
        if k == TokKind::Num || k == TokKind::Str {
            let t = self.toks[self.pos];
            self.bump();
            let r = self.push_node(
                if k == TokKind::Num {
                    NodeKind::Num
                } else {
                    NodeKind::Str
                },
                t.start,
                t.end,
                Vec::new(),
            );
            return Some(r);
        }
        if k == TokKind::Ident {
            if self.at_word("if") {
                return self.parse_if();
            }
            if self.at_word("for") {
                return self.parse_for();
            }
            if self.at_word("while") {
                return self.parse_while();
            }
            if self.at_word("function") {
                return self.parse_function();
            }
            let t = self.toks[self.pos];
            self.bump();
            let r = self.push_node(NodeKind::Ident, t.start, t.end, Vec::new());
            return Some(r);
        }
        if k == TokKind::LParen {
            let t = self.toks[self.pos];
            self.bump();
            let saved_depth = self.depth;
            self.depth = if saved_depth < 100000 {
            saved_depth + 1
        } else {
            saved_depth
        };
            let inner = self.parse_expr(0)?;
            self.skip_newlines();
            match self.peek_kind() {
                None => { return None; },
                Some(k2) => {
                    if k2 != TokKind::RParen {
                        return None;
                    }
                },
            }
            let e = self.toks[self.pos].end;
            self.bump();
            self.depth = saved_depth;
            let mut ch: Vec<usize> = Vec::new();
            ch.push(inner);
            let r = self.push_node(NodeKind::Parens, t.start, e, ch);
            return Some(r);
        }
        if k == TokKind::LBrace {
            return self.parse_braces();
        }
        None
    }

    /// Parses `{ stmt* }`; newlines separate statements inside braces even
    /// when the braces appear inside a call.
    fn parse_braces(&mut self) -> (r: Option<usize>)
        requires
            pinv(*old(self)),
            old(self).pos < old(self).toks@.len(),
        ensures
            pinv(*final(self)),
            final(self).pos > old(self).pos,
            final(self).toks == old(self).toks,
            final(self).text == old(self).text,
        decreases self.toks@.len() - self.pos, 0int, 3int,
    {
        let t = self.toks[self.pos];
        self.bump();
        let saved_depth = self.depth;
        self.depth = 0;
        let mut stmts: Vec<usize> = Vec::new();
        let mut end: usize = t.end;
        loop
            invariant
                pinv(*self),
                self.pos > old(self).pos,
                self.toks == old(self).toks,
                self.text == old(self).text,
            decreases self.toks@.len() - self.pos,
        {
            let k = match self.peek_kind() {
                None => { return None; },
                Some(k) => k,
            };
            if k == TokKind::Newline || k == TokKind::Semi {
                self.bump();
            } else if k == TokKind::RBrace {
                end = self.toks[self.pos].end;
                self.bump();
                break ;
            } else {
                let e = self.parse_expr(0)?;
                stmts.push(e);
                let k2 = match self.peek_kind() {
                    None => { return None; },
                    Some(k2) => k2,
                };
                if !(k2 == TokKind::Newline || k2 == TokKind::Semi || k2 == TokKind::RBrace) {
                    return None;
                }
            }
        }
        self.depth = saved_depth;
        let r = self.push_node(NodeKind::Braces, t.start, end, stmts);
        Some(r)
    }

    /// Parses the parenthesised head of `if`, `for` or `while` plus its
    /// body, starting at the keyword.
    fn parse_if(&mut self) -> (r: Option<usize>)
        requires
            pinv(*old(self)),
            old(self).pos < old(self).toks@.len(),
        ensures
            pinv(*final(self)),
            final(self).pos > old(self).pos,
            final(self).toks == old(self).toks,
            final(self).text == old(self).text,
        decreases self.toks@.len() - self.pos, 0int, 3int,
    {
        let t = self.toks[self.pos];
        self.bump();
        let cond = self.parse_head_cond()?;
        self.skip_newlines();
        let body = self.parse_expr(0)?;
        let mut e = self.node_end(body);
        let mut ch: Vec<usize> = Vec::new();
        ch.push(cond);
        ch.push(body);
        self.skip_nl_nested();
        if self.at_word("else") {
            self.bump();
            self.skip_newlines();
            let alt = self.parse_expr(0)?;
            e = self.node_end(alt);
            ch.push(alt);
        }
        let r = self.push_node(NodeKind::If, t.start, e, ch);
        Some(r)
    }

    fn parse_while(&mut self) -> (r: Option<usize>)
        requires
            pinv(*old(self)),
            old(self).pos < old(self).toks@.len(),
        ensures
            pinv(*final(self)),
            final(self).pos > old(self).pos,
            final(self).toks == old(self).toks,
            final(self).text == old(self).text,
        decreases self.toks@.len() - self.pos, 0int, 3int,
    {
        let t = self.toks[self.pos];
        self.bump();
        let cond = self.parse_head_cond()?;
        self.skip_newlines();
        let body = self.parse_expr(0)?;
        let e = self.node_end(body);
        let mut ch: Vec<usize> = Vec::new();
        ch.push(cond);
        ch.push(body);
        let r = self.push_node(NodeKind::While, t.start, e, ch);
        Some(r)
    }

    /// Parses `( expr )` after `if` or `while`.
    fn parse_head_cond(&mut self) -> (r: Option<usize>)
        requires
            pinv(*old(self)),
        ensures
            pinv(*final(self)),
            final(self).pos >= old(self).pos,
            r is Some ==> final(self).pos > old(self).pos,
            final(self).toks == old(self).toks,
            final(self).text == old(self).text,
        decreases self.toks@.len() - self.pos, 1int, 0int,
    {
        self.skip_newlines();
        match self.peek_kind() {
            None => { return None; },
            Some(k) => {
                if k != TokKind::LParen {
                    return None;
                }
            },
        }
        self.bump();
        let saved_depth = self.depth;
        self.depth = if saved_depth < 100000 {
            saved_depth + 1
        } else {
            saved_depth
        };
        let cond = self.parse_expr(0)?;
        self.skip_newlines();
        match self.peek_kind() {
            None => { return None; },
            Some(k) => {
                if k != TokKind::RParen {
                    return None;
                }
            },
        }
        self.bump();
        self.depth = saved_depth;
        Some(cond)
    }

    /// Parses `for (var in seq) body` starting at the keyword.
    fn parse_for(&mut self) -> (r: Option<usize>)
        requires
            pinv(*old(self)),
            old(self).pos < old(self).toks@.len(),
        ensures
            pinv(*final(self)),
            final(self).pos > old(self).pos,
            final(self).toks == old(self).toks,
            final(self).text == old(self).text,
        decreases self.toks@.len() - self.pos, 0int, 3int,
    {
        let t = self.toks[self.pos];
        self.bump();
        self.skip_newlines();
        match self.peek_kind() {
            None => { return None; },
            Some(k) => {
                if k != TokKind::LParen {
                    return None;
                }
            },
        }
        self.bump();
        let saved_depth = self.depth;
        self.depth = if saved_depth < 100000 {
            saved_depth + 1
        } else {
            saved_depth
        };
        self.skip_newlines();
        match self.peek_kind() {
            None => { return None; },
            Some(k) => {
                if k != TokKind::Ident {
                    return None;
                }
            },
        }
        let vt = self.toks[self.pos];
        self.bump();
        let var = self.push_node(NodeKind::Ident, vt.start, vt.end, Vec::new());
        self.skip_newlines();
        if !self.at_word("in") {
            return None;
        }
        self.bump();
        self.skip_newlines();
        let seq = self.parse_expr(2)?;
        self.skip_newlines();
        match self.peek_kind() {
            None => { return None; },
            Some(k) => {
                if k != TokKind::RParen {
                    return None;
                }
            },
        }
        self.bump();
        self.depth = saved_depth;
        self.skip_newlines();
        let body = self.parse_expr(0)?;
        let e = self.node_end(body);
        let mut ch: Vec<usize> = Vec::new();
        ch.push(var);
        ch.push(seq);
        ch.push(body);
        let r = self.push_node(NodeKind::For, t.start, e, ch);
        Some(r)
    }

    /// Parses `function(params) body` starting at the keyword.
    fn parse_function(&mut self) -> (r: Option<usize>)
        requires
            pinv(*old(self)),
            old(self).pos < old(self).toks@.len(),
        ensures
            pinv(*final(self)),
            final(self).pos > old(self).pos,
            final(self).toks == old(self).toks,
            final(self).text == old(self).text,
        decreases self.toks@.len() - self.pos, 0int, 3int,
    {
        let t = self.toks[self.pos];
        self.bump();
        self.skip_newlines();
        match self.peek_kind() {
            None => { return None; },
            Some(k) => {
                if k != TokKind::LParen {
                    return None;
                }
            },
        }
        let open = self.toks[self.pos];
        self.bump();
        let saved_depth = self.depth;
        self.depth = if saved_depth < 100000 {
            saved_depth + 1
        } else {
            saved_depth
        };
        let mut params: Vec<usize> = Vec::new();
        self.skip_newlines();
        let mut params_end: usize = open.end;
        loop
            invariant
                pinv(*self),
                self.pos > old(self).pos,
                self.toks == old(self).toks,
                self.text == old(self).text,
            decreases self.toks@.len() - self.pos,
        {
            self.skip_newlines();
            let k = match self.peek_kind() {
                None => { return None; },
                Some(k) => k,
            };
            if k == TokKind::RParen {
                params_end = self.toks[self.pos].end;
                self.bump();
                break ;
            }
            if k != TokKind::Ident {
                return None;
            }
            let pt = self.toks[self.pos];
            self.bump();
            let name = self.push_node(NodeKind::Ident, pt.start, pt.end, Vec::new());
            let mut ch: Vec<usize> = Vec::new();
            ch.push(name);
            let mut pend = pt.end;
            self.skip_newlines();
            if self.peek_kind() == Some(TokKind::Equal) {
                self.bump();
                self.skip_newlines();
                let d = self.parse_expr(1)?;
                pend = self.node_end(d);
                ch.push(d);
            }
            let p = self.push_node(NodeKind::Param, pt.start, pend, ch);
            params.push(p);
            self.skip_newlines();
            match self.peek_kind() {
                None => { return None; },
                Some(k2) => {
                    if k2 == TokKind::Comma {
                        self.bump();
                    } else if k2 != TokKind::RParen {
                        return None;
                    }
                },
            }
        }
        self.depth = saved_depth;
        let plist = self.push_node(NodeKind::Params, open.start, params_end, params);
        self.skip_newlines();
        let body = self.parse_expr(0)?;
        let e = self.node_end(body);
        let mut ch: Vec<usize> = Vec::new();
        ch.push(plist);
        ch.push(body);
        let r = self.push_node(NodeKind::FunctionDef, t.start, e, ch);
        Some(r)
    }
}

/// Does token kind `k` act as a binary operator at precedence `level`?
fn op_at_level(k: TokKind, level: usize) -> (r: bool) {
    if level == 0 {
        k == TokKind::Equal
    } else if level == 1 {
        k == TokKind::ArrowLeft || k == TokKind::ArrowLeft2 || k == TokKind::ArrowRight || k
            == TokKind::ArrowRight2
    } else if level == 2 {
        k == TokKind::Tilde
    } else if level == 3 {
        k == TokKind::PipePipe || k == TokKind::Pipe
    } else if level == 4 {
        k == TokKind::AmpAmp || k == TokKind::Amp
    } else if level == 6 {
        k == TokKind::EqEq || k == TokKind::Neq || k == TokKind::Lt || k == TokKind::Gt || k
            == TokKind::Le || k == TokKind::Ge
    } else if level == 7 {
        k == TokKind::Plus || k == TokKind::Minus
    } else if level == 8 {
        k == TokKind::Star || k == TokKind::Slash
    } else if level == 9 {
        k == TokKind::Special
    } else if level == 10 {
        k == TokKind::Colon
    } else if level == 12 {
        k == TokKind::Caret
    } else {
        false
    }
}

/// Parses source characters into a well-formed syntax tree, or `None` when
/// the text does not lex, does not parse, or fails a structural check.
pub fn parse_chars(text: &Vec<char>) -> (r: Option<SyntaxTree>)
    ensures
        r is Some ==> tree_wf(r->Some_0) && r->Some_0.text@ == text@,
{
    let lexed = tokenize(text);
    let (toks, comments) = match lexed {
        None => { return None; },
        Some(tc) => tc,
    };
    let mut anchors: Vec<(usize, usize)> = Vec::new();
    let mut ti: usize = 0;
    while ti < toks.len()
        invariant
            ti <= toks@.len(),
        decreases toks@.len() - ti,
    {
        let t = toks[ti];
        if t.kind != TokKind::Newline {
            anchors.push((t.start, t.end));
        }
        ti += 1;
    }
    let mut own_text: Vec<char> = Vec::new();
    push_range(&mut own_text, text, 0, text.len());
    proof {
        assert(own_text@ =~= text@);
    }
    let mut p = Parser { toks, text: own_text, pos: 0, depth: 0, nodes: Vec::new() };
    match p.parse_program() {
        None => None,
        Some(_) => SyntaxTree::assemble(p.nodes, p.text, comments, anchors),
    }
}

} // verus!

//! The recursive-descent parser.
//!
//! ```text
//! expr       := unary expr_tail
//! expr_tail  := (PLUS unary)*
//! unary      := MINUS literal | prefix
//! prefix     := (INCREMENT | DECREMENT) literal | postfix
//! postfix    := literal (INCREMENT | DECREMENT)?
//! literal    := LPAREN expr RPAREN | <token>
//! ```
use vstd::prelude::*;
use crate::diagnostics::{ErrorKind, Hint, HintKind, SyntaxError};
use crate::expr::{last_of, Ast, Expr, ExprKind};
use crate::tokenizer::{lemma_lex_bounds, lex, token_at, TokenKind, TokenStream, TokenView};

verus! {

/// The outcome of a grammar rule: a tree and the offset after it, or the
/// kind of error, the token it is anchored at and the offset after the last
/// token read.
pub enum Parse {
    Done(Ast, int),
    Fail(ErrorKind, TokenView, int),
}

pub open spec fn is_step(kind: TokenKind) -> bool {
    kind == TokenKind::Increment || kind == TokenKind::Decrement
}

/// Whether `j` lies between `i` and the end of the buffer.
pub open spec fn ahead(buf: Seq<u8>, i: int, j: int) -> bool {
    i <= j <= buf.len()
}

/// Whether `j` lies strictly after `i`, inside the buffer.
pub open spec fn past(buf: Seq<u8>, i: int, j: int) -> bool {
    i < j <= buf.len()
}

/// `expr` read from offset `i`; `pending` tells whether a line break was
/// skipped since the last token, and so on for each rule.
pub open spec fn parse_expr(buf: Seq<u8>, i: int, pending: bool) -> Parse
    decreases buf.len() - i, 5int,
{
    match parse_unary(buf, i, pending) {
        Parse::Done(left, j) => if ahead(buf, i, j) {
            parse_tail(buf, j, left)
        } else {
            Parse::Done(left, j)
        },
        Parse::Fail(k, t, n) => Parse::Fail(k, t, n),
    }
}

/// `expr_tail` read from offset `i`, with `left` parsed before it: the terms
/// fold to the left.
pub open spec fn parse_tail(buf: Seq<u8>, i: int, left: Ast) -> Parse
    decreases buf.len() - i, 4int,
{
    let t = lex(buf, i);
    if t.kind == TokenKind::Plus && past(buf, i, t.next) {
        match parse_unary(buf, t.next, false) {
            Parse::Done(right, j) => if ahead(buf, t.next, j) {
                parse_tail(buf, j, Ast::Add(Box::new(left), Box::new(right)))
            } else {
                Parse::Done(left, i)
            },
            Parse::Fail(k, e, n) => Parse::Fail(k, e, n),
        }
    } else {
        Parse::Done(left, i)
    }
}

/// `unary` read from offset `i`.
pub open spec fn parse_unary(buf: Seq<u8>, i: int, pending: bool) -> Parse
    decreases buf.len() - i, 3int,
{
    let t = lex(buf, i);
    if t.kind == TokenKind::Minus && past(buf, i, t.next) {
        match parse_literal(buf, t.next, false) {
            Parse::Done(e, j) => Parse::Done(Ast::Node(ExprKind::UnaryNegate, Box::new(e)), j),
            Parse::Fail(k, e, n) => Parse::Fail(k, e, n),
        }
    } else {
        parse_prefix(buf, i, pending)
    }
}

/// `prefix` read from offset `i`. A prefixed operand that a second step
/// operator follows is refused, at that operator.
pub open spec fn parse_prefix(buf: Seq<u8>, i: int, pending: bool) -> Parse
    decreases buf.len() - i, 2int,
{
    let t = lex(buf, i);
    if is_step(t.kind) && past(buf, i, t.next) {
        match parse_literal(buf, t.next, false) {
            Parse::Done(e, j) => if is_step(lex(buf, j).kind) {
                Parse::Fail(ErrorKind::InvalidSyntax, token_at(buf, j, false), lex(buf, j).next)
            } else {
                let kind = if t.kind == TokenKind::Increment {
                    ExprKind::PreIncrement
                } else {
                    ExprKind::PreDecrement
                };
                Parse::Done(Ast::Node(kind, Box::new(e)), j)
            },
            Parse::Fail(k, e, n) => Parse::Fail(k, e, n),
        }
    } else {
        parse_postfix(buf, i, pending)
    }
}

/// `postfix` read from offset `i`.
pub open spec fn parse_postfix(buf: Seq<u8>, i: int, pending: bool) -> Parse
    decreases buf.len() - i, 1int,
{
    match parse_literal(buf, i, pending) {
        Parse::Done(e, j) => {
            let u = lex(buf, j);
            if is_step(u.kind) {
                let kind = if u.kind == TokenKind::Increment {
                    ExprKind::PostIncrement
                } else {
                    ExprKind::PostDecrement
                };
                Parse::Done(Ast::Node(kind, Box::new(e)), u.next)
            } else {
                Parse::Done(e, j)
            }
        },
        Parse::Fail(k, e, n) => Parse::Fail(k, e, n),
    }
}

/// `literal` read from offset `i`. A group that `)` does not close is
/// refused, at the last token of the expression inside it.
pub open spec fn parse_literal(buf: Seq<u8>, i: int, pending: bool) -> Parse
    decreases buf.len() - i, 0int,
{
    let t = lex(buf, i);
    if t.kind == TokenKind::LParen && past(buf, i, t.next) {
        match parse_expr(buf, t.next, false) {
            Parse::Done(e, j) => if lex(buf, j).kind == TokenKind::RParen {
                Parse::Done(Ast::Node(ExprKind::Group, Box::new(e)), lex(buf, j).next)
            } else {
                Parse::Fail(ErrorKind::UnclosedParen, last_of(e), lex(buf, j).next)
            },
            Parse::Fail(k, e, n) => Parse::Fail(k, e, n),
        }
    } else {
        Parse::Done(Ast::Literal(token_at(buf, i, pending)), t.next)
    }
}

/// A rule's result `r`, with the cursor at `end` afterwards, is what the
/// grammar gives.
pub open spec fn yields<'a>(r: Result<Expr<'a>, SyntaxError<'a>>, p: Parse, end: int) -> bool {
    match r {
        Ok(e) => p == Parse::Done(e.model(), end),
        Err(err) => match p {
            Parse::Fail(k, t, n) => err.describes(k, t) && n == end,
            Parse::Done(_, _) => false,
        },
    }
}

pub struct Parser<'a> {
    pub stream: TokenStream<'a>,
}

impl<'a> Parser<'a> {
    pub open spec fn wf(&self) -> bool {
        self.stream.wf()
    }

    pub open spec fn source(&self) -> Seq<u8> {
        self.stream.buffer@
    }

    pub open spec fn pos(&self) -> int {
        self.stream.index as int
    }

    /// The parser keeps its source and moves its cursor forward only.
    pub open spec fn advanced(&self, after: &Parser<'a>) -> bool {
        &&& after.wf()
        &&& after.stream.buffer == self.stream.buffer
        &&& after.stream.len == self.stream.len
        &&& self.pos() <= after.pos()
    }

    pub fn new(stream: TokenStream<'a>) -> (r: Parser<'a>)
        ensures
            r.stream == stream,
    {
        Parser { stream }
    }

    /// Parses an expression.
    pub fn expr(&mut self) -> (r: Result<Expr<'a>, SyntaxError<'a>>)
        requires
            old(self).wf(),
        ensures
            old(self).advanced(final(self)),
            yields(r, parse_expr(old(self).source(), old(self).pos(), old(self).stream.after_line), final(self).pos()),
            !final(self).stream.after_line,
        decreases old(self).stream.len - old(self).stream.index, 5int,
    {
        let left = match self.unary() {
            Ok(e) => e,
            Err(error) => return Err(error),
        };
        self.expr_prec(left)
    }

    /// Folds the `+ term` pairs that follow `lhs` into a left-leaning tree.
    pub fn expr_prec(&mut self, lhs: Expr<'a>) -> (r: Result<Expr<'a>, SyntaxError<'a>>)
        requires
            old(self).wf(),
        ensures
            old(self).advanced(final(self)),
            yields(r, parse_tail(old(self).source(), old(self).pos(), lhs.model()), final(self).pos()),
            final(self).stream.after_line == (old(self).stream.after_line && lex(
                old(self).source(),
                old(self).pos(),
            ).kind != TokenKind::Plus),
        decreases old(self).stream.len - old(self).stream.index, 4int,
    {
        let ghost buf = self.source();
        let ghost start = self.pos();
        let mut left = lhs;
        loop
            invariant
                old(self).advanced(self),
                buf == old(self).source(),
                start == old(self).pos(),
                self.pos() == start ==> self.stream.after_line == old(self).stream.after_line,
                self.pos() != start ==> !self.stream.after_line && lex(buf, start).kind == TokenKind::Plus,
                parse_tail(buf, start, lhs.model()) == parse_tail(buf, self.pos(), left.model()),
            decreases self.stream.len - self.stream.index,
        {
            let at = self.stream.index;
            let t = self.stream.peek();
            if t.kind != TokenKind::Plus {
                return Ok(left);
            }
            proof {
                lemma_lex_bounds(buf, at as int);
            }
            self.stream.next();
            let right = match self.unary() {
                Ok(e) => e,
                Err(error) => return Err(error),
            };
            left = Expr::new(left, right);
        }
    }

    /// Parses a negation, or a `prefix`.
    pub fn unary(&mut self) -> (r: Result<Expr<'a>, SyntaxError<'a>>)
        requires
            old(self).wf(),
        ensures
            old(self).advanced(final(self)),
            yields(r, parse_unary(old(self).source(), old(self).pos(), old(self).stream.after_line), final(self).pos()),
            !final(self).stream.after_line,
        decreases old(self).stream.len - old(self).stream.index, 3int,
    {
        let ghost buf = self.source();
        proof {
            lemma_lex_bounds(buf, self.pos());
        }
        let peek = self.stream.peek();
        if peek.kind == TokenKind::Minus {
            self.stream.next();
            return match self.literal() {
                Ok(e) => Ok(Expr::expr(ExprKind::UnaryNegate, e)),
                Err(error) => Err(error),
            };
        }
        self.prefix()
    }

    /// Parses a prefix increment or decrement, or a `postfix`.
    pub fn prefix(&mut self) -> (r: Result<Expr<'a>, SyntaxError<'a>>)
        requires
            old(self).wf(),
        ensures
            old(self).advanced(final(self)),
            yields(r, parse_prefix(old(self).source(), old(self).pos(), old(self).stream.after_line), final(self).pos()),
            !final(self).stream.after_line,
        decreases old(self).stream.len - old(self).stream.index, 2int,
    {
        let ghost buf = self.source();
        proof {
            lemma_lex_bounds(buf, self.pos());
        }
        let peek = self.stream.peek();
        if peek.kind == TokenKind::Increment || peek.kind == TokenKind::Decrement {
            self.stream.next();
            let kind = if peek.kind == TokenKind::Increment {
                ExprKind::PreIncrement
            } else {
                ExprKind::PreDecrement
            };
            let target = match self.literal() {
                Ok(e) => e,
                Err(error) => return Err(error),
            };
            proof {
                lemma_lex_bounds(buf, self.pos());
            }
            let next = self.stream.peek();
            if next.kind == TokenKind::Increment || next.kind == TokenKind::Decrement {
                let mut error = SyntaxError::new(ErrorKind::InvalidSyntax, next, "Invalid syntax.");
                error.hints.push(Hint::new(HintKind::Remove, vec![next], "remove operator".to_owned()));
                self.stream.next();
                return Err(error);
            }
            return Ok(Expr::expr(kind, target));
        }
        self.postfix()
    }

    /// Parses a `literal` and the increment or decrement that may follow it.
    pub fn postfix(&mut self) -> (r: Result<Expr<'a>, SyntaxError<'a>>)
        requires
            old(self).wf(),
        ensures
            old(self).advanced(final(self)),
            yields(r, parse_postfix(old(self).source(), old(self).pos(), old(self).stream.after_line), final(self).pos()),
            !final(self).stream.after_line,
        decreases old(self).stream.len - old(self).stream.index, 1int,
    {
        let ghost buf = self.source();
        let expr = match self.literal() {
            Ok(e) => e,
            Err(error) => return Err(error),
        };
        proof {
            lemma_lex_bounds(buf, self.pos());
        }
        let peek = self.stream.peek();
        if peek.kind == TokenKind::Increment || peek.kind == TokenKind::Decrement {
            self.stream.next();
            let kind = if peek.kind == TokenKind::Increment {
                ExprKind::PostIncrement
            } else {
                ExprKind::PostDecrement
            };
            return Ok(Expr::expr(kind, expr));
        }
        Ok(expr)
    }

    /// Parses a parenthesised group, or takes the next token as a leaf.
    pub fn literal(&mut self) -> (r: Result<Expr<'a>, SyntaxError<'a>>)
        requires
            old(self).wf(),
        ensures
            old(self).advanced(final(self)),
            yields(r, parse_literal(old(self).source(), old(self).pos(), old(self).stream.after_line), final(self).pos()),
            !final(self).stream.after_line,
        decreases old(self).stream.len - old(self).stream.index, 0int,
    {
        let ghost buf = self.source();
        proof {
            lemma_lex_bounds(buf, self.pos());
        }
        let next = self.stream.next();
        if next.kind == TokenKind::LParen {
            let expr = match self.expr() {
                Ok(e) => e,
                Err(error) => return Err(error),
            };
            proof {
                lemma_lex_bounds(buf, self.pos());
            }
            if self.stream.next().kind != TokenKind::RParen {
                let last = Expr::last_token(&expr);
                let mut error = SyntaxError::new(
                    ErrorKind::UnclosedParen,
                    last,
                    "Unclosed parenthesis after expression.",
                );
                error.hints.push(Hint::new(HintKind::Add, vec![last], "add ) after expression".to_owned()));
                return Err(error);
            }
            return Ok(Expr::group(expr));
        }
        Ok(Expr::value(next))
    }
}

} // verus!

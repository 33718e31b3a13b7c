//! Syntax errors and the fix-it hints they carry.
use vstd::prelude::*;
use crate::tokenizer::{Token, TokenView};

verus! {

#[derive(Debug, Clone, Copy, PartialEq, Eq, Structural)]
pub enum HintKind {
    /// Suggests inserting text.
    Add,
    /// Suggests deleting the targeted tokens.
    Remove,
}

/// A suggested edit, anchored to one or more tokens.
#[derive(Debug, Clone)]
pub struct Hint<'a> {
    pub kind: HintKind,
    pub targets: Vec<Token<'a>>,
    pub column: u32,
    pub help: String,
}

impl<'a> Hint<'a> {
    pub fn new(kind: HintKind, targets: Vec<Token<'a>>, help: String) -> (r: Hint<'a>)
        requires
            targets@.len() > 0,
        ensures
            r.kind == kind,
            r.targets@ == targets@,
            r.column == targets@[0].column,
            r.help@ == help@,
    {
        let column = targets[0].column;
        Hint { kind, targets, column, help }
    }

    /// For a hint on one token, the column just past that token; 0 otherwise.
    pub fn end(&self) -> (r: u32)
        requires
            self.targets@.len() == 1 ==> self.targets@[0].column + self.targets@[0].value@.len() <= u32::MAX,
        ensures
            self.targets@.len() == 1 ==> r == self.targets@[0].column + self.targets@[0].value@.len(),
            self.targets@.len() != 1 ==> r == 0,
    {
        if self.targets.len() == 1 {
            return self.targets[0].column + self.targets[0].value.len() as u32;
        }
        0
    }
}

/// What went wrong, for callers that branch on it.
#[derive(Debug, Clone, Copy, PartialEq, Eq, Structural)]
pub enum ErrorKind {
    /// A prefixed operand also carries a postfix operator.
    InvalidSyntax,
    /// A parenthesised expression is not followed by `)`.
    UnclosedParen,
}

/// The hint that goes with each kind of error.
pub open spec fn hint_for(kind: ErrorKind) -> HintKind {
    match kind {
        ErrorKind::InvalidSyntax => HintKind::Remove,
        ErrorKind::UnclosedParen => HintKind::Add,
    }
}

/// The message of each kind of error.
pub open spec fn message_of(kind: ErrorKind) -> Seq<char> {
    match kind {
        ErrorKind::InvalidSyntax => "Invalid syntax."@,
        ErrorKind::UnclosedParen => "Unclosed parenthesis after expression."@,
    }
}

/// The help text of the hint of each kind of error.
pub open spec fn help_of(kind: ErrorKind) -> Seq<char> {
    match kind {
        ErrorKind::InvalidSyntax => "remove operator"@,
        ErrorKind::UnclosedParen => "add ) after expression"@,
    }
}

#[derive(Debug)]
pub struct SyntaxError<'a> {
    pub kind: ErrorKind,
    pub subject: Token<'a>,
    pub message: &'a str,
    pub hints: Vec<Hint<'a>>,
}

impl<'a> SyntaxError<'a> {
    pub fn new(kind: ErrorKind, subject: Token<'a>, message: &'a str) -> (r: SyntaxError<'a>)
        ensures
            r.kind == kind,
            r.subject == subject,
            r.message@ == message@,
            r.hints@.len() == 0,
    {
        SyntaxError { kind, subject, message, hints: Vec::new() }
    }

    /// The error is of kind `kind` at token `at`, with the one hint of its
    /// kind, which targets `at` alone, with the message and help text of that
    /// kind.
    pub open spec fn describes(&self, kind: ErrorKind, at: TokenView) -> bool {
        &&& self.kind == kind
        &&& self.message@ == message_of(kind)
        &&& self.subject@ == at
        &&& self.hints@.len() == 1
        &&& self.hints@[0].kind == hint_for(kind)
        &&& self.hints@[0].targets@.len() == 1
        &&& self.hints@[0].targets@[0]@ == at
        &&& self.hints@[0].column == at.column
        &&& self.hints@[0].help@ == help_of(kind)
    }
}

} // verus!

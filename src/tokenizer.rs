//! The scanner: a pull-based cursor over a borrowed byte buffer.
use vstd::prelude::*;
use crate::text::{bytes_text, lossy_string, text_of, utf8_lossy};

verus! {

/// The kinds of token. Only some of them are produced by the scanner; the
/// others are reserved for later extensions of the language.
#[derive(Debug, Clone, Copy, PartialEq, Eq, Structural)]
pub enum TokenKind {
    Eof,
    String,
    NonTerminatedString,
    HexLit,
    BinLit,
    NumLit,
    InvalidNonTerminatedComment,
    InvalidNewlineString,
    LParen,
    RParen,
    LBrace,
    RBrace,
    LAngle,
    RAngle,
    Bang,
    Caret,
    Asterisk,
    Amp,
    And,
    Pipe,
    Or,
    Plus,
    Increment,
    AddAssign,
    Minus,
    Decrement,
    SubAssign,
    Div,
    DivAssign,
    Equal,
    EqualEqual,
    EqualEqualEqual,
    LessOrEqual,
    GreaterOrEqual,
    FatArrow,
    Ident,
}

pub const SPACE: u8 = 32;
pub const CR: u8 = 13;
pub const TAB: u8 = 9;
pub const NEWLINE: u8 = 10;
pub const PLUS: u8 = 43;
pub const MINUS: u8 = 45;
pub const LPAREN: u8 = 40;
pub const RPAREN: u8 = 41;
pub const DQUOTE: u8 = 34;
pub const SQUOTE: u8 = 39;
pub const ZERO: u8 = 48;
pub const NINE: u8 = 57;
pub const LOWER_A: u8 = 97;
pub const LOWER_Z: u8 = 122;
pub const UPPER_A: u8 = 65;
pub const UPPER_Z: u8 = 90;

// ---------------------------------------------------------------------------
// The lexical rules, stated over the source bytes.

pub open spec fn is_space(b: u8) -> bool {
    b == SPACE || b == CR || b == TAB || b == NEWLINE
}

pub open spec fn is_digit(b: u8) -> bool {
    ZERO <= b <= NINE
}

pub open spec fn is_alpha(b: u8) -> bool {
    (LOWER_A <= b <= LOWER_Z) || (UPPER_A <= b <= UPPER_Z)
}

pub open spec fn is_alnum(b: u8) -> bool {
    is_digit(b) || is_alpha(b)
}

/// The first offset at or after `i` that does not hold whitespace.
pub open spec fn skip_space(buf: Seq<u8>, i: int) -> int
    decreases buf.len() - i,
{
    if 0 <= i < buf.len() && is_space(buf[i]) {
        skip_space(buf, i + 1)
    } else {
        i
    }
}

/// The end of the run of digits that starts at `i`.
pub open spec fn digits_end(buf: Seq<u8>, i: int) -> int
    decreases buf.len() - i,
{
    if 0 <= i < buf.len() && is_digit(buf[i]) {
        digits_end(buf, i + 1)
    } else {
        i
    }
}

/// The end of the run of letters and digits that starts at `i`.
pub open spec fn word_end(buf: Seq<u8>, i: int) -> int
    decreases buf.len() - i,
{
    if 0 <= i < buf.len() && is_alnum(buf[i]) {
        word_end(buf, i + 1)
    } else {
        i
    }
}

/// The first offset at or after `i` that holds the quote `q`, or the length
/// of the buffer if there is none.
pub open spec fn quote_end(buf: Seq<u8>, i: int, q: u8) -> int
    decreases buf.len() - i,
{
    if 0 <= i < buf.len() && buf[i] != q {
        quote_end(buf, i + 1, q)
    } else {
        i
    }
}

/// Whether a line break lies in `buf[i..j]`.
pub open spec fn newline_between(buf: Seq<u8>, i: int, j: int) -> bool
    decreases j - i,
{
    if j <= i {
        false
    } else {
        buf[j - 1] == NEWLINE || newline_between(buf, i, j - 1)
    }
}

/// The line, counted from 1, on which offset `i` lies: one more than the
/// number of line breaks before it.
pub open spec fn line_at(buf: Seq<u8>, i: int) -> int
    decreases i,
{
    if i <= 0 {
        1
    } else if buf[i - 1] == NEWLINE {
        line_at(buf, i - 1) + 1
    } else {
        line_at(buf, i - 1)
    }
}

/// The column, counted from 1, at which offset `i` lies: it starts again at 1
/// right after each line break.
pub open spec fn column_at(buf: Seq<u8>, i: int) -> int
    decreases i,
{
    if i <= 0 {
        1
    } else if buf[i - 1] == NEWLINE {
        1
    } else {
        column_at(buf, i - 1) + 1
    }
}

/// One scanning step: the kind of the token, where its value starts and ends,
/// and where the cursor stands after it.
pub struct Lexeme {
    pub kind: TokenKind,
    pub start: int,
    pub end: int,
    pub next: int,
}

pub open spec fn lexeme(kind: TokenKind, start: int, end: int) -> Lexeme {
    Lexeme { kind, start, end, next: end }
}

/// The token that scanning from offset `i` produces.
pub open spec fn lex(buf: Seq<u8>, i: int) -> Lexeme {
    let s = skip_space(buf, i);
    if s >= buf.len() {
        lexeme(TokenKind::Eof, s, s)
    } else {
        let c = buf[s];
        if c == PLUS {
            if s + 1 < buf.len() && buf[s + 1] == PLUS {
                lexeme(TokenKind::Increment, s, s + 2)
            } else {
                lexeme(TokenKind::Plus, s, s + 1)
            }
        } else if c == MINUS {
            if s + 1 < buf.len() && buf[s + 1] == MINUS {
                lexeme(TokenKind::Decrement, s, s + 2)
            } else {
                lexeme(TokenKind::Minus, s, s + 1)
            }
        } else if c == LPAREN {
            lexeme(TokenKind::LParen, s, s + 1)
        } else if c == RPAREN {
            lexeme(TokenKind::RParen, s, s + 1)
        } else if c == DQUOTE || c == SQUOTE {
            let q = quote_end(buf, s + 1, c);
            if q < buf.len() {
                Lexeme { kind: TokenKind::String, start: s + 1, end: q, next: q + 1 }
            } else {
                lexeme(TokenKind::NonTerminatedString, s + 1, q)
            }
        } else if is_digit(c) {
            lexeme(TokenKind::NumLit, s, digits_end(buf, s + 1))
        } else if is_alpha(c) {
            lexeme(TokenKind::Ident, s, word_end(buf, s + 1))
        } else {
            lexeme(TokenKind::Ident, s, s + 1)
        }
    }
}

pub open spec fn is_quoted(kind: TokenKind) -> bool {
    kind == TokenKind::String || kind == TokenKind::NonTerminatedString
}

/// A token as a value.
pub struct TokenView {
    pub kind: TokenKind,
    pub index: int,
    pub end_index: int,
    pub line: int,
    pub column: int,
    pub value: Seq<u8>,
    pub after_line: bool,
}

/// The token that scanning from offset `i` produces, with the position of its
/// start offset. `pending` tells whether a line break was skipped before `i`
/// since the last token.
pub open spec fn token_at(buf: Seq<u8>, i: int, pending: bool) -> TokenView {
    let x = lex(buf, i);
    TokenView {
        kind: x.kind,
        index: x.start,
        end_index: x.end,
        line: line_at(buf, x.start),
        column: column_at(buf, x.start),
        value: buf.subrange(x.start, x.end),
        after_line: pending || newline_between(buf, i, skip_space(buf, i)),
    }
}

/// The first offset of the line on which offset `i` lies.
pub open spec fn line_start(buf: Seq<u8>, i: int) -> int
    decreases i,
{
    if i <= 0 {
        0
    } else if buf[i - 1] == NEWLINE {
        i
    } else {
        line_start(buf, i - 1)
    }
}

/// The end of the line on which offset `i` lies, its line break excluded.
pub open spec fn line_end(buf: Seq<u8>, i: int) -> int
    decreases buf.len() - i,
{
    if 0 <= i < buf.len() && buf[i] != NEWLINE {
        line_end(buf, i + 1)
    } else {
        i
    }
}

/// The text of the line on which offset `i` lies.
pub open spec fn line_text(buf: Seq<u8>, i: int) -> Seq<char> {
    bytes_text(buf.subrange(line_start(buf, i), line_end(buf, i)))
}

pub proof fn lemma_position_bounds(buf: Seq<u8>, i: int)
    requires
        0 <= i <= buf.len(),
    ensures
        1 <= line_at(buf, i) <= i + 1,
        1 <= column_at(buf, i) <= i + 1,
    decreases i,
{
    if i > 0 {
        lemma_position_bounds(buf, i - 1);
    }
}


proof fn lemma_skip_space_bounds(buf: Seq<u8>, i: int)
    requires
        0 <= i <= buf.len(),
    ensures
        i <= skip_space(buf, i) <= buf.len(),
    decreases buf.len() - i,
{
    if i < buf.len() && is_space(buf[i]) {
        lemma_skip_space_bounds(buf, i + 1);
    }
}

proof fn lemma_digits_end_bounds(buf: Seq<u8>, i: int)
    requires
        0 <= i <= buf.len(),
    ensures
        i <= digits_end(buf, i) <= buf.len(),
    decreases buf.len() - i,
{
    if i < buf.len() && is_digit(buf[i]) {
        lemma_digits_end_bounds(buf, i + 1);
    }
}

proof fn lemma_word_end_bounds(buf: Seq<u8>, i: int)
    requires
        0 <= i <= buf.len(),
    ensures
        i <= word_end(buf, i) <= buf.len(),
    decreases buf.len() - i,
{
    if i < buf.len() && is_alnum(buf[i]) {
        lemma_word_end_bounds(buf, i + 1);
    }
}

proof fn lemma_quote_end_bounds(buf: Seq<u8>, i: int, q: u8)
    requires
        0 <= i <= buf.len(),
    ensures
        i <= quote_end(buf, i, q) <= buf.len(),
        quote_end(buf, i, q) < buf.len() ==> buf[quote_end(buf, i, q)] == q,
    decreases buf.len() - i,
{
    if i < buf.len() && buf[i] != q {
        lemma_quote_end_bounds(buf, i + 1, q);
    }
}

/// A scanning step stays inside the buffer, and every token but the end of
/// input moves the cursor forward.
pub proof fn lemma_lex_bounds(buf: Seq<u8>, i: int)
    requires
        0 <= i <= buf.len(),
    ensures
        i <= skip_space(buf, i) <= lex(buf, i).start,
        lex(buf, i).start <= lex(buf, i).end <= lex(buf, i).next <= buf.len(),
        lex(buf, i).kind != TokenKind::Eof ==> i < lex(buf, i).next,
        lex(buf, i).kind == TokenKind::Eof ==> lex(buf, i).next == buf.len(),
        lex(buf, i).kind == TokenKind::Eof ==> skip_space(buf, i) == buf.len(),
        !is_quoted(lex(buf, i).kind) ==> lex(buf, i).end == lex(buf, i).next,
        lex(buf, i).kind != TokenKind::Eof ==> skip_space(buf, i) < buf.len(),
{
    lemma_skip_space_bounds(buf, i);
    let s = skip_space(buf, i);
    if s < buf.len() {
        lemma_digits_end_bounds(buf, s + 1);
        lemma_word_end_bounds(buf, s + 1);
        lemma_quote_end_bounds(buf, s + 1, buf[s]);
    }
}


/// The source rebuilt from the scan that starts at offset `i`: each skipped
/// run of whitespace followed by the span of the token after it, up to the end
/// of input.
pub open spec fn rebuilt(buf: Seq<u8>, i: int) -> Seq<u8>
    decreases buf.len() - i,
{
    let t = token_at(buf, i, false);
    let n = lex(buf, i).next;
    let piece = buf.subrange(i, skip_space(buf, i)) + buf.subrange(t.index, t.end_index);
    if t.kind != TokenKind::Eof && i < n <= buf.len() {
        piece + rebuilt(buf, n)
    } else {
        piece
    }
}

/// Scanning loses no byte: the whitespace runs and the token spans, in order,
/// give back the source. Quoted literals are left out, since a token's span
/// holds the text between the quotes and not the quotes themselves.
pub proof fn lemma_round_trip(buf: Seq<u8>, i: int)
    requires
        0 <= i <= buf.len(),
        forall|k: int| i <= k < buf.len() ==> buf[k] != DQUOTE && buf[k] != SQUOTE,
    ensures
        rebuilt(buf, i) == buf.subrange(i, buf.len() as int),
    decreases buf.len() - i,
{
    lemma_lex_bounds(buf, i);
    let x = lex(buf, i);
    let s = skip_space(buf, i);
    if s < buf.len() {
        assert(buf[s] != DQUOTE && buf[s] != SQUOTE);
    }
    if x.kind != TokenKind::Eof {
        lemma_round_trip(buf, x.next);
    }
    assert(rebuilt(buf, i) =~= buf.subrange(i, buf.len() as int));
}

/// The column of an offset is its distance from the start of its line, plus
/// one.
pub proof fn lemma_column_from_line_start(buf: Seq<u8>, i: int)
    requires
        0 <= i <= buf.len(),
    ensures
        column_at(buf, i) == i - line_start(buf, i) + 1,
        0 <= line_start(buf, i) <= i,
        line_start(buf, i) > 0 ==> buf[line_start(buf, i) - 1] == NEWLINE,
        forall|k: int| line_start(buf, i) <= k < i ==> buf[k] != NEWLINE,
    decreases i,
{
    if i > 0 {
        lemma_column_from_line_start(buf, i - 1);
    }
}

/// Every token reports the line and the column of the byte at its start
/// offset, lines and columns counted from 1. The column is the distance from
/// the last line break before that offset, plus one.
pub proof fn lemma_token_position(buf: Seq<u8>, i: int, pending: bool)
    requires
        0 <= i <= buf.len(),
    ensures
        ({
            let t = token_at(buf, i, pending);
            &&& t.line == line_at(buf, t.index)
            &&& t.column == column_at(buf, t.index)
            &&& t.column == t.index - line_start(buf, t.index) + 1
            &&& forall|k: int| line_start(buf, t.index) <= k < t.index ==> buf[k] != NEWLINE
        }),
{
    lemma_lex_bounds(buf, i);
    lemma_column_from_line_start(buf, token_at(buf, i, pending).index);
}

// ---------------------------------------------------------------------------
// Tokens.

#[derive(Debug, Clone, Copy)]
pub struct Token<'a> {
    pub index: u32,
    pub end_index: u32,
    pub kind: TokenKind,
    pub line: u32,
    pub column: u32,
    pub value: &'a [u8],
    /// Whether a line break came between this token and the one before.
    pub after_line: bool,
}

impl<'a> View for Token<'a> {
    type V = TokenView;

    open spec fn view(&self) -> TokenView {
        TokenView {
            kind: self.kind,
            index: self.index as int,
            end_index: self.end_index as int,
            line: self.line as int,
            column: self.column as int,
            value: self.value@,
            after_line: self.after_line,
        }
    }
}

impl<'a> Token<'a> {
    pub fn new(kind: TokenKind, index: u32, line: u32, column: u32, value: &'a [u8], after_line: bool) -> (r: Token<'a>)
        requires
            index + value@.len() <= u32::MAX,
        ensures
            r.kind == kind,
            r.index == index,
            r.end_index == index + value@.len(),
            r.line == line,
            r.column == column,
            r.value == value,
            r.after_line == after_line,
    {
        Token { index, end_index: index + value.len() as u32, kind, value, line, column, after_line }
    }

    /// The value as text; invalid UTF-8 is replaced.
    pub fn to_string(&self) -> (r: String)
        ensures
            r@ == utf8_lossy(self.value@),
            (forall|k: int| 0 <= k < self.value@.len() ==> self.value@[k] < 128) ==> r@ == bytes_text(self.value@),
    {
        lossy_string(self.value)
    }
}

// ---------------------------------------------------------------------------
// The scanner.

pub struct TokenStream<'a> {
    pub buffer: &'a [u8],
    pub index: u32,
    pub line: u32,
    pub column: u32,
    pub len: u32,
    /// Set when a line break was skipped since the last token.
    pub after_line: bool,
}

impl<'a> TokenStream<'a> {
    /// The cursor stands inside the buffer, and its line and column are those
    /// of its offset.
    pub open spec fn wf(&self) -> bool {
        &&& self.len as int == self.buffer@.len()
        &&& self.len < u32::MAX
        &&& self.index <= self.len
        &&& self.line as int == line_at(self.buffer@, self.index as int)
        &&& self.column as int == column_at(self.buffer@, self.index as int)
    }

    pub open spec fn source(&self) -> Seq<u8> {
        self.buffer@
    }

    /// Whether the stream is well formed: its cursor inside the buffer, with
    /// the line and column of its offset.
    pub fn is_consistent(&self) -> (r: bool)
        ensures
            r == self.wf(),
    {
        if self.len as usize != self.buffer.len() || self.len == u32::MAX || self.index > self.len {
            return false;
        }
        let mut k: u32 = 0;
        let mut line: u32 = 1;
        let mut column: u32 = 1;
        while k < self.index
            invariant
                k <= self.index <= self.len < u32::MAX,
                self.len as int == self.buffer@.len(),
                line as int == line_at(self.buffer@, k as int),
                column as int == column_at(self.buffer@, k as int),
            decreases self.index - k,
        {
            proof {
                lemma_position_bounds(self.buffer@, k as int);
            }
            if self.buffer[k as usize] == NEWLINE {
                line = line + 1;
                column = 1;
            } else {
                column = column + 1;
            }
            k = k + 1;
        }
        line == self.line && column == self.column
    }

    pub fn new(buffer: &'a [u8]) -> (r: Self)
        requires
            buffer@.len() < u32::MAX,
        ensures
            r.wf(),
            r.buffer == buffer,
            r.index == 0,
            !r.after_line,
    {
        TokenStream { buffer, index: 0, line: 1, column: 1, len: buffer.len() as u32, after_line: false }
    }

    /// The text of the source line on which `token` starts.
    pub fn line(&self, token: Token) -> (r: String)
        requires
            self.wf(),
            token.index <= self.len,
        ensures
            r@ == line_text(self.buffer@, token.index as int),
    {
        self.line_of(token.index)
    }

    /// The text of the source line on which the cursor stands.
    pub fn current_line(&self) -> (r: String)
        requires
            self.wf(),
        ensures
            r@ == line_text(self.buffer@, self.index as int),
    {
        self.line_of(self.index)
    }

    fn line_of(&self, at: u32) -> (r: String)
        requires
            self.wf(),
            at <= self.len,
        ensures
            r@ == line_text(self.buffer@, at as int),
    {
        let buf = self.buffer;
        let mut start: u32 = at;
        while start > 0 && buf[start as usize - 1] != NEWLINE
            invariant
                start <= at <= self.len,
                self.wf(),
                buf == self.buffer,
                line_start(buf@, start as int) == line_start(buf@, at as int),
            decreases start,
        {
            start = start - 1;
        }
        let mut end: u32 = at;
        while end < self.len && buf[end as usize] != NEWLINE
            invariant
                at <= end <= self.len,
                self.wf(),
                buf == self.buffer,
                line_end(buf@, end as int) == line_end(buf@, at as int),
            decreases self.len - end,
        {
            end = end + 1;
        }
        text_of(buf, start as usize, end as usize)
    }

    /// The next token, with the cursor left where it was.
    pub fn peek(&mut self) -> (r: Token<'a>)
        requires
            old(self).wf(),
        ensures
            *final(self) == *old(self),
            r@ == token_at(old(self).buffer@, old(self).index as int, old(self).after_line),
    {
        let index = self.index;
        let line = self.line;
        let column = self.column;
        let after_line = self.after_line;
        let token = self.next();
        self.index = index;
        self.line = line;
        self.column = column;
        self.after_line = after_line;
        token
    }

    /// Consumes one byte and returns it, or returns 0 at the end of input.
    pub fn get(&mut self) -> (r: u8)
        requires
            old(self).wf(),
        ensures
            final(self).wf(),
            final(self).buffer == old(self).buffer,
            final(self).len == old(self).len,
            final(self).after_line == old(self).after_line,
            old(self).index < old(self).len ==> r == old(self).buffer@[old(self).index as int]
                && final(self).index == old(self).index + 1,
            old(self).index >= old(self).len ==> r == 0 && *final(self) == *old(self),
    {
        if self.index >= self.len {
            return 0;
        }
        proof {
            lemma_position_bounds(self.buffer@, self.index as int);
        }
        let c = self.buffer[self.index as usize];
        if c == NEWLINE {
            self.column = 1;
            self.line = self.line + 1;
        } else {
            self.column = self.column + 1;
        }
        self.index = self.index + 1;
        c
    }

    /// The byte under the cursor, or 0 at the end of input.
    pub fn peekc(&self) -> (r: u8)
        requires
            self.wf(),
        ensures
            self.index < self.len ==> r == self.buffer@[self.index as int],
            self.index >= self.len ==> r == 0,
    {
        if self.index >= self.len {
            return 0;
        }
        self.buffer[self.index as usize]
    }

    /// Consumes spaces, tabs, carriage returns and line breaks, and records a
    /// line break in `after_line`.
    pub fn skip_whitespace(&mut self)
        requires
            old(self).wf(),
        ensures
            final(self).wf(),
            final(self).buffer == old(self).buffer,
            final(self).len == old(self).len,
            final(self).index == skip_space(old(self).buffer@, old(self).index as int),
            final(self).after_line == (old(self).after_line || newline_between(
                old(self).buffer@,
                old(self).index as int,
                final(self).index as int,
            )),
    {
        let ghost start = self.index as int;
        let ghost flag = self.after_line;
        loop
            invariant
                self.wf(),
                self.buffer == old(self).buffer,
                self.len == old(self).len,
                start <= self.index,
                skip_space(self.buffer@, self.index as int) == skip_space(self.buffer@, start),
                self.after_line == (flag || newline_between(self.buffer@, start, self.index as int)),
            ensures
                self.wf(),
                self.buffer == old(self).buffer,
                self.len == old(self).len,
                self.index == skip_space(self.buffer@, start),
                self.after_line == (flag || newline_between(self.buffer@, start, self.index as int)),
            decreases self.len - self.index,
        {
            let c = self.peekc();
            if self.index < self.len && (c == SPACE || c == CR || c == TAB) {
                self.get();
            } else if self.index < self.len && c == NEWLINE {
                self.after_line = true;
                self.get();
            } else {
                break;
            }
        }
    }

    fn take(&self, start: u32, end: u32, kind: TokenKind, line: u32, column: u32, after_line: bool) -> (r: Token<'a>)
        requires
            self.wf(),
            start <= end <= self.len,
        ensures
            r.kind == kind,
            r.index == start,
            r.end_index == end,
            r.line == line,
            r.column == column,
            r.value@ == self.buffer@.subrange(start as int, end as int),
            r.after_line == after_line,
    {
        let buf: &'a [u8] = self.buffer;
        Token::new(kind, start, line, column, &buf[start as usize..end as usize], after_line)
    }

    /// Consumes the whitespace and the token that follow the cursor, and
    /// returns the token.
    pub fn next(&mut self) -> (r: Token<'a>)
        requires
            old(self).wf(),
        ensures
            final(self).wf(),
            final(self).buffer == old(self).buffer,
            final(self).len == old(self).len,
            final(self).index == lex(old(self).buffer@, old(self).index as int).next,
            !final(self).after_line,
            r@ == token_at(old(self).buffer@, old(self).index as int, old(self).after_line),
    {
        self.skip_whitespace();
        let start = self.index;
        let line = self.line;
        let column = self.column;
        let after_line = self.after_line;
        self.after_line = false;
        if self.index >= self.len {
            return self.take(start, start, TokenKind::Eof, line, column, after_line);
        }
        let c = self.peekc();
        if c == PLUS || c == MINUS {
            self.get();
            let twice = self.peekc() == c && self.index < self.len;
            if twice {
                self.get();
            }
            let kind = if c == PLUS {
                if twice { TokenKind::Increment } else { TokenKind::Plus }
            } else {
                if twice { TokenKind::Decrement } else { TokenKind::Minus }
            };
            return self.take(start, self.index, kind, line, column, after_line);
        }
        if c == LPAREN || c == RPAREN {
            self.get();
            let kind = if c == LPAREN { TokenKind::LParen } else { TokenKind::RParen };
            return self.take(start, self.index, kind, line, column, after_line);
        }
        if c == DQUOTE || c == SQUOTE {
            self.get();
            let first = self.index;
            let line = self.line;
            let column = self.column;
            while self.index < self.len && self.peekc() != c
                invariant
                    self.wf(),
                    self.buffer == old(self).buffer,
                    self.len == old(self).len,
                    !self.after_line,
                    first <= self.index,
                    quote_end(self.buffer@, self.index as int, c) == quote_end(self.buffer@, first as int, c),
                decreases self.len - self.index,
            {
                self.get();
            }
            if self.index < self.len {
                let end = self.index;
                self.get();
                return self.take(first, end, TokenKind::String, line, column, after_line);
            }
            return self.take(first, self.index, TokenKind::NonTerminatedString, line, column, after_line);
        }
        if ZERO <= c && c <= NINE {
            self.get();
            while self.index < self.len && ZERO <= self.peekc() && self.peekc() <= NINE
                invariant
                    self.wf(),
                    self.buffer == old(self).buffer,
                    self.len == old(self).len,
                    !self.after_line,
                    start < self.index,
                    digits_end(self.buffer@, self.index as int) == digits_end(self.buffer@, start + 1),
                decreases self.len - self.index,
            {
                self.get();
            }
            return self.take(start, self.index, TokenKind::NumLit, line, column, after_line);
        }
        self.get();
        if (LOWER_A <= c && c <= LOWER_Z) || (UPPER_A <= c && c <= UPPER_Z) {
            while self.index < self.len && is_alnum_byte(self.peekc())
                invariant
                    self.wf(),
                    self.buffer == old(self).buffer,
                    self.len == old(self).len,
                    !self.after_line,
                    start < self.index,
                    word_end(self.buffer@, self.index as int) == word_end(self.buffer@, start + 1),
                decreases self.len - self.index,
            {
                self.get();
            }
        }
        self.take(start, self.index, TokenKind::Ident, line, column, after_line)
    }
}

fn is_alnum_byte(b: u8) -> (r: bool)
    ensures
        r == is_alnum(b),
{
    (ZERO <= b && b <= NINE) || (LOWER_A <= b && b <= LOWER_Z) || (UPPER_A <= b && b <= UPPER_Z)
}

} // verus!

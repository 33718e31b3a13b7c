//! Diagnostics as text: each rendered line carries a styling role, which a
//! front end resolves to colours or leaves plain.
use vstd::prelude::*;
use crate::diagnostics::{Hint, HintKind, SyntaxError};
use vstd::string::StringExecFns;
use crate::text::{decimal, push_char, push_decimal, push_repeat, repeat};
use crate::tokenizer::{line_text, Token, TokenStream};

verus! {

/// The role of a rendered line.
#[derive(Debug, Clone, Copy, PartialEq, Eq, Structural)]
pub enum Style {
    Plain,
    SuggestAdd,
    SuggestRemove,
    Location,
    Help,
}

/// The role of the marker of a hint of kind `kind`.
pub open spec fn style_of(kind: HintKind) -> Style {
    match kind {
        HintKind::Add => Style::SuggestAdd,
        HintKind::Remove => Style::SuggestRemove,
    }
}

fn style_for(kind: HintKind) -> (r: Style)
    ensures
        r == style_of(kind),
{
    match kind {
        HintKind::Add => Style::SuggestAdd,
        HintKind::Remove => Style::SuggestRemove,
    }
}

/// One line of rendered text.
#[derive(Debug)]
pub struct Styled {
    pub style: Style,
    pub text: String,
}

/// The lines `r` hold exactly the roles and texts of `want`, in order.
pub open spec fn lines_are(r: Seq<Styled>, want: Seq<(Style, Seq<char>)>) -> bool {
    &&& r.len() == want.len()
    &&& forall|k: int| 0 <= k < r.len() ==> r[k].style == want[k].0 && #[trigger] r[k].text@ == want[k].1
}

/// A caret at column `from`, then one `~` for each column after it up to `to`.
pub open spec fn marker(from: int, to: int) -> Seq<char> {
    repeat(' ', from - 1).push('^') + repeat('~', to - from)
}

/// One `~` for each byte of a token but its first.
pub open spec fn tail_marks(t: Token) -> Seq<char> {
    repeat('~', t.end_index - t.index - 1)
}

/// The marks of all targets from the `n`-th on.
pub open spec fn marks_of(targets: Seq<Token>, n: int) -> Seq<char>
    decreases targets.len() - n,
{
    if 0 <= n < targets.len() {
        tail_marks(targets[n]) + marks_of(targets, n + 1)
    } else {
        Seq::empty()
    }
}

/// The `line:column:` locator of a token.
pub open spec fn locator(t: Token) -> Seq<char> {
    decimal(t.line as nat).push(':') + decimal(t.column as nat).push(':')
}

fn styled(style: Style, text: String) -> (r: Styled)
    ensures
        r.style == style,
        r.text@ == text@,
{
    Styled { style, text }
}

fn copy_text(s: &String) -> (r: String)
    ensures
        r@ == s@,
{
    let mut out = String::new();
    out.append(s.as_str());
    out
}

fn marker_text(from: u32, to: u32) -> (r: String)
    ensures
        r@ == marker(from as int, to as int),
{
    let mut out = String::new();
    let spaces = if from > 0 { from - 1 } else { 0 };
    let tildes = if to > from { to - from } else { 0 };
    push_repeat(&mut out, ' ', spaces);
    push_char(&mut out, '^');
    push_repeat(&mut out, '~', tildes);
    proof {
        assert(repeat(' ', from - 1) =~= repeat(' ', if from > 0 { (from - 1) as int } else { 0 }));
        assert(repeat('~', to - from) =~= repeat('~', if to > from { (to - from) as int } else { 0 }));
    }
    out
}

fn push_tail_marks(s: &mut String, t: &Token)
    ensures
        final(s)@ == old(s)@ + tail_marks(*t),
{
    let n = if t.end_index > t.index { t.end_index - t.index - 1 } else { 0 };
    push_repeat(s, '~', n);
    assert(repeat('~', n as int) =~= repeat('~', t.end_index - t.index - 1));
}

impl<'a> Hint<'a> {
    pub open spec fn shows_on(&self, stream: &TokenStream) -> bool {
        &&& stream.wf()
        &&& self.targets@.len() > 0
        &&& self.targets@[0].index <= stream.len
    }

    /// The source line of the first target, a marker under the columns
    /// `from..=to` and the help text.
    pub fn underline(&self, stream: &TokenStream, from: u32, to: u32, style: Style) -> (r: Vec<Styled>)
        requires
            self.shows_on(stream),
        ensures
            lines_are(r@, seq![
                (Style::Plain, line_text(stream.buffer@, self.targets@[0].index as int)),
                (style, marker(from as int, to as int)),
                (Style::Help, self.help@),
            ]),
    {
        let mut r: Vec<Styled> = Vec::new();
        r.push(styled(Style::Plain, stream.line(self.targets[0])));
        r.push(styled(style, marker_text(from, to)));
        r.push(styled(Style::Help, copy_text(&self.help)));
        r
    }

    /// The source line of the first target, a `~` under each byte of `token`
    /// but its first, and the help text.
    pub fn underline_token(&self, stream: &TokenStream, token: Token) -> (r: Vec<Styled>)
        requires
            self.shows_on(stream),
        ensures
            lines_are(r@, seq![
                (Style::Plain, line_text(stream.buffer@, self.targets@[0].index as int)),
                (style_of(self.kind), tail_marks(token)),
                (Style::Help, self.help@),
            ]),
    {
        let mut marks = String::new();
        push_tail_marks(&mut marks, &token);
        let mut r: Vec<Styled> = Vec::new();
        r.push(styled(Style::Plain, stream.line(self.targets[0])));
        r.push(styled(style_for(self.kind), marks));
        r.push(styled(Style::Help, copy_text(&self.help)));
        r
    }

    /// The locator of the first target, its source line, a marker that runs
    /// from the hint's column across every target, and the help text.
    pub fn underline_tokens(&self, stream: &TokenStream, style: Style) -> (r: Vec<Styled>)
        requires
            self.shows_on(stream),
        ensures
            lines_are(r@, seq![
                (Style::Location, locator(self.targets@[0])),
                (Style::Plain, line_text(stream.buffer@, self.targets@[0].index as int)),
                (style, repeat(' ', self.column - 1).push('^') + marks_of(self.targets@, 0)),
                (Style::Help, self.help@),
            ]),
    {
        let first = self.targets[0];
        let mut place = String::new();
        push_decimal(&mut place, first.line);
        push_char(&mut place, ':');
        push_decimal(&mut place, first.column);
        push_char(&mut place, ':');
        let mut marks = String::new();
        let spaces = if self.column > 0 { self.column - 1 } else { 0 };
        push_repeat(&mut marks, ' ', spaces);
        assert(repeat(' ', self.column - 1) =~= marks@);
        push_char(&mut marks, '^');
        let ghost head = marks@;
        let mut k: usize = 0;
        while k < self.targets.len()
            invariant
                k <= self.targets@.len(),
                marks@ + marks_of(self.targets@, k as int) == head + marks_of(self.targets@, 0),
            decreases self.targets@.len() - k,
        {
            let ghost before = marks@;
            push_tail_marks(&mut marks, &self.targets[k]);
            k = k + 1;
            assert(before + marks_of(self.targets@, k - 1) =~= marks@ + marks_of(self.targets@, k as int));
        }
        assert(marks@ =~= marks@ + marks_of(self.targets@, k as int));
        let mut r: Vec<Styled> = Vec::new();
        r.push(styled(Style::Location, place));
        r.push(styled(Style::Plain, stream.line(first)));
        r.push(styled(style, marks));
        r.push(styled(Style::Help, copy_text(&self.help)));
        r
    }

    /// A removal is shown across its targets; an insertion as a caret at the
    /// hint's column.
    pub fn show(&self, stream: &TokenStream) -> (r: Vec<Styled>)
        requires
            self.shows_on(stream),
        ensures
            self.kind == HintKind::Remove ==> lines_are(r@, seq![
                (Style::Location, locator(self.targets@[0])),
                (Style::Plain, line_text(stream.buffer@, self.targets@[0].index as int)),
                (Style::SuggestRemove, repeat(' ', self.column - 1).push('^') + marks_of(self.targets@, 0)),
                (Style::Help, self.help@),
            ]),
            self.kind == HintKind::Add ==> lines_are(r@, seq![
                (Style::Plain, line_text(stream.buffer@, self.targets@[0].index as int)),
                (Style::SuggestAdd, marker(self.column as int, self.column as int)),
                (Style::Help, self.help@),
            ]),
    {
        if self.kind == HintKind::Remove {
            return self.underline_tokens(stream, Style::SuggestRemove);
        }
        self.underline(stream, self.column, self.column, Style::SuggestAdd)
    }
}

/// The last column that a hint on one token covers, or 0.
pub open spec fn last_column(h: Hint) -> int {
    if h.targets@.len() == 1 && h.targets@[0].column + h.targets@[0].value@.len() > 1 {
        h.targets@[0].column + h.targets@[0].value@.len() - 1
    } else {
        0
    }
}

/// The lines of the hints of `hints` from the `n`-th on: a marker each.
pub open spec fn hint_marks(hints: Seq<Hint>, n: int) -> Seq<(Style, Seq<char>)>
    decreases hints.len() - n,
{
    if 0 <= n < hints.len() {
        seq![(style_of(hints[n].kind), marker(hints[n].column as int, last_column(hints[n])))] + hint_marks(
            hints,
            n + 1,
        )
    } else {
        Seq::empty()
    }
}

/// The help texts of `hints` from the `n`-th on.
pub open spec fn hint_helps(hints: Seq<Hint>, n: int) -> Seq<(Style, Seq<char>)>
    decreases hints.len() - n,
{
    if 0 <= n < hints.len() {
        seq![(Style::Help, hints[n].help@)] + hint_helps(hints, n + 1)
    } else {
        Seq::empty()
    }
}

impl<'a> SyntaxError<'a> {
    /// A marker under the columns `from..=to`.
    pub fn underline(&self, from: u32, to: u32, style: Style) -> (r: Styled)
        ensures
            r.style == style,
            r.text@ == marker(from as int, to as int),
    {
        styled(style, marker_text(from, to))
    }

    /// The location and the message, the subject's source line, a marker for
    /// each hint, then the help text of each hint.
    pub fn show(&self, stream: &TokenStream) -> (r: Vec<Styled>)
        requires
            stream.wf(),
            self.subject.index <= stream.len,
            forall|k: int|
                0 <= k < self.hints@.len() ==> #[trigger] self.hints@[k].targets@.len() == 1 ==> self.hints@[k].targets@[0].column
                    + self.hints@[k].targets@[0].value@.len() <= u32::MAX,
        ensures
            lines_are(r@, seq![
                (Style::Location, locator(self.subject)),
                (Style::Plain, self.message@),
                (Style::Plain, line_text(stream.buffer@, self.subject.index as int)),
            ] + hint_marks(self.hints@, 0) + hint_helps(self.hints@, 0)),
    {
        let mut place = String::new();
        push_decimal(&mut place, self.subject.line);
        push_char(&mut place, ':');
        push_decimal(&mut place, self.subject.column);
        push_char(&mut place, ':');
        let mut message = String::new();
        message.append(self.message);
        let mut r: Vec<Styled> = Vec::new();
        r.push(styled(Style::Location, place));
        r.push(styled(Style::Plain, message));
        r.push(styled(Style::Plain, stream.line(self.subject)));
        let ghost head = seq![
            (Style::Location, locator(self.subject)),
            (Style::Plain, self.message@),
            (Style::Plain, line_text(stream.buffer@, self.subject.index as int)),
        ];
        proof {
            lemma_hint_marks_at(self.hints@, 0, 0);
            lemma_hint_helps_at(self.hints@, 0, 0);
        }
        let mut k: usize = 0;
        while k < self.hints.len()
            invariant
                k <= self.hints@.len(),
                stream.wf(),
                forall|j: int|
                    0 <= j < self.hints@.len() ==> #[trigger] self.hints@[j].targets@.len() == 1 ==> self.hints@[j].targets@[0].column
                        + self.hints@[j].targets@[0].value@.len() <= u32::MAX,
                lines_are(r@, head + hint_marks(self.hints@, 0).subrange(0, k as int)),
                hint_marks(self.hints@, 0).len() == self.hints@.len(),
            decreases self.hints@.len() - k,
        {
            let ghost before = r@;
            let hint = &self.hints[k];
            let end = hint.end();
            let to = if end > 0 { end - 1 } else { 0 };
            r.push(self.underline(hint.column, to, style_for(hint.kind)));
            proof {
                lemma_hint_marks_at(self.hints@, 0, k as int);
                lemma_lines_push(
                    before,
                    head + hint_marks(self.hints@, 0).subrange(0, k as int),
                    r@[r@.len() - 1],
                    hint_marks(self.hints@, 0)[k as int],
                );
                assert(r@ =~= before.push(r@[r@.len() - 1]));
                assert(head + hint_marks(self.hints@, 0).subrange(0, k + 1) =~= (head + hint_marks(
                    self.hints@,
                    0,
                ).subrange(0, k as int)).push(hint_marks(self.hints@, 0)[k as int]));
            }
            k = k + 1;
        }
        proof {
            lemma_hint_marks_at(self.hints@, 0, 0);
            assert(hint_marks(self.hints@, 0).subrange(0, k as int) =~= hint_marks(self.hints@, 0));
        }
        let ghost marks = head + hint_marks(self.hints@, 0);
        let mut k: usize = 0;
        while k < self.hints.len()
            invariant
                k <= self.hints@.len(),
                lines_are(r@, marks + hint_helps(self.hints@, 0).subrange(0, k as int)),
                hint_helps(self.hints@, 0).len() == self.hints@.len(),
            decreases self.hints@.len() - k,
        {
            let ghost before = r@;
            r.push(styled(Style::Help, copy_text(&self.hints[k].help)));
            proof {
                lemma_hint_helps_at(self.hints@, 0, k as int);
                lemma_lines_push(
                    before,
                    marks + hint_helps(self.hints@, 0).subrange(0, k as int),
                    r@[r@.len() - 1],
                    hint_helps(self.hints@, 0)[k as int],
                );
                assert(r@ =~= before.push(r@[r@.len() - 1]));
                assert(marks + hint_helps(self.hints@, 0).subrange(0, k + 1) =~= (marks + hint_helps(
                    self.hints@,
                    0,
                ).subrange(0, k as int)).push(hint_helps(self.hints@, 0)[k as int]));
            }
            k = k + 1;
        }
        proof {
            lemma_hint_helps_at(self.hints@, 0, 0);
            assert(hint_helps(self.hints@, 0).subrange(0, k as int) =~= hint_helps(self.hints@, 0));
        }
        r
    }
}

proof fn lemma_lines_push(r: Seq<Styled>, want: Seq<(Style, Seq<char>)>, x: Styled, w: (Style, Seq<char>))
    requires
        lines_are(r, want),
        x.style == w.0,
        x.text@ == w.1,
    ensures
        lines_are(r.push(x), want.push(w)),
{
    assert forall|k: int| 0 <= k < r.push(x).len() implies r.push(x)[k].style == want.push(w)[k].0
        && #[trigger] r.push(x)[k].text@ == want.push(w)[k].1 by {
        if k < r.len() {
            assert(r[k].text@ == want[k].1);
        }
    }
}

proof fn lemma_hint_marks_at(hints: Seq<Hint>, n: int, k: int)
    requires
        0 <= n <= hints.len(),
    ensures
        hint_marks(hints, n).len() == hints.len() - n,
        n <= k < hints.len() ==> hint_marks(hints, n)[k - n] == (
            style_of(hints[k].kind),
            marker(hints[k].column as int, last_column(hints[k])),
        ),
    decreases hints.len() - n,
{
    if n < hints.len() {
        lemma_hint_marks_at(hints, n + 1, k);
    }
}

proof fn lemma_hint_helps_at(hints: Seq<Hint>, n: int, k: int)
    requires
        0 <= n <= hints.len(),
    ensures
        hint_helps(hints, n).len() == hints.len() - n,
        n <= k < hints.len() ==> hint_helps(hints, n)[k - n] == (Style::Help, hints[k].help@),
    decreases hints.len() - n,
{
    if n < hints.len() {
        lemma_hint_helps_at(hints, n + 1, k);
    }
}

} // verus!

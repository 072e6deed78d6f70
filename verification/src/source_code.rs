//! The text of a document, the table of its lines, and its diagnostics.

use vstd::prelude::*;
use vstd::string::*;
use crate::lexer::token_stream::TokenError;
use crate::position::{Position, Range};
use crate::text::{string_from_chars, to_chars};

verus! {

/// How grave a diagnostic is.
#[derive(Clone, Copy, Debug, PartialEq, Eq, Structural)]
pub enum Severity {
    Error,
    Warning,
}

/// One finding about the document.
#[derive(Debug)]
pub struct Diagnostic {
    pub range: Range,
    pub severity: Severity,
    pub message: String,
}

/// The mathematical value of a [`Diagnostic`].
pub struct SpecDiagnostic {
    pub range: Range,
    pub severity: Severity,
    pub message: Seq<char>,
}

impl View for Diagnostic {
    type V = SpecDiagnostic;

    open spec fn view(&self) -> SpecDiagnostic {
        SpecDiagnostic { range: self.range, severity: self.severity, message: self.message@ }
    }
}

impl Clone for Diagnostic {
    fn clone(&self) -> (r: Self)
        ensures
            r == *self,
    {
        Diagnostic { range: self.range, severity: self.severity, message: self.message.clone() }
    }
}

/// The values of a list of diagnostics.
pub open spec fn diagnostics_view(list: Seq<Diagnostic>) -> Seq<SpecDiagnostic> {
    list.map_values(|d: Diagnostic| d@)
}

/// An error-level finding.
pub open spec fn error_at(range: Range, message: Seq<char>) -> SpecDiagnostic {
    SpecDiagnostic { range, severity: Severity::Error, message }
}

/// An edit: replace the text in `range` by `text`. Without a range the edit
/// names no place and changes nothing.
#[derive(Debug)]
pub struct TextChange {
    pub range: Option<Range>,
    pub text: String,
}

/// The offsets at which the lines of `src[..n]` start: 0, and the offset
/// behind each line feed.
pub open spec fn line_starts_upto(src: Seq<char>, n: nat) -> Seq<int>
    decreases n,
{
    if n == 0 {
        seq![0int]
    } else {
        let before = line_starts_upto(src, (n - 1) as nat);
        if n <= src.len() && src[n - 1] == '\n' {
            before.push(n as int)
        } else {
            before
        }
    }
}

/// The offsets at which the lines of `src` start.
pub open spec fn line_starts(src: Seq<char>) -> Seq<int> {
    line_starts_upto(src, src.len())
}

/// The offset, in characters, that a position names: the start of its line
/// plus its column. A position on a line that the text does not have names
/// the offset one behind the end of the text, which no edit can use.
pub open spec fn offset_of_position(src: Seq<char>, position: Position) -> int {
    let starts = line_starts(src);
    if position.line < starts.len() {
        starts[position.line as int] + position.character
    } else {
        (src.len() + 1) as int
    }
}

/// `n` as a `u32`, or the largest `u32` where it does not fit.
pub open spec fn saturate_u32(n: int) -> u32 {
    if n < 0 {
        0u32
    } else if n > u32::MAX {
        u32::MAX
    } else {
        n as u32
    }
}

/// `n` as a `usize`, or the largest `usize` where it does not fit.
pub open spec fn saturate_usize(n: int) -> usize {
    if n < 0 {
        0usize
    } else if n > usize::MAX {
        usize::MAX
    } else {
        n as usize
    }
}

/// The position of the character at `offset`: its line is the number of
/// line feeds before it, its column the distance from the start of that line.
pub open spec fn position_of_offset(src: Seq<char>, offset: nat) -> Position {
    let starts = line_starts_upto(src, offset);
    Position {
        line: saturate_u32(starts.len() - 1),
        character: saturate_u32(offset - starts.last()),
    }
}

/// The text after an edit: the part before the range, the new text, and the
/// part behind the range. An edit whose range does not lie in the text, or
/// ends before it starts, changes nothing.
pub open spec fn text_after_change(src: Seq<char>, range: Option<Range>, text: Seq<char>) -> Seq<
    char,
> {
    match range {
        Some(r) => {
            let start = offset_of_position(src, r.start);
            let end = offset_of_position(src, r.end);
            if start <= end && end <= src.len() {
                src.subrange(0, start) + text + src.subrange(end, src.len() as int)
            } else {
                src
            }
        },
        None => src,
    }
}

/// The line starts of a prefix are bounded by its length, start with 0 and
/// increase.
pub proof fn lemma_line_starts_shape(src: Seq<char>, n: nat)
    ensures
        line_starts_upto(src, n).len() >= 1,
        line_starts_upto(src, n).len() <= n + 1,
        line_starts_upto(src, n)[0] == 0,
        forall|i: int|
            0 <= i < line_starts_upto(src, n).len() ==> 0 <= #[trigger] line_starts_upto(src, n)[i]
                <= n,
        forall|i: int, j: int|
            0 <= i < j < line_starts_upto(src, n).len() ==> line_starts_upto(src, n)[i]
                < line_starts_upto(src, n)[j],
    decreases n,
{
    if n > 0 {
        lemma_line_starts_shape(src, (n - 1) as nat);
    }
}

/// The line starts of a prefix are a prefix of the line starts of any
/// longer prefix.
pub proof fn lemma_line_starts_prefix(src: Seq<char>, n: nat, m: nat)
    requires
        n <= m,
    ensures
        line_starts_upto(src, n).len() <= line_starts_upto(src, m).len(),
        forall|i: int|
            0 <= i < line_starts_upto(src, n).len() ==> line_starts_upto(src, n)[i]
                == #[trigger] line_starts_upto(src, m)[i],
    decreases m,
{
    if n < m {
        lemma_line_starts_prefix(src, n, (m - 1) as nat);
    }
}

/// A position computed from an offset names that offset again, as long as
/// line and column fit the position's fields.
pub proof fn lemma_position_round_trip(src: Seq<char>, offset: nat)
    requires
        offset <= src.len(),
        offset <= u32::MAX,
    ensures
        offset_of_position(src, position_of_offset(src, offset)) == offset,
{
    lemma_line_starts_shape(src, offset);
    lemma_line_starts_prefix(src, offset, src.len());
}

fn index_lines(chars: &Vec<char>) -> (starts: Vec<usize>)
    ensures
        starts@.map_values(|x: usize| x as int) == line_starts(chars@),
{
    let mut starts: Vec<usize> = Vec::new();
    starts.push(0);
    let mut i: usize = 0;
    assert(starts@.map_values(|x: usize| x as int) =~= line_starts_upto(chars@, 0));
    while i < chars.len()
        invariant
            i <= chars.len(),
            starts@.map_values(|x: usize| x as int) == line_starts_upto(chars@, i as nat),
        decreases chars.len() - i,
    {
        let ghost before = starts@;
        if chars[i] == '\n' {
            starts.push(i + 1);
            assert(starts@.map_values(|x: usize| x as int) =~= before.map_values(
                |x: usize| x as int,
            ).push((i + 1) as int));
        }
        i += 1;
    }
    starts
}

/// The characters of a document together with its text as a string and the
/// table of its line starts.
pub struct SourceText {
    code: String,
    chars: Vec<char>,
    starts: Vec<usize>,
}

impl SourceText {
    #[verifier::type_invariant]
    spec fn inv(self) -> bool {
        &&& self.chars@ == self.code@
        &&& self.starts@.map_values(|x: usize| x as int) == line_starts(self.chars@)
    }

    /// The characters of the text.
    pub closed spec fn text(self) -> Seq<char> {
        self.code@
    }

    /// Wraps the given characters.
    pub fn from_chars(chars: Vec<char>) -> (r: SourceText)
        ensures
            r.text() == chars@,
    {
        let code = string_from_chars(&chars, 0, chars.len());
        assert(chars@.subrange(0, chars@.len() as int) =~= chars@);
        let starts = index_lines(&chars);
        SourceText { code, chars, starts }
    }

    /// The text as a string.
    pub fn as_string(&self) -> (r: &String)
        ensures
            r@ == self.text(),
    {
        &self.code
    }

    /// The characters of the text.
    pub fn chars(&self) -> (r: &Vec<char>)
        ensures
            r@ == self.text(),
    {
        proof {
            use_type_invariant(self);
        }
        &self.chars
    }

    /// The offset that `position` names, if it lies in the text or at its
    /// end.
    pub fn offset(&self, position: Position) -> (r: Option<usize>)
        ensures
            r is Some <==> offset_of_position(self.text(), position) <= self.text().len(),
            r is Some ==> r->0 == offset_of_position(self.text(), position),
    {
        proof {
            use_type_invariant(self);
            lemma_line_starts_shape(self.chars@, self.chars@.len());
        }
        let line = position.line as usize;
        if line < self.starts.len() {
            let start = self.starts[line];
            assert(start as int == self.starts@.map_values(|x: usize| x as int)[line as int]);
            let room = self.chars.len() - start;
            if position.character as usize <= room {
                Some(start + position.character as usize)
            } else {
                None
            }
        } else {
            None
        }
    }

    /// The offset that `position` names, whether or not it lies in the
    /// text; the largest `usize` where it does not fit one.
    pub fn raw_offset(&self, position: Position) -> (r: usize)
        ensures
            r == saturate_usize(offset_of_position(self.text(), position)),
    {
        proof {
            use_type_invariant(self);
            lemma_line_starts_shape(self.chars@, self.chars@.len());
        }
        let line = position.line as usize;
        let raw = if line < self.starts.len() {
            let start = self.starts[line];
            assert(start as int == self.starts@.map_values(|x: usize| x as int)[line as int]);
            start.checked_add(position.character as usize)
        } else {
            self.chars.len().checked_add(1)
        };
        match raw {
            Some(offset) => offset,
            None => usize::MAX,
        }
    }

    /// The text between two positions; empty where they do not name a span
    /// of the text.
    pub fn slice(&self, range: Range) -> (r: String)
        ensures
            r@ == text_in_range(self.text(), range),
    {
        proof {
            use_type_invariant(self);
        }
        match (self.offset(range.start), self.offset(range.end)) {
            (Some(start), Some(end)) => {
                if start <= end {
                    string_from_chars(&self.chars, start, end)
                } else {
                    String::new()
                }
            },
            _ => String::new(),
        }
    }
}

/// The text that a range covers; empty where the range does not name a span
/// of the text.
pub open spec fn text_in_range(src: Seq<char>, range: Range) -> Seq<char> {
    let start = offset_of_position(src, range.start);
    let end = offset_of_position(src, range.end);
    if start <= end && end <= src.len() {
        src.subrange(start, end)
    } else {
        Seq::empty()
    }
}

/// A document: its text and the diagnostics found in it so far.
pub struct SourceDocument {
    text: SourceText,
    diagnostics: Vec<Diagnostic>,
}

/// The mathematical value of a [`SourceDocument`].
pub struct SpecSourceDocument {
    pub code: Seq<char>,
    pub diagnostics: Seq<SpecDiagnostic>,
}

impl View for SourceDocument {
    type V = SpecSourceDocument;

    closed spec fn view(&self) -> SpecSourceDocument {
        SpecSourceDocument {
            code: self.text.text(),
            diagnostics: diagnostics_view(self.diagnostics@),
        }
    }
}

impl SourceDocument {
    /// A document with the given text and nothing on record.
    pub fn new(source: &str) -> (r: Self)
        ensures
            r@.code == source@,
            r@.diagnostics == Seq::<SpecDiagnostic>::empty(),
    {
        let r = Self { text: SourceText::from_chars(to_chars(source)), diagnostics: Vec::new() };
        assert(diagnostics_view(r.diagnostics@) =~= Seq::<SpecDiagnostic>::empty());
        r
    }

    /// Records an error and hands `error` back.
    pub fn push_error<T>(&mut self, msg: &str, range: Range, error: T) -> (r: T)
        ensures
            r == error,
            final(self)@.code == old(self)@.code,
            final(self)@.diagnostics == old(self)@.diagnostics.push(error_at(range, msg@)),
    {
        self.diagnostics.push(
            Diagnostic { range, severity: Severity::Error, message: String::from_str(msg) },
        );
        assert(diagnostics_view(self.diagnostics@) =~= diagnostics_view(old(self).diagnostics@).push(
            error_at(range, msg@),
        ));
        error
    }

    /// Records that the input ended too early.
    pub fn push_eof_error(&mut self, range: Range) -> (r: TokenError)
        ensures
            r == TokenError::EofError,
            final(self)@.code == old(self)@.code,
            final(self)@.diagnostics == old(self)@.diagnostics.push(
                error_at(range, "Unexpected EOF"@),
            ),
    {
        self.push_error("Unexpected EOF", range, TokenError::EofError)
    }

    /// Replaces what is on record.
    pub fn force_change_diagnostics(&mut self, diagnostics: Vec<Diagnostic>)
        ensures
            final(self)@.code == old(self)@.code,
            final(self)@.diagnostics == diagnostics_view(diagnostics@),
    {
        self.diagnostics = diagnostics;
    }

    /// What is on record.
    pub fn get_diagnostics(&self) -> (r: &Vec<Diagnostic>)
        ensures
            diagnostics_view(r@) == self@.diagnostics,
    {
        &self.diagnostics
    }

    /// The text of the document.
    pub fn get_code(&self) -> (r: &String)
        ensures
            r@ == self@.code,
    {
        self.text.as_string()
    }

    /// The characters of the text.
    pub fn get_chars(&self) -> (r: &Vec<char>)
        ensures
            r@ == self@.code,
    {
        self.text.chars()
    }

    /// The text that `range` covers.
    pub fn text_at(&self, range: Range) -> (r: String)
        ensures
            r@ == text_in_range(self@.code, range),
    {
        self.text.slice(range)
    }

    /// The offset that `position` names in the text.
    pub fn offset_at(&self, position: Position) -> (r: usize)
        ensures
            r == saturate_usize(offset_of_position(self@.code, position)),
    {
        self.text.raw_offset(position)
    }

    /// Adds to what is on record.
    pub fn add_diagnostics(&mut self, diagnostics: Vec<Diagnostic>)
        ensures
            final(self)@.code == old(self)@.code,
            final(self)@.diagnostics == old(self)@.diagnostics + diagnostics_view(diagnostics@),
    {
        let mut diagnostics = diagnostics;
        let ghost added = diagnostics@;
        self.diagnostics.append(&mut diagnostics);
        assert(diagnostics_view(self.diagnostics@) =~= diagnostics_view(old(self).diagnostics@)
            + diagnostics_view(added));
    }

    /// Applies an edit to the text.
    pub fn apply_change(&mut self, change: TextChange)
        ensures
            final(self)@.code == text_after_change(old(self)@.code, change.range, change.text@),
            final(self)@.diagnostics == old(self)@.diagnostics,
    {
        if let Some(range) = change.range {
            let start = self.text.offset(range.start);
            let end = self.text.offset(range.end);
            match (start, end) {
                (Some(start), Some(end)) => {
                    if start <= end {
                        let old_chars = self.text.chars();
                        let new_chars = splice(old_chars, start, end, change.text.as_str());
                        self.text = SourceText::from_chars(new_chars);
                    }
                },
                _ => {},
            }
        }
    }
}

/// A copy of a list of diagnostics.
pub fn copy_diagnostics(list: &Vec<Diagnostic>) -> (r: Vec<Diagnostic>)
    ensures
        diagnostics_view(r@) == diagnostics_view(list@),
{
    let mut r: Vec<Diagnostic> = Vec::new();
    let mut i: usize = 0;
    while i < list.len()
        invariant
            i <= list.len(),
            r.len() == i,
            forall|j: int| 0 <= j < i ==> r@[j]@ == list@[j]@,
        decreases list.len() - i,
    {
        r.push(list[i].clone());
        i += 1;
    }
    assert(diagnostics_view(r@) =~= diagnostics_view(list@));
    r
}

/// `chars[..start]`, then `text`, then `chars[end..]`.
fn splice(chars: &Vec<char>, start: usize, end: usize, text: &str) -> (r: Vec<char>)
    requires
        start <= end <= chars.len(),
    ensures
        r@ == chars@.subrange(0, start as int) + text@ + chars@.subrange(
            end as int,
            chars@.len() as int,
        ),
{
    let mut r: Vec<char> = Vec::new();
    let mut i: usize = 0;
    while i < start
        invariant
            i <= start <= chars.len(),
            r@ == chars@.subrange(0, i as int),
        decreases start - i,
    {
        r.push(chars[i]);
        i += 1;
        assert(r@ =~= chars@.subrange(0, i as int));
    }
    let mut inserted = to_chars(text);
    r.append(&mut inserted);
    let ghost head = r@;
    let mut j: usize = end;
    while j < chars.len()
        invariant
            end <= j <= chars.len(),
            head == chars@.subrange(0, start as int) + text@,
            r@ == head + chars@.subrange(end as int, j as int),
        decreases chars.len() - j,
    {
        r.push(chars[j]);
        j += 1;
        assert(r@ =~= head + chars@.subrange(end as int, j as int));
    }
    r
}

} // verus!

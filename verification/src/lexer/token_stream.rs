//! The token stream: a cursor over the tokens of one document that also
//! tracks what a completion request at the editor's cursor should offer.
//!
//! A parser announces what it is about to read with
//! [`TokenStream::queue_cursor_element`]; when it then moves past a token
//! that the editor's cursor touches, the announcement becomes the answer.

use vstd::prelude::*;
use vstd::string::*;
use crate::completion::{CompletionElement, SpecCompletionElement};
use crate::lexer::scanner::{tokenize, tokens_of};
use crate::lexer::token::{kind_name, Token, TokenKind};
use crate::position::{range_contains, ExtraRange, Position, Range};
use crate::source_code::{error_at, text_in_range, SourceDocument, SpecSourceDocument};
use crate::text::concat2;

verus! {

/// Why a token could not be had: the input ended, or the input holds
/// something else than the grammar asks for.
#[derive(Debug, Clone, Copy, PartialEq, Eq, Structural)]
pub enum TokenError {
    EofError,
    SyntaxError,
}

/// A token, or why there is none.
pub type TokenResult = Result<Token, TokenError>;

/// How deep constructs may nest in one another before the parser refuses
/// to go on.
pub const MAX_NESTING: usize = 256;

/// The tokens of a document with a place among them, the document itself
/// for what goes on record, the editor's cursor, and what completion is to
/// offer there.
pub struct TokenStream {
    pub current_idx: usize,
    pub tokens: Vec<Token>,
    pub source: SourceDocument,
    pub cursor: Option<Position>,
    pub cursor_element: CompletionElement,
    pub cursor_element_queue: CompletionElement,
    pub parsing_const: bool,
    pub parsing_statement: bool,
    pub record_errors: bool,
    /// How many more levels of nesting the parser may enter.
    pub depth: usize,
}

/// The mathematical value of a [`TokenStream`]; the nesting budget is not
/// part of it.
pub struct SpecTokenStream {
    pub idx: nat,
    pub tokens: Seq<Token>,
    pub source: SpecSourceDocument,
    pub cursor: Option<Position>,
    pub element: SpecCompletionElement,
    pub queue: SpecCompletionElement,
    pub parsing_const: bool,
    pub parsing_statement: bool,
    pub record_errors: bool,
}

impl View for TokenStream {
    type V = SpecTokenStream;

    open spec fn view(&self) -> SpecTokenStream {
        SpecTokenStream {
            idx: self.current_idx as nat,
            tokens: self.tokens@,
            source: self.source@,
            cursor: self.cursor,
            element: self.cursor_element@,
            queue: self.cursor_element_queue@,
            parsing_const: self.parsing_const,
            parsing_statement: self.parsing_statement,
            record_errors: self.record_errors,
        }
    }
}

impl SpecTokenStream {
    /// The number of tokens not yet passed.
    pub open spec fn remaining(self) -> nat {
        if self.idx < self.tokens.len() {
            (self.tokens.len() - self.idx) as nat
        } else {
            0
        }
    }

    /// The token under the cursor of the stream.
    pub open spec fn current(self) -> TokenResult {
        if self.idx < self.tokens.len() {
            Ok(self.tokens[self.idx as int])
        } else {
            Err(TokenError::EofError)
        }
    }

    /// Whether the editor's cursor touches the current token.
    pub open spec fn cursor_on_current(self) -> bool {
        self.cursor is Some && self.idx < self.tokens.len() && range_contains(
            self.tokens[self.idx as int].range,
            self.cursor->0,
        )
    }

    /// The stream moved on by one place: if the editor's cursor touches the
    /// token that is left behind, what was announced becomes the answer.
    /// The place moves on at the end of the input too; it stops only at the
    /// largest place that a machine can count to.
    pub open spec fn advance(self) -> SpecTokenStream {
        SpecTokenStream {
            idx: if self.idx < usize::MAX {
                self.idx + 1
            } else {
                self.idx
            },
            element: if self.cursor_on_current() {
                self.queue
            } else {
                self.element
            },
            parsing_statement: false,
            ..self
        }
    }

    /// The stream with `element` announced.
    pub open spec fn queued(self, element: SpecCompletionElement) -> SpecTokenStream {
        SpecTokenStream { queue: element, ..self }
    }

    /// The stream at another place.
    pub open spec fn at(self, idx: nat) -> SpecTokenStream {
        SpecTokenStream { idx, ..self }
    }

    /// The stream with error recording switched on or off.
    pub open spec fn recording(self, on: bool) -> SpecTokenStream {
        SpecTokenStream { record_errors: on, ..self }
    }

    /// The stream with another statement flag.
    pub open spec fn in_statement(self, on: bool) -> SpecTokenStream {
        SpecTokenStream { parsing_statement: on, ..self }
    }

    /// The stream with another constant flag.
    pub open spec fn in_const(self, on: bool) -> SpecTokenStream {
        SpecTokenStream { parsing_const: on, ..self }
    }

    /// The stream after a syntax error: on record, unless recording is
    /// switched off.
    pub open spec fn alert(self, msg: Seq<char>, range: Range) -> SpecTokenStream {
        if self.record_errors {
            SpecTokenStream {
                source: SpecSourceDocument {
                    code: self.source.code,
                    diagnostics: self.source.diagnostics.push(error_at(range, msg)),
                },
                ..self
            }
        } else {
            self
        }
    }

    /// Takes the current token and moves past it.
    pub open spec fn consume(self) -> (SpecTokenStream, TokenResult) {
        (self.advance(), self.current())
    }

    /// Takes the current token if it is of kind `kind`.
    pub open spec fn consume_kind(self, kind: TokenKind) -> (SpecTokenStream, Option<Token>) {
        match self.current() {
            Ok(t) => if t.kind == kind {
                (self.advance(), Some(t))
            } else {
                (self, None)
            },
            Err(_) => (self, None),
        }
    }

    /// Takes the current token if its kind is one that `accept` admits.
    pub open spec fn consume_where(self, accept: spec_fn(TokenKind) -> bool) -> (
        SpecTokenStream,
        Option<Token>,
    ) {
        match self.current() {
            Ok(t) => if accept(t.kind) {
                (self.advance(), Some(t))
            } else {
                (self, None)
            },
            Err(_) => (self, None),
        }
    }

    /// Takes the current token, which must be of a kind that `accept`
    /// admits: another token is a syntax error with the given message, and
    /// stays.
    pub open spec fn expect_where(self, accept: spec_fn(TokenKind) -> bool, message: Seq<char>)
        -> (SpecTokenStream, TokenResult) {
        match self.current() {
            Ok(t) => if accept(t.kind) {
                (self.advance(), Ok(t))
            } else {
                (self.alert(message, t.range), Err(TokenError::SyntaxError))
            },
            Err(e) => (self, Err(e)),
        }
    }

    /// Whether a machine can count the tokens: so it is of every stream
    /// that a machine holds.
    pub open spec fn countable(self) -> bool {
        self.tokens.len() <= usize::MAX
    }

    /// Whether `after` can come out of parsing from `self`: the same
    /// tokens, the same text and the same editor's cursor, and a place that
    /// is not before the old one.
    pub open spec fn leads_to(self, after: SpecTokenStream) -> bool {
        &&& after.tokens == self.tokens
        &&& after.cursor == self.cursor
        &&& after.source.code == self.source.code
        &&& after.idx >= self.idx
    }

    /// Takes the current token, which must be of kind `expected`: another
    /// token is a syntax error, and stays.
    pub open spec fn expect(self, expected: TokenKind) -> (SpecTokenStream, TokenResult) {
        match self.current() {
            Ok(t) => if t.kind == expected {
                (self.advance(), Ok(t))
            } else {
                (
                    self.alert("Expected "@ + kind_name(expected), t.range),
                    Err(TokenError::SyntaxError),
                )
            },
            Err(e) => (self, Err(e)),
        }
    }

    /// The source text of a token.
    pub open spec fn token_text(self, token: Token) -> Seq<char> {
        text_in_range(self.source.code, token.range)
    }

    /// The first token at or behind `from` that the editor's cursor
    /// touches.
    pub open spec fn token_at_cursor(self, from: int) -> Option<Token>
        decreases self.tokens.len() - from,
    {
        if self.cursor is None || from < 0 || from >= self.tokens.len() {
            None
        } else if range_contains(self.tokens[from].range, self.cursor->0) {
            Some(self.tokens[from])
        } else {
            self.token_at_cursor(from + 1)
        }
    }
}

/// The stream over a document of which nothing has been read yet.
pub open spec fn fresh_stream(source: Seq<char>, cursor: Option<Position>) -> SpecTokenStream {
    SpecTokenStream {
        idx: 0,
        tokens: tokens_of(source),
        source: SpecSourceDocument { code: source, diagnostics: Seq::empty() },
        cursor,
        element: SpecCompletionElement::TopLevelKeyword,
        queue: SpecCompletionElement::TopLevelKeyword,
        parsing_const: false,
        parsing_statement: false,
        record_errors: true,
    }
}

impl Token {
    /// The name of the token's kind.
    pub fn as_ref(&self) -> (r: &'static str)
        ensures
            r@ == kind_name(self.kind),
    {
        self.kind.as_ref()
    }

    /// The text that the token covers in `source`.
    pub fn text(&self, source: &String) -> (r: String)
        ensures
            r@ == text_in_range(source@, self.range),
    {
        let document = SourceDocument::new(source.as_str());
        document.text_at(self.range)
    }
}

impl TokenStream {
    /// The stream over the tokens of `source_str`, at its start.
    pub fn new(source_str: &str, cursor: Option<Position>) -> (r: Self)
        ensures
            r@ == fresh_stream(source_str@, cursor),
            r.depth == MAX_NESTING,
    {
        let source = SourceDocument::new(source_str);
        let tokens = tokenize(source.get_chars());
        Self {
            current_idx: 0,
            tokens,
            source,
            cursor,
            cursor_element: CompletionElement::TopLevelKeyword,
            cursor_element_queue: CompletionElement::TopLevelKeyword,
            parsing_const: false,
            parsing_statement: false,
            record_errors: true,
            depth: MAX_NESTING,
        }
    }

    /// Takes the stream apart.
    pub fn destroy(self) -> (r: (Vec<Token>, SourceDocument))
        ensures
            r.0@ == self@.tokens,
            r.1@ == self@.source,
    {
        (self.tokens, self.source)
    }

    /// The document with what is on record so far.
    pub fn get_source(&self) -> (r: &SourceDocument)
        ensures
            r@ == self@.source,
    {
        &self.source
    }

    /// The token at the place of the stream.
    pub fn current(&self) -> (r: TokenResult)
        ensures
            r == self@.current(),
            self@.countable(),
    {
        if self.current_idx < self.tokens.len() {
            Ok(self.tokens[self.current_idx])
        } else {
            Err(TokenError::EofError)
        }
    }

    /// The place of the stream.
    pub fn current_idx(&self) -> (r: usize)
        ensures
            r == self@.idx,
    {
        self.current_idx
    }

    /// From now on, nothing goes on record.
    pub fn turn_off_errors(&mut self)
        ensures
            final(self)@ == old(self)@.recording(false),
            final(self).depth == old(self).depth,
    {
        self.record_errors = false;
    }

    /// From now on, errors go on record.
    pub fn turn_on_errors(&mut self)
        ensures
            final(self)@ == old(self)@.recording(true),
            final(self).depth == old(self).depth,
    {
        self.record_errors = true;
    }

    /// Puts the stream at another place.
    pub fn force_change_position(&mut self, idx: usize)
        ensures
            final(self)@ == old(self)@.at(idx as nat),
            final(self).depth == old(self).depth,
    {
        self.current_idx = idx;
    }

    /// Announces what completion is to offer at the tokens that come.
    pub fn queue_cursor_element(&mut self, element: CompletionElement)
        ensures
            final(self)@ == old(self)@.queued(element@),
            final(self).depth == old(self).depth,
    {
        self.cursor_element_queue = element;
    }

    /// Moves past the current token.
    pub fn advance(&mut self)
        ensures
            final(self)@ == old(self)@.advance(),
            final(self).depth == old(self).depth,
            old(self)@.countable(),
    {
        if self.current_idx < self.tokens.len() {
            if let Some(cursor) = self.cursor {
                if self.tokens[self.current_idx].range.contains_position(cursor) {
                    self.cursor_element = self.cursor_element_queue.clone();
                }
            }
            self.current_idx += 1;
        } else if self.current_idx < usize::MAX {
            self.current_idx += 1;
        }
        self.parsing_statement = false;
    }

    /// Moves back by one token.
    pub fn retreat(&mut self)
        requires
            old(self)@.idx > 0,
        ensures
            final(self)@ == old(self)@.at((old(self)@.idx - 1) as nat),
            final(self).depth == old(self).depth,
    {
        self.current_idx -= 1;
    }

    /// Moves past the current token and hands `data` back.
    pub fn advance_with<T>(&mut self, data: T) -> (r: T)
        ensures
            r == data,
            final(self)@ == old(self)@.advance(),
            final(self).depth == old(self).depth,
            old(self)@.countable(),
    {
        self.advance();
        data
    }

    /// Takes the current token and moves past it.
    pub fn consume(&mut self) -> (r: TokenResult)
        ensures
            (final(self)@, r) == old(self)@.consume(),
            final(self).depth == old(self).depth,
            old(self)@.countable(),
    {
        let current = self.current();
        self.advance();
        current
    }

    /// Takes the current token if `f` says so.
    pub fn consume_if<F>(&mut self, f: F) -> (r: Option<Token>) where F: Fn(Token) -> bool
        requires
            forall|t: Token| f.requires((t,)),
        ensures
            final(self).depth == old(self).depth,
            old(self)@.countable(),
            match old(self)@.current() {
                Ok(t) => match r {
                    Some(taken) => taken == t && f.ensures((t,), true) && final(self)@ == old(
                        self,
                    )@.advance(),
                    None => f.ensures((t,), false) && final(self)@ == old(self)@,
                },
                Err(_) => r is None && final(self)@ == old(self)@,
            },
    {
        match self.current() {
            Ok(x) => {
                if f(x) {
                    self.advance();
                    Some(x)
                } else {
                    None
                }
            },
            _ => None,
        }
    }

    /// Takes the current token if it is of kind `kind`.
    pub fn consume_kind(&mut self, kind: TokenKind) -> (r: Option<Token>)
        ensures
            (final(self)@, r) == old(self)@.consume_kind(kind),
            final(self).depth == old(self).depth,
            old(self)@.countable(),
    {
        match self.current() {
            Ok(x) => {
                if x.kind == kind {
                    self.advance();
                    Some(x)
                } else {
                    None
                }
            },
            _ => None,
        }
    }

    /// Takes the current token, which must be of kind `expected`.
    pub fn consume_token_kind(&mut self, expected: TokenKind) -> (r: TokenResult)
        ensures
            (final(self)@, r) == old(self)@.expect(expected),
            final(self).depth == old(self).depth,
            old(self)@.countable(),
    {
        let current = self.current()?;
        if current.kind == expected {
            self.consume()
        } else {
            let message = concat2("Expected ", expected.as_ref());
            Err(self.alert_error(message.as_str(), current.range))
        }
    }

    /// Puts a syntax error on record, unless recording is switched off.
    pub fn alert_error(&mut self, msg: &str, range: Range) -> (r: TokenError)
        ensures
            r == TokenError::SyntaxError,
            final(self)@ == old(self)@.alert(msg@, range),
            final(self).depth == old(self).depth,
    {
        if !self.record_errors {
            return TokenError::SyntaxError;
        }
        self.source.push_error(msg, range, TokenError::SyntaxError)
    }

    /// Puts a syntax error on record, unless recording is switched off, and hands
    /// `data` back.
    pub fn alert_error_with<T>(&mut self, msg: &str, range: Range, data: T) -> (r: T)
        ensures
            r == data,
            final(self)@ == old(self)@.alert(msg@, range),
            final(self).depth == old(self).depth,
    {
        if !self.record_errors {
            return data;
        }
        self.source.push_error(msg, range, TokenError::SyntaxError);
        data
    }

    /// The text of the token under the editor's cursor.
    pub fn find_cursor_text(&self) -> (r: Option<String>)
        ensures
            match self@.token_at_cursor(0) {
                Some(t) => r is Some && r->0@ == self@.token_text(t),
                None => r is None,
            },
    {
        if let Some(cursor) = self.cursor {
            let mut i: usize = 0;
            while i < self.tokens.len()
                invariant
                    i <= self.tokens.len(),
                    self.cursor == Some(cursor),
                    self@.token_at_cursor(0) == self@.token_at_cursor(i as int),
                decreases self.tokens.len() - i,
            {
                if self.tokens[i].range.contains_position(cursor) {
                    return Some(self.source.text_at(self.tokens[i].range));
                }
                i += 1;
            }
        }
        None
    }
}

} // verus!

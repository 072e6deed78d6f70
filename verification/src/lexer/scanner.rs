//! The scanner: from the characters of a document to its tokens.
//!
//! At every offset the scanner takes the longest lexeme that starts there.
//! Blanks, comments and line feeds are skipped; a character that starts no
//! lexeme becomes an `Error` token of its own, so that nothing is dropped
//! in silence.

use vstd::prelude::*;
use vstd::string::*;
use crate::lexer::token::{Token, TokenKind};
use crate::position::{Position, Range};
use crate::source_code::{
    lemma_position_round_trip, line_starts_upto, position_of_offset, text_in_range,
};
use crate::text::{str_eq, string_from_chars};

verus! {

/// The classes of characters that lexemes repeat.
#[derive(Clone, Copy, Debug, PartialEq, Eq, Structural)]
pub enum CharClass {
    /// A decimal digit.
    Digit,
    /// A letter, a digit or an underscore.
    Word,
    /// A space, a tab or a form feed.
    Blank,
    /// Anything but a line feed.
    InLine,
}

/// Whether a character is a decimal digit.
pub open spec fn is_digit(c: char) -> bool {
    '0' <= c && c <= '9'
}

/// Whether a character can start a word: a letter or an underscore.
pub open spec fn is_word_start(c: char) -> bool {
    ('a' <= c && c <= 'z') || ('A' <= c && c <= 'Z') || c == '_'
}

/// Whether a character belongs to a class.
pub open spec fn in_class(class: CharClass, c: char) -> bool {
    match class {
        CharClass::Digit => is_digit(c),
        CharClass::Word => is_word_start(c) || is_digit(c),
        CharClass::Blank => c == ' ' || c == '\t' || c == '\x0c',
        CharClass::InLine => c != '\n',
    }
}

/// How many characters of `class` stand in a row at offset `i`.
pub open spec fn run_len(src: Seq<char>, i: int, class: CharClass) -> nat
    decreases src.len() - i,
{
    if 0 <= i < src.len() && in_class(class, src[i]) {
        1 + run_len(src, i + 1, class)
    } else {
        0
    }
}

/// The kind of a word: a keyword where it is one, an identifier otherwise.
pub open spec fn word_kind(word: Seq<char>) -> TokenKind {
    if word == "shader_type"@ {
        TokenKind::ShaderType
    } else if word == "render_mode"@ {
        TokenKind::RenderMode
    } else if word == "group_uniforms"@ {
        TokenKind::GroupUniforms
    } else if word == "global"@ {
        TokenKind::Global
    } else if word == "instance"@ {
        TokenKind::Instance
    } else if word == "const"@ {
        TokenKind::Const
    } else if word == "uniform"@ {
        TokenKind::Uniform
    } else if word == "varying"@ {
        TokenKind::Varying
    } else if word == "struct"@ {
        TokenKind::Struct
    } else if word == "void"@ {
        TokenKind::Void
    } else if word == "break"@ {
        TokenKind::Break
    } else if word == "continue"@ {
        TokenKind::Continue
    } else if word == "while"@ {
        TokenKind::While
    } else if word == "do"@ {
        TokenKind::Do
    } else if word == "else"@ {
        TokenKind::Else
    } else if word == "for"@ {
        TokenKind::For
    } else if word == "if"@ {
        TokenKind::If
    } else if word == "discard"@ {
        TokenKind::Discard
    } else if word == "return"@ {
        TokenKind::Return
    } else if word == "switch"@ {
        TokenKind::Switch
    } else if word == "case"@ {
        TokenKind::Case
    } else if word == "default"@ {
        TokenKind::Default
    } else if word == "in"@ {
        TokenKind::In
    } else if word == "out"@ {
        TokenKind::Out
    } else if word == "inout"@ {
        TokenKind::InOut
    } else if word == "flat"@ {
        TokenKind::Interpolation
    } else if word == "smooth"@ {
        TokenKind::Interpolation
    } else if word == "lowp"@ {
        TokenKind::Precision
    } else if word == "mediump"@ {
        TokenKind::Precision
    } else if word == "highp"@ {
        TokenKind::Precision
    } else if word == "true"@ {
        TokenKind::BoolConstant
    } else if word == "false"@ {
        TokenKind::BoolConstant
    } else {
        TokenKind::Identifier
    }
}

/// The operator or punctuation mark made of the two characters, if any.
pub open spec fn pair_kind(a: char, b: char) -> Option<TokenKind> {
    if a == '+' && b == '=' {
        Some(TokenKind::AddAssign)
    } else if a == '-' && b == '=' {
        Some(TokenKind::SubAssign)
    } else if a == '*' && b == '=' {
        Some(TokenKind::MulAssign)
    } else if a == '/' && b == '=' {
        Some(TokenKind::DivAssign)
    } else if a == '%' && b == '=' {
        Some(TokenKind::ModAssign)
    } else if a == '+' && b == '+' {
        Some(TokenKind::Increment)
    } else if a == '-' && b == '-' {
        Some(TokenKind::Decrement)
    } else if a == '&' && b == '&' {
        Some(TokenKind::And)
    } else if a == '|' && b == '|' {
        Some(TokenKind::Or)
    } else if a == '<' && b == '<' {
        Some(TokenKind::LeftOp)
    } else if a == '>' && b == '>' {
        Some(TokenKind::RightOp)
    } else if a == '<' && b == '=' {
        Some(TokenKind::LeqOp)
    } else if a == '>' && b == '=' {
        Some(TokenKind::GeqOp)
    } else if a == '=' && b == '=' {
        Some(TokenKind::EqOp)
    } else if a == '!' && b == '=' {
        Some(TokenKind::NeqOp)
    } else {
        None
    }
}

/// The operator or punctuation mark made of the one character, if any.
pub open spec fn single_kind(a: char) -> Option<TokenKind> {
    if a == '=' {
        Some(TokenKind::Equal)
    } else if a == '!' {
        Some(TokenKind::Bang)
    } else if a == '-' {
        Some(TokenKind::Dash)
    } else if a == '~' {
        Some(TokenKind::Tilde)
    } else if a == '+' {
        Some(TokenKind::Plus)
    } else if a == '*' {
        Some(TokenKind::Star)
    } else if a == '/' {
        Some(TokenKind::Slash)
    } else if a == '%' {
        Some(TokenKind::Percent)
    } else if a == '<' {
        Some(TokenKind::LeftAngle)
    } else if a == '>' {
        Some(TokenKind::RightAngle)
    } else if a == '|' {
        Some(TokenKind::VerticalBar)
    } else if a == '^' {
        Some(TokenKind::Caret)
    } else if a == '&' {
        Some(TokenKind::Ampersand)
    } else if a == '?' {
        Some(TokenKind::Question)
    } else if a == '(' {
        Some(TokenKind::LeftParen)
    } else if a == ')' {
        Some(TokenKind::RightParen)
    } else if a == '[' {
        Some(TokenKind::LeftBracket)
    } else if a == ']' {
        Some(TokenKind::RightBracket)
    } else if a == '{' {
        Some(TokenKind::LeftBrace)
    } else if a == '}' {
        Some(TokenKind::RightBrace)
    } else if a == '.' {
        Some(TokenKind::Dot)
    } else if a == ',' {
        Some(TokenKind::Comma)
    } else if a == ':' {
        Some(TokenKind::Colon)
    } else if a == ';' {
        Some(TokenKind::Semicolon)
    } else {
        None
    }
}

/// The offset of the quote that closes the string literal opened at `open`,
/// found by reading on from `k`. A quote directly behind a backslash may
/// stand inside the literal; `last` is the latest such quote seen, which
/// closes the literal if no other quote does.
pub open spec fn string_close(src: Seq<char>, open: int, k: int, last: Option<int>) -> Option<int>
    decreases src.len() - k,
{
    if k < 0 || k >= src.len() {
        last
    } else if src[k] == '"' {
        if k - 1 > open && src[k - 1] == '\\' {
            string_close(src, open, k + 1, Some(k))
        } else {
            Some(k)
        }
    } else {
        string_close(src, open, k + 1, last)
    }
}

/// The offset behind the `*/` that closes a block comment whose body starts
/// at `k`. A star inside the body takes the character behind it along, so a
/// body that ends in a star is not closed by `*/` directly behind it.
pub open spec fn comment_close(src: Seq<char>, k: int) -> Option<int>
    decreases src.len() - k,
{
    if k < 0 || k >= src.len() {
        None
    } else if src[k] != '*' {
        comment_close(src, k + 1)
    } else if k + 1 >= src.len() {
        None
    } else if src[k + 1] == '/' {
        Some(k + 2)
    } else {
        comment_close(src, k + 2)
    }
}

/// What stands at an offset: the kind of token, or `None` for text that is
/// skipped, and the number of characters it takes.
pub struct Lexeme {
    pub kind: Option<TokenKind>,
    pub len: nat,
}

/// The character at offset `i`, or a line feed behind the end of the text.
pub open spec fn char_at(src: Seq<char>, i: int) -> char {
    if 0 <= i < src.len() {
        src[i]
    } else {
        '\n'
    }
}

/// A number that starts at `i`: digits alone are an integer, digits and `u`
/// an unsigned integer, and digits around a point a float, which may end in
/// `f` where a digit stands before the point.
pub open spec fn number_lexeme(src: Seq<char>, i: int) -> Lexeme {
    let whole = run_len(src, i, CharClass::Digit);
    let after = i + whole;
    if char_at(src, after) == '.' && after < src.len() {
        let fraction = run_len(src, after + 1, CharClass::Digit);
        let end = after + 1 + fraction;
        if whole >= 1 && char_at(src, end) == 'f' && end < src.len() {
            Lexeme { kind: Some(TokenKind::FloatConstant), len: whole + 1 + fraction + 1 }
        } else {
            Lexeme { kind: Some(TokenKind::FloatConstant), len: whole + 1 + fraction }
        }
    } else if char_at(src, after) == 'u' && after < src.len() {
        Lexeme { kind: Some(TokenKind::UintConstant), len: whole + 1 }
    } else {
        Lexeme { kind: Some(TokenKind::IntConstant), len: whole }
    }
}

/// An operator or punctuation mark at `i`: two characters where they form
/// one, else one character; an error of one character otherwise.
pub open spec fn mark_lexeme(src: Seq<char>, i: int) -> Lexeme {
    let a = char_at(src, i);
    if i + 1 < src.len() && pair_kind(a, src[i + 1]) is Some {
        Lexeme { kind: pair_kind(a, src[i + 1]), len: 2 }
    } else if single_kind(a) is Some {
        Lexeme { kind: single_kind(a), len: 1 }
    } else {
        Lexeme { kind: Some(TokenKind::Error), len: 1 }
    }
}

/// The lexeme at offset `i` of `src`, for `0 <= i < src.len()`.
pub open spec fn lexeme_at(src: Seq<char>, i: int) -> Lexeme {
    let c = char_at(src, i);
    let next = char_at(src, i + 1);
    if in_class(CharClass::Blank, c) {
        Lexeme { kind: None, len: run_len(src, i, CharClass::Blank) }
    } else if c == '\n' {
        Lexeme { kind: None, len: 1 }
    } else if is_word_start(c) {
        let len = run_len(src, i, CharClass::Word);
        Lexeme { kind: Some(word_kind(src.subrange(i, i + len))), len }
    } else if is_digit(c) || (c == '.' && is_digit(next)) {
        number_lexeme(src, i)
    } else if c == '"' {
        match string_close(src, i, i + 1, None) {
            Some(close) => Lexeme { kind: Some(TokenKind::String), len: (close + 1 - i) as nat },
            None => Lexeme { kind: Some(TokenKind::Error), len: 1 },
        }
    } else if c == '/' && next == '/' {
        Lexeme { kind: None, len: 2 + run_len(src, i + 2, CharClass::InLine) }
    } else if c == '/' && next == '*' && comment_close(src, i + 2) is Some {
        Lexeme { kind: None, len: (comment_close(src, i + 2)->0 - i) as nat }
    } else if c == '#' {
        if i + 8 <= src.len() && src.subrange(i, i + 8) == "#include"@ {
            Lexeme { kind: Some(TokenKind::Include), len: 8 }
        } else {
            Lexeme { kind: Some(TokenKind::Error), len: 1 }
        }
    } else {
        mark_lexeme(src, i)
    }
}

/// The range of the text from offset `from` to offset `to`.
pub open spec fn span_range(src: Seq<char>, from: nat, to: nat) -> Range {
    Range { start: position_of_offset(src, from), end: position_of_offset(src, to) }
}

/// The offset behind the lexeme that starts at `i`; always behind `i` and
/// never behind the end of the text.
pub open spec fn lexeme_end(src: Seq<char>, i: int) -> int {
    let end = i + lexeme_at(src, i).len;
    if end <= i {
        i + 1
    } else if end > src.len() {
        src.len() as int
    } else {
        end
    }
}

/// The tokens of `src` from offset `i` on.
pub open spec fn tokens_from(src: Seq<char>, i: int) -> Seq<Token>
    decreases src.len() - i,
{
    if i < 0 || i >= src.len() {
        Seq::empty()
    } else {
        let end = lexeme_end(src, i);
        let rest = tokens_from(src, end);
        match lexeme_at(src, i).kind {
            Some(kind) => seq![Token { kind, range: span_range(src, i as nat, end as nat) }] + rest,
            None => rest,
        }
    }
}

/// The tokens of a document.
pub open spec fn tokens_of(src: Seq<char>) -> Seq<Token> {
    tokens_from(src, 0)
}

/// The spans of the tokens of `src` from offset `i` on: for each token, the
/// offsets between which it was read.
pub open spec fn spans_from(src: Seq<char>, i: int) -> Seq<(int, int)>
    decreases src.len() - i,
{
    if i < 0 || i >= src.len() {
        Seq::empty()
    } else {
        let end = lexeme_end(src, i);
        let rest = spans_from(src, end);
        match lexeme_at(src, i).kind {
            Some(_) => seq![(i, end)] + rest,
            None => rest,
        }
    }
}

/// The text of a token is what was read: every token of a document covers
/// a span of the document that is not empty, its range names that span,
/// and the text in its range is the text of the span. Spans come in order.
pub proof fn lemma_tokens_cover_their_text(src: Seq<char>, i: int)
    requires
        0 <= i,
        src.len() <= u32::MAX,
    ensures
        tokens_from(src, i).len() == spans_from(src, i).len(),
        forall|k: int|
            0 <= k < spans_from(src, i).len() ==> {
                let (from, to) = #[trigger] spans_from(src, i)[k];
                let token = tokens_from(src, i)[k];
                &&& i <= from < to <= src.len()
                &&& token.range == span_range(src, from as nat, to as nat)
                &&& text_in_range(src, token.range) == src.subrange(from, to)
            },
    decreases src.len() - i,
{
    if i < src.len() {
        lemma_lexeme_in_bounds(src, i);
        let end = lexeme_end(src, i);
        lemma_tokens_cover_their_text(src, end);
        lemma_position_round_trip(src, i as nat);
        lemma_position_round_trip(src, end as nat);
        let rest_spans = spans_from(src, end);
        let rest_tokens = tokens_from(src, end);
        match lexeme_at(src, i).kind {
            Some(kind) => {
                assert forall|k: int| 0 <= k < spans_from(src, i).len() implies {
                    let (from, to) = #[trigger] spans_from(src, i)[k];
                    let token = tokens_from(src, i)[k];
                    &&& i <= from < to <= src.len()
                    &&& token.range == span_range(src, from as nat, to as nat)
                    &&& text_in_range(src, token.range) == src.subrange(from, to)
                } by {
                    if k > 0 {
                        assert(spans_from(src, i)[k] == rest_spans[k - 1]);
                        assert(tokens_from(src, i)[k] == rest_tokens[k - 1]);
                    }
                }
            },
            None => {},
        }
    }
}

/// A run ends inside the text.
pub proof fn lemma_run_in_bounds(src: Seq<char>, i: int, class: CharClass)
    requires
        0 <= i <= src.len(),
    ensures
        i + run_len(src, i, class) <= src.len(),
    decreases src.len() - i,
{
    if i < src.len() && in_class(class, src[i]) {
        lemma_run_in_bounds(src, i + 1, class);
    }
}

/// A closing quote lies behind the opening one and inside the text.
pub proof fn lemma_string_close_in_bounds(src: Seq<char>, open: int, k: int, last: Option<int>)
    requires
        0 <= open < k,
        last is Some ==> open < last->0 < src.len(),
    ensures
        string_close(src, open, k, last) is Some ==> open < string_close(src, open, k, last)->0
            < src.len(),
    decreases src.len() - k,
{
    if k < src.len() {
        if src[k] == '"' {
            if k - 1 > open && src[k - 1] == '\\' {
                lemma_string_close_in_bounds(src, open, k + 1, Some(k));
            }
        } else {
            lemma_string_close_in_bounds(src, open, k + 1, last);
        }
    }
}

/// A block comment closes behind the start of its body and inside the text.
pub proof fn lemma_comment_close_in_bounds(src: Seq<char>, k: int)
    requires
        0 <= k,
    ensures
        comment_close(src, k) is Some ==> k + 2 <= comment_close(src, k)->0 <= src.len(),
    decreases src.len() - k,
{
    if k < src.len() {
        if src[k] != '*' {
            lemma_comment_close_in_bounds(src, k + 1);
        } else if k + 1 < src.len() && src[k + 1] != '/' {
            lemma_comment_close_in_bounds(src, k + 2);
        }
    }
}

/// Every lexeme takes at least one character and ends inside the text: the
/// scanner always moves on and never reads behind the end.
pub proof fn lemma_lexeme_in_bounds(src: Seq<char>, i: int)
    requires
        0 <= i < src.len(),
    ensures
        1 <= lexeme_at(src, i).len,
        i + lexeme_at(src, i).len <= src.len(),
        lexeme_end(src, i) == i + lexeme_at(src, i).len,
{
    lemma_run_in_bounds(src, i, CharClass::Blank);
    lemma_run_in_bounds(src, i, CharClass::Word);
    lemma_run_in_bounds(src, i, CharClass::Digit);
    let whole = run_len(src, i, CharClass::Digit);
    if i + whole < src.len() {
        lemma_run_in_bounds(src, i + whole + 1, CharClass::Digit);
    }
    if i + 2 <= src.len() {
        lemma_run_in_bounds(src, i + 2, CharClass::InLine);
    }
    lemma_string_close_in_bounds(src, i, i + 1, None);
    lemma_comment_close_in_bounds(src, i + 2);
}

fn char_in_class(class: CharClass, c: char) -> (r: bool)
    ensures
        r == in_class(class, c),
{
    match class {
        CharClass::Digit => '0' <= c && c <= '9',
        CharClass::Word => ('a' <= c && c <= 'z') || ('A' <= c && c <= 'Z') || c == '_' || ('0' <= c
            && c <= '9'),
        CharClass::Blank => c == ' ' || c == '\t' || c == '\x0c',
        CharClass::InLine => c != '\n',
    }
}

/// The offset behind the run of `class` that starts at `i`.
fn scan_run(chars: &Vec<char>, i: usize, class: CharClass) -> (end: usize)
    requires
        i <= chars.len(),
    ensures
        end == i + run_len(chars@, i as int, class),
        end <= chars.len(),
{
    let mut k: usize = i;
    while k < chars.len() && char_in_class(class, chars[k])
        invariant
            i <= k <= chars.len(),
            run_len(chars@, i as int, class) == (k - i) + run_len(chars@, k as int, class),
        decreases chars.len() - k,
    {
        k += 1;
    }
    k
}

fn scan_string(chars: &Vec<char>, open: usize) -> (close: Option<usize>)
    requires
        open < chars.len(),
    ensures
        close is Some <==> string_close(chars@, open as int, open + 1, None) is Some,
        close is Some ==> close->0 == string_close(chars@, open as int, open + 1, None)->0,
        close is Some ==> open < close->0 < chars.len(),
{
    let mut k: usize = open + 1;
    let mut last: Option<usize> = None;
    let ghost mut spec_last: Option<int> = None;
    while k < chars.len()
        invariant
            open < k <= chars.len(),
            last is Some <==> spec_last is Some,
            last is Some ==> last->0 == spec_last->0 && open < last->0 < chars.len(),
            string_close(chars@, open as int, open + 1, None) == string_close(
                chars@,
                open as int,
                k as int,
                spec_last,
            ),
        decreases chars.len() - k,
    {
        if chars[k] == '"' {
            if k - 1 > open && chars[k - 1] == '\\' {
                last = Some(k);
                proof {
                    spec_last = Some(k as int);
                }
            } else {
                return Some(k);
            }
        }
        k += 1;
    }
    last
}

fn scan_comment(chars: &Vec<char>, body: usize) -> (close: Option<usize>)
    requires
        body <= chars.len(),
    ensures
        close is Some <==> comment_close(chars@, body as int) is Some,
        close is Some ==> close->0 == comment_close(chars@, body as int)->0,
        close is Some ==> body + 2 <= close->0 <= chars.len(),
{
    proof {
        lemma_comment_close_in_bounds(chars@, body as int);
    }
    let mut k: usize = body;
    while k < chars.len()
        invariant
            body <= k <= chars.len(),
            comment_close(chars@, body as int) == comment_close(chars@, k as int),
        decreases chars.len() - k,
    {
        if chars[k] != '*' {
            k += 1;
        } else if k + 1 >= chars.len() {
            return None;
        } else if chars[k + 1] == '/' {
            return Some(k + 2);
        } else {
            k += 2;
        }
    }
    None
}

fn kind_of_word(word: &str) -> (kind: TokenKind)
    ensures
        kind == word_kind(word@),
{
    if str_eq(word, "shader_type") {
        TokenKind::ShaderType
    } else if str_eq(word, "render_mode") {
        TokenKind::RenderMode
    } else if str_eq(word, "group_uniforms") {
        TokenKind::GroupUniforms
    } else if str_eq(word, "global") {
        TokenKind::Global
    } else if str_eq(word, "instance") {
        TokenKind::Instance
    } else if str_eq(word, "const") {
        TokenKind::Const
    } else if str_eq(word, "uniform") {
        TokenKind::Uniform
    } else if str_eq(word, "varying") {
        TokenKind::Varying
    } else if str_eq(word, "struct") {
        TokenKind::Struct
    } else if str_eq(word, "void") {
        TokenKind::Void
    } else if str_eq(word, "break") {
        TokenKind::Break
    } else if str_eq(word, "continue") {
        TokenKind::Continue
    } else if str_eq(word, "while") {
        TokenKind::While
    } else if str_eq(word, "do") {
        TokenKind::Do
    } else if str_eq(word, "else") {
        TokenKind::Else
    } else if str_eq(word, "for") {
        TokenKind::For
    } else if str_eq(word, "if") {
        TokenKind::If
    } else if str_eq(word, "discard") {
        TokenKind::Discard
    } else if str_eq(word, "return") {
        TokenKind::Return
    } else if str_eq(word, "switch") {
        TokenKind::Switch
    } else if str_eq(word, "case") {
        TokenKind::Case
    } else if str_eq(word, "default") {
        TokenKind::Default
    } else if str_eq(word, "in") {
        TokenKind::In
    } else if str_eq(word, "out") {
        TokenKind::Out
    } else if str_eq(word, "inout") {
        TokenKind::InOut
    } else if str_eq(word, "flat") {
        TokenKind::Interpolation
    } else if str_eq(word, "smooth") {
        TokenKind::Interpolation
    } else if str_eq(word, "lowp") {
        TokenKind::Precision
    } else if str_eq(word, "mediump") {
        TokenKind::Precision
    } else if str_eq(word, "highp") {
        TokenKind::Precision
    } else if str_eq(word, "true") {
        TokenKind::BoolConstant
    } else if str_eq(word, "false") {
        TokenKind::BoolConstant
    } else {
        TokenKind::Identifier
    }
}

fn kind_of_pair(a: char, b: char) -> (kind: Option<TokenKind>)
    ensures
        kind == pair_kind(a, b),
{
    if a == '+' && b == '=' {
        Some(TokenKind::AddAssign)
    } else if a == '-' && b == '=' {
        Some(TokenKind::SubAssign)
    } else if a == '*' && b == '=' {
        Some(TokenKind::MulAssign)
    } else if a == '/' && b == '=' {
        Some(TokenKind::DivAssign)
    } else if a == '%' && b == '=' {
        Some(TokenKind::ModAssign)
    } else if a == '+' && b == '+' {
        Some(TokenKind::Increment)
    } else if a == '-' && b == '-' {
        Some(TokenKind::Decrement)
    } else if a == '&' && b == '&' {
        Some(TokenKind::And)
    } else if a == '|' && b == '|' {
        Some(TokenKind::Or)
    } else if a == '<' && b == '<' {
        Some(TokenKind::LeftOp)
    } else if a == '>' && b == '>' {
        Some(TokenKind::RightOp)
    } else if a == '<' && b == '=' {
        Some(TokenKind::LeqOp)
    } else if a == '>' && b == '=' {
        Some(TokenKind::GeqOp)
    } else if a == '=' && b == '=' {
        Some(TokenKind::EqOp)
    } else if a == '!' && b == '=' {
        Some(TokenKind::NeqOp)
    } else {
        None
    }
}

fn kind_of_single(a: char) -> (kind: Option<TokenKind>)
    ensures
        kind == single_kind(a),
{
    if a == '=' {
        Some(TokenKind::Equal)
    } else if a == '!' {
        Some(TokenKind::Bang)
    } else if a == '-' {
        Some(TokenKind::Dash)
    } else if a == '~' {
        Some(TokenKind::Tilde)
    } else if a == '+' {
        Some(TokenKind::Plus)
    } else if a == '*' {
        Some(TokenKind::Star)
    } else if a == '/' {
        Some(TokenKind::Slash)
    } else if a == '%' {
        Some(TokenKind::Percent)
    } else if a == '<' {
        Some(TokenKind::LeftAngle)
    } else if a == '>' {
        Some(TokenKind::RightAngle)
    } else if a == '|' {
        Some(TokenKind::VerticalBar)
    } else if a == '^' {
        Some(TokenKind::Caret)
    } else if a == '&' {
        Some(TokenKind::Ampersand)
    } else if a == '?' {
        Some(TokenKind::Question)
    } else if a == '(' {
        Some(TokenKind::LeftParen)
    } else if a == ')' {
        Some(TokenKind::RightParen)
    } else if a == '[' {
        Some(TokenKind::LeftBracket)
    } else if a == ']' {
        Some(TokenKind::RightBracket)
    } else if a == '{' {
        Some(TokenKind::LeftBrace)
    } else if a == '}' {
        Some(TokenKind::RightBrace)
    } else if a == '.' {
        Some(TokenKind::Dot)
    } else if a == ',' {
        Some(TokenKind::Comma)
    } else if a == ':' {
        Some(TokenKind::Colon)
    } else if a == ';' {
        Some(TokenKind::Semicolon)
    } else {
        None
    }
}

fn scan_number(chars: &Vec<char>, i: usize) -> (r: (Option<TokenKind>, usize))
    requires
        i < chars.len(),
        is_digit(chars@[i as int]) || (chars@[i as int] == '.' && is_digit(
            char_at(chars@, i + 1),
        )),
    ensures
        r.0 == number_lexeme(chars@, i as int).kind,
        r.1 == i + number_lexeme(chars@, i as int).len,
        i < r.1 <= chars.len(),
{
    let after = scan_run(chars, i, CharClass::Digit);
    if after < chars.len() && chars[after] == '.' {
        let end = scan_run(chars, after + 1, CharClass::Digit);
        if after > i && end < chars.len() && chars[end] == 'f' {
            (Some(TokenKind::FloatConstant), end + 1)
        } else {
            (Some(TokenKind::FloatConstant), end)
        }
    } else if after < chars.len() && chars[after] == 'u' {
        (Some(TokenKind::UintConstant), after + 1)
    } else {
        (Some(TokenKind::IntConstant), after)
    }
}

fn scan_mark(chars: &Vec<char>, i: usize) -> (r: (Option<TokenKind>, usize))
    requires
        i < chars.len(),
    ensures
        r.0 == mark_lexeme(chars@, i as int).kind,
        r.1 == i + mark_lexeme(chars@, i as int).len,
        i < r.1 <= chars.len(),
{
    let a = chars[i];
    if i + 1 < chars.len() {
        let pair = kind_of_pair(a, chars[i + 1]);
        if pair.is_some() {
            return (pair, i + 2);
        }
    }
    let single = kind_of_single(a);
    if single.is_some() {
        (single, i + 1)
    } else {
        (Some(TokenKind::Error), i + 1)
    }
}

/// The kind of the lexeme at `i` and the offset behind it.
fn scan_lexeme(chars: &Vec<char>, i: usize) -> (r: (Option<TokenKind>, usize))
    requires
        i < chars.len(),
    ensures
        r.0 == lexeme_at(chars@, i as int).kind,
        r.1 == i + lexeme_at(chars@, i as int).len,
        r.1 == lexeme_end(chars@, i as int),
        i < r.1 <= chars.len(),
{
    proof {
        lemma_lexeme_in_bounds(chars@, i as int);
    }
    let c = chars[i];
    let has_next = i + 1 < chars.len();
    let next = if has_next {
        chars[i + 1]
    } else {
        '\n'
    };
    if char_in_class(CharClass::Blank, c) {
        (None, scan_run(chars, i, CharClass::Blank))
    } else if c == '\n' {
        (None, i + 1)
    } else if ('a' <= c && c <= 'z') || ('A' <= c && c <= 'Z') || c == '_' {
        let end = scan_run(chars, i, CharClass::Word);
        let word = string_from_chars(chars, i, end);
        (Some(kind_of_word(word.as_str())), end)
    } else if ('0' <= c && c <= '9') || (c == '.' && '0' <= next && next <= '9') {
        scan_number(chars, i)
    } else if c == '"' {
        match scan_string(chars, i) {
            Some(close) => (Some(TokenKind::String), close + 1),
            None => (Some(TokenKind::Error), i + 1),
        }
    } else if c == '/' && next == '/' {
        (None, scan_run(chars, i + 2, CharClass::InLine))
    } else if c == '/' && next == '*' {
        match scan_comment(chars, i + 2) {
            Some(close) => (None, close),
            None => scan_mark(chars, i),
        }
    } else if c == '#' {
        if chars.len() - i >= 8 {
            let word = string_from_chars(chars, i, i + 8);
            if str_eq(word.as_str(), "#include") {
                return (Some(TokenKind::Include), i + 8);
            }
        }
        (Some(TokenKind::Error), i + 1)
    } else {
        scan_mark(chars, i)
    }
}

/// A place in the text together with its line and the start of that line.
struct LineCursor {
    offset: usize,
    line: usize,
    line_start: usize,
}

impl LineCursor {
    spec fn tracks(self, src: Seq<char>) -> bool {
        &&& self.offset <= src.len()
        &&& self.line == line_starts_upto(src, self.offset as nat).len() - 1
        &&& self.line_start == line_starts_upto(src, self.offset as nat).last()
        &&& self.line_start <= self.offset
        &&& self.line <= self.offset
    }

    fn position(&self, Ghost(src): Ghost<Seq<char>>) -> (p: Position)
        requires
            self.tracks(src),
        ensures
            p == position_of_offset(src, self.offset as nat),
    {
        let column = self.offset - self.line_start;
        let line: u32 = if self.line > 0xffff_ffff {
            0xffff_ffff
        } else {
            self.line as u32
        };
        let character: u32 = if column > 0xffff_ffff {
            0xffff_ffff
        } else {
            column as u32
        };
        Position { line, character }
    }

    fn move_to(&mut self, chars: &Vec<char>, target: usize)
        requires
            old(self).tracks(chars@),
            old(self).offset <= target <= chars.len(),
        ensures
            final(self).tracks(chars@),
            final(self).offset == target,
    {
        while self.offset < target
            invariant
                self.tracks(chars@),
                self.offset <= target <= chars.len(),
            decreases target - self.offset,
        {
            if chars[self.offset] == '\n' {
                self.line = self.line + 1;
                self.line_start = self.offset + 1;
            }
            self.offset = self.offset + 1;
        }
    }
}

/// Splits a document into its tokens.
pub fn tokenize(chars: &Vec<char>) -> (tokens: Vec<Token>)
    ensures
        tokens@ == tokens_of(chars@),
{
    let mut tokens: Vec<Token> = Vec::new();
    let mut cursor = LineCursor { offset: 0, line: 0, line_start: 0 };
    let mut i: usize = 0;
    assert(tokens@ + tokens_from(chars@, 0) =~= tokens_of(chars@));
    while i < chars.len()
        invariant
            i <= chars.len(),
            cursor.tracks(chars@),
            cursor.offset == i,
            tokens@ + tokens_from(chars@, i as int) == tokens_of(chars@),
        decreases chars.len() - i,
    {
        let (kind, end) = scan_lexeme(chars, i);
        let start = cursor.position(Ghost(chars@));
        cursor.move_to(chars, end);
        let ghost before = tokens@;
        if let Some(kind) = kind {
            let stop = cursor.position(Ghost(chars@));
            tokens.push(Token { kind, range: Range { start, end: stop } });
        }
        assert(tokens@ + tokens_from(chars@, end as int) =~= before + tokens_from(
            chars@,
            i as int,
        ));
        i = end;
    }
    assert(tokens@ + tokens_from(chars@, i as int) =~= tokens@);
    tokens
}

} // verus!

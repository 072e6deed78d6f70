//! The parser: one function per production of the grammar, reading from a
//! token stream and recording what does not fit.
//!
//! Every production is specified by a function on the value of the stream
//! that gives the stream behind the production and what was read. A
//! production that nests another of its own kind spends one level of the
//! stream's nesting budget; input that nests deeper than the budget allows
//! is a syntax error.
//!
//! What repeats is specified by a function that calls itself once for every
//! turn, and only as long as a turn has moved the stream on: that is what
//! makes it a definition. The executable productions prove that every turn
//! does move the stream on, so a loop never ends for want of progress.

use vstd::prelude::*;
use vstd::string::*;
use crate::completion::{CompletionElement, SpecCompletionElement};
use crate::lexer::operations::{assignment_op_of, binary_op_of, unary_op_of};
use crate::lexer::token::{kind_name, Token, TokenKind};
use crate::lexer::token_stream::{SpecTokenStream, TokenError, TokenResult, TokenStream};
use crate::lexer::scanner::is_digit;
use crate::memory::functions::is_qualifier_kind;
use crate::memory::types::{is_constant_kind, SpecTypeInfo, TypeInfo};
use crate::nodes::{SpecTypeNode, SpecValueNode, TypeNode, ValueNode};
use crate::position::Range;
use crate::text::to_chars;

pub mod expression;
pub mod statement;
pub mod top_level_parser;

pub use expression::{
    parse_array_access_expression, parse_array_literal_expression, parse_assignment_expression,
    parse_binary_expression, parse_call_expression, parse_conditional_expression,
    parse_expression, parse_expression_priority, parse_identifier_expression,
    parse_increment_expression, parse_member_access_expression, parse_parenthetical_expression,
    parse_unary_expression,
};
pub use statement::{
    parse_block, parse_expression_statement, parse_for_statement, parse_identifier_statement,
    parse_if_statement, parse_return_statement, parse_statement, parse_switch_case,
    parse_switch_statement, parse_var_declaration_statement, parse_while_statement,
};
pub use top_level_parser::{
    parse_const, parse_function, parse_function_arg, parse_group_uniforms, parse_list,
    parse_render_mode, parse_shader_type, parse_struct, parse_top_level, parse_uniform,
    parse_varying,
};

verus! {

/// Whether a separator may, must or must not stand behind the last item of
/// a list.
#[derive(Clone, Copy, Debug, PartialEq, Eq, Structural)]
pub enum Trailing {
    Enforced,
    Optional,
    Disallowed,
}

/// The view of a result: the view of what was read, or the error.
pub open spec fn read<T: View>(r: Result<T, TokenError>) -> Result<T::V, TokenError> {
    match r {
        Ok(x) => Ok(x@),
        Err(e) => Err(e),
    }
}

/// `parse_kind`: nothing is offered for completion at a token that must be
/// of one kind.
pub open spec fn p_kind(s: SpecTokenStream, kind: TokenKind) -> (SpecTokenStream, TokenResult) {
    s.queued(SpecCompletionElement::Nothing).expect(kind)
}

/// Reads a token that must be of kind `kind`.
pub fn parse_kind(stream: &mut TokenStream, kind: TokenKind) -> (r: TokenResult)
    ensures
        (final(stream)@, r) == p_kind(old(stream)@, kind),
        final(stream).depth == old(stream).depth,
        old(stream)@.leads_to(final(stream)@),
        r is Ok ==> final(stream)@.idx > old(stream)@.idx,
{
    stream.queue_cursor_element(CompletionElement::Nothing);
    stream.consume_token_kind(kind)
}

/// Takes the current token if it is of kind `kind`.
pub fn parse_conditional(stream: &mut TokenStream, kind: TokenKind) -> (r: Option<Token>)
    ensures
        (final(stream)@, r) == old(stream)@.consume_kind(kind),
        final(stream).depth == old(stream).depth,
        old(stream)@.leads_to(final(stream)@),
        r is Some ==> final(stream)@.idx > old(stream)@.idx,
{
    stream.consume_kind(kind)
}

/// Reads a semicolon.
pub fn parse_semicolon(stream: &mut TokenStream) -> (r: TokenResult)
    ensures
        (final(stream)@, r) == old(stream)@.expect(TokenKind::Semicolon),
        final(stream).depth == old(stream).depth,
        old(stream)@.leads_to(final(stream)@),
        r is Ok ==> final(stream)@.idx > old(stream)@.idx,
{
    stream.consume_token_kind(TokenKind::Semicolon)
}

/// Reads an identifier.
pub fn parse_identifier(stream: &mut TokenStream) -> (r: TokenResult)
    ensures
        (final(stream)@, r) == old(stream)@.expect(TokenKind::Identifier),
        final(stream).depth == old(stream).depth,
        old(stream)@.leads_to(final(stream)@),
        r is Ok ==> final(stream)@.idx > old(stream)@.idx,
{
    stream.consume_token_kind(TokenKind::Identifier)
}

/// Takes a literal constant if one stands there.
pub fn parse_primitive(stream: &mut TokenStream) -> (r: Option<Token>)
    ensures
        (final(stream)@, r) == old(stream)@.consume_where(|k: TokenKind| is_constant_kind(k)),
        final(stream).depth == old(stream).depth,
        old(stream)@.leads_to(final(stream)@),
        r is Some ==> final(stream)@.idx > old(stream)@.idx && is_constant_kind(r->0.kind),
{
    match stream.current() {
        Ok(x) => match x.kind {
            TokenKind::BoolConstant
            | TokenKind::IntConstant
            | TokenKind::UintConstant
            | TokenKind::FloatConstant => {
                stream.advance();
                Some(x)
            },
            _ => None,
        },
        _ => None,
    }
}

/// `parse_qualifier`: the qualifiers are offered for completion, and one is
/// taken if it stands there.
pub open spec fn p_qualifier(s: SpecTokenStream) -> (SpecTokenStream, Option<Token>) {
    s.queued(SpecCompletionElement::FunctionQualifier).consume_where(
        |k: TokenKind| is_qualifier_kind(k),
    )
}

/// Takes a parameter qualifier if one stands there.
pub fn parse_qualifier(stream: &mut TokenStream) -> (r: Option<Token>)
    ensures
        (final(stream)@, r) == p_qualifier(old(stream)@),
        final(stream).depth == old(stream).depth,
        old(stream)@.leads_to(final(stream)@),
        r is Some ==> is_qualifier_kind(r->0.kind),
{
    stream.queue_cursor_element(CompletionElement::FunctionQualifier);
    match stream.current() {
        Ok(x) => match x.kind {
            TokenKind::In | TokenKind::Out | TokenKind::InOut => {
                stream.advance();
                Some(x)
            },
            _ => None,
        },
        _ => None,
    }
}

/// Takes a binary operator if one stands there.
pub fn parse_binary_operation(stream: &mut TokenStream) -> (r: Option<Token>)
    ensures
        (final(stream)@, r) == old(stream)@.consume_where(
            |k: TokenKind| binary_op_of(k) is Some,
        ),
        final(stream).depth == old(stream).depth,
        old(stream)@.leads_to(final(stream)@),
        r is Some ==> final(stream)@.idx > old(stream)@.idx && binary_op_of(r->0.kind) is Some,
{
    match stream.current() {
        Ok(x) => {
            if crate::lexer::operations::MaybeOperator::to_binary_op(&x).is_some() {
                stream.advance();
                Some(x)
            } else {
                None
            }
        },
        _ => None,
    }
}

/// Takes a prefix operator if one stands there.
pub fn parse_unary_operation(stream: &mut TokenStream) -> (r: Option<Token>)
    ensures
        (final(stream)@, r) == old(stream)@.consume_where(|k: TokenKind| unary_op_of(k) is Some),
        final(stream).depth == old(stream).depth,
        old(stream)@.leads_to(final(stream)@),
        r is Some ==> final(stream)@.idx > old(stream)@.idx && unary_op_of(r->0.kind) is Some,
{
    match stream.current() {
        Ok(x) => {
            if crate::lexer::operations::MaybeOperator::to_unary_op(&x).is_some() {
                stream.advance();
                Some(x)
            } else {
                None
            }
        },
        _ => None,
    }
}

/// Takes an assignment operator if one stands there.
pub fn parse_assignment_operation(stream: &mut TokenStream) -> (r: Option<Token>)
    ensures
        (final(stream)@, r) == old(stream)@.consume_where(
            |k: TokenKind| assignment_op_of(k) is Some,
        ),
        final(stream).depth == old(stream).depth,
        old(stream)@.leads_to(final(stream)@),
        r is Some ==> final(stream)@.idx > old(stream)@.idx && assignment_op_of(r->0.kind)
            is Some,
{
    match stream.current() {
        Ok(x) => {
            if crate::lexer::operations::MaybeOperator::to_assignment_op(&x).is_some() {
                stream.advance();
                Some(x)
            } else {
                None
            }
        },
        _ => None,
    }
}

/// Whether a token kind is `++` or `--`.
pub open spec fn is_increment_kind(kind: TokenKind) -> bool {
    kind == TokenKind::Increment || kind == TokenKind::Decrement
}

/// Takes `++` or `--` if one stands there.
pub fn parse_increment_operation(stream: &mut TokenStream) -> (r: Option<Token>)
    ensures
        (final(stream)@, r) == old(stream)@.consume_where(|k: TokenKind| is_increment_kind(k)),
        final(stream).depth == old(stream).depth,
        old(stream)@.leads_to(final(stream)@),
        r is Some ==> final(stream)@.idx > old(stream)@.idx,
{
    match stream.current() {
        Ok(x) => match x.kind {
            TokenKind::Increment | TokenKind::Decrement => {
                stream.advance();
                Some(x)
            },
            _ => None,
        },
        _ => None,
    }
}

/// Whether a token kind is that of an integer literal.
pub open spec fn is_int_kind(kind: TokenKind) -> bool {
    kind == TokenKind::IntConstant || kind == TokenKind::UintConstant
}

/// Whether a token kind is that of a number literal.
pub open spec fn is_number_kind(kind: TokenKind) -> bool {
    is_int_kind(kind) || kind == TokenKind::FloatConstant
}

/// Reads an integer literal.
pub fn parse_int(stream: &mut TokenStream) -> (r: Result<Token, TokenError>)
    ensures
        (final(stream)@, r) == old(stream)@.expect_where(
            |k: TokenKind| is_int_kind(k),
            "Expected integer constant."@,
        ),
        final(stream).depth == old(stream).depth,
        old(stream)@.leads_to(final(stream)@),
        r is Ok ==> final(stream)@.idx > old(stream)@.idx,
{
    let current = stream.current()?;
    match current.kind {
        TokenKind::IntConstant | TokenKind::UintConstant => stream.consume(),
        _ => Err(stream.alert_error("Expected integer constant.", current.range)),
    }
}

/// Reads a number literal.
pub fn parse_number(stream: &mut TokenStream) -> (r: Result<Token, TokenError>)
    ensures
        (final(stream)@, r) == old(stream)@.expect_where(
            |k: TokenKind| is_number_kind(k),
            "Expected number"@,
        ),
        final(stream).depth == old(stream).depth,
        old(stream)@.leads_to(final(stream)@),
        r is Ok ==> final(stream)@.idx > old(stream)@.idx,
{
    let current = stream.current()?;
    match current.kind {
        TokenKind::IntConstant | TokenKind::UintConstant | TokenKind::FloatConstant => {
            stream.consume()
        },
        _ => Err(stream.alert_error("Expected number", current.range)),
    }
}

/// The number that the first `n` characters of `digits` write in decimal,
/// if all of them are digits.
pub open spec fn digits_value(digits: Seq<char>, n: nat) -> Option<nat>
    decreases n,
{
    if n == 0 {
        Some(0nat)
    } else if n > digits.len() || !is_digit(digits[n - 1]) {
        None
    } else {
        match digits_value(digits, (n - 1) as nat) {
            Some(v) => Some(v * 10 + ((digits[n - 1] as u32 - '0' as u32) as nat)),
            None => None,
        }
    }
}

/// The `u32` that `digits` writes in decimal: there must be a digit, only
/// digits, and the number must fit.
pub open spec fn number_of(digits: Seq<char>) -> Option<u32> {
    if digits.len() == 0 {
        None
    } else {
        match digits_value(digits, digits.len()) {
            Some(v) => if v <= u32::MAX {
                Some(v as u32)
            } else {
                None
            },
            None => None,
        }
    }
}

/// A number never shrinks when more digits are read.
pub proof fn lemma_digits_grow(digits: Seq<char>, n: nat, m: nat)
    requires
        n <= m,
        digits_value(digits, m) is Some,
    ensures
        digits_value(digits, n) is Some,
        digits_value(digits, n)->0 <= digits_value(digits, m)->0,
    decreases m,
{
    if n < m {
        lemma_digits_grow(digits, n, (m - 1) as nat);
    }
}

/// Reads `chars[..len]` as a decimal number.
fn read_number(chars: &Vec<char>, len: usize) -> (r: Option<u32>)
    requires
        len <= chars.len(),
    ensures
        r == number_of(chars@.subrange(0, len as int)),
{
    let ghost digits = chars@.subrange(0, len as int);
    if len == 0 {
        return None;
    }
    let mut value: u64 = 0;
    let mut i: usize = 0;
    while i < len
        invariant
            i <= len <= chars.len(),
            digits == chars@.subrange(0, len as int),
            digits_value(digits, i as nat) == Some(value as nat),
            value <= u32::MAX,
        decreases len - i,
    {
        let c = chars[i];
        assert(digits[i as int] == c);
        if !('0' <= c && c <= '9') {
            proof {
                if digits_value(digits, len as nat) is Some {
                    lemma_digits_grow(digits, (i + 1) as nat, len as nat);
                }
            }
            return None;
        }
        let digit = (c as u32 - '0' as u32) as u64;
        value = value * 10 + digit;
        if value > 0xffff_ffff {
            proof {
                if digits_value(digits, len as nat) is Some {
                    lemma_digits_grow(digits, (i + 1) as nat, len as nat);
                }
            }
            return None;
        }
        i += 1;
    }
    Some(value as u32)
}

/// The number that a token writes: the text of an integer literal, and
/// that of an unsigned literal without its last character.
pub open spec fn token_number(s: SpecTokenStream, token: Token) -> Option<u32> {
    let text = s.token_text(token);
    if token.kind == TokenKind::IntConstant {
        number_of(text)
    } else if token.kind == TokenKind::UintConstant && text.len() >= 1 {
        number_of(text.subrange(0, text.len() - 1))
    } else {
        None
    }
}

/// `parse_positive_int`: an integer literal that writes a `u32` is taken
/// and gives its number; anything else stays.
pub open spec fn p_positive_int(s: SpecTokenStream) -> (SpecTokenStream, Option<u32>) {
    match s.current() {
        Ok(t) => match token_number(s, t) {
            Some(n) => (s.advance(), Some(n)),
            None => (s, None),
        },
        Err(_) => (s, None),
    }
}

/// Takes an integer literal that writes a `u32` and gives its number.
pub fn parse_positive_int(stream: &mut TokenStream) -> (r: Option<u32>)
    ensures
        (final(stream)@, r) == p_positive_int(old(stream)@),
        final(stream).depth == old(stream).depth,
        old(stream)@.leads_to(final(stream)@),
        r is Some ==> final(stream)@.idx > old(stream)@.idx,
{
    let current = match stream.current() {
        Ok(t) => t,
        Err(_) => {
            return None;
        },
    };
    let text = stream.get_source().text_at(current.range);
    let chars = to_chars(text.as_str());
    let number = match current.kind {
        TokenKind::IntConstant => {
            assert(chars@.subrange(0, chars@.len() as int) =~= chars@);
            read_number(&chars, chars.len())
        },
        TokenKind::UintConstant => {
            if chars.len() >= 1 {
                read_number(&chars, chars.len() - 1)
            } else {
                None
            }
        },
        _ => None,
    };
    match number {
        Some(x) => stream.advance_with(Some(x)),
        None => None,
    }
}

/// `parse_size`: an opening bracket starts an array size, which must be a
/// positive integer literal and be closed by a bracket; gives the size with
/// the range of the literal, or size 0 where no bracket stands.
pub open spec fn p_size(s: SpecTokenStream) -> (
    SpecTokenStream,
    Result<(u32, Option<Range>), TokenError>,
) {
    let (s1, bracket) = s.consume_kind(TokenKind::LeftBracket);
    if bracket is None {
        (s1, Ok((0u32, None)))
    } else {
        match s1.current() {
            Err(e) => (s1, Err(e)),
            Ok(t) => {
                let (s2, number) = p_positive_int(s1);
                if number is None || number->0 == 0 {
                    (
                        s2.alert("Expected positive integer constant."@, t.range),
                        Err(TokenError::SyntaxError),
                    )
                } else {
                    let (s3, closed) = p_kind(s2, TokenKind::RightBracket);
                    match closed {
                        Ok(_) => (s3, Ok((number->0, Some(t.range)))),
                        Err(e) => (s3, Err(e)),
                    }
                }
            },
        }
    }
}

/// Reads an array size in brackets, if one stands there.
pub fn parse_size(stream: &mut TokenStream) -> (r: Result<(u32, Option<Range>), TokenError>)
    ensures
        (final(stream)@, r) == p_size(old(stream)@),
        final(stream).depth == old(stream).depth,
        old(stream)@.leads_to(final(stream)@),
{
    if stream.consume_kind(TokenKind::LeftBracket).is_some() {
        let range = stream.current()?.range;
        let size = match parse_positive_int(stream) {
            Some(x) => if x == 0 {
                None
            } else {
                Some(x)
            },
            None => None,
        };
        match size {
            None => Err(stream.alert_error("Expected positive integer constant.", range)),
            Some(x) => {
                parse_kind(stream, TokenKind::RightBracket)?;
                Ok((x, Some(range)))
            },
        }
    } else {
        Ok((0, None))
    }
}

/// The end of the range of a size, or `otherwise` where there is none.
pub open spec fn end_of(size_range: Option<Range>, otherwise: Range) -> crate::position::Position {
    match size_range {
        Some(r) => r.end,
        None => otherwise.end,
    }
}

/// `parse_type`: a name, and an array size if one follows.
pub open spec fn p_type(s: SpecTokenStream) -> (SpecTokenStream, Result<SpecTypeNode, TokenError>) {
    let (s1, id) = s.expect(TokenKind::Identifier);
    match id {
        Err(e) => (s1, Err(e)),
        Ok(id) => {
            let (s2, size) = p_size(s1);
            match size {
                Err(e) => (s2, Err(e)),
                Ok((size, size_range)) => (
                    s2,
                    Ok(
                        SpecTypeNode {
                            info: SpecTypeInfo { base: s2.token_text(id), size },
                            range: Range { start: id.range.start, end: end_of(size_range, id.range) },
                        },
                    ),
                ),
            }
        },
    }
}

/// Reads a type.
pub fn parse_type(stream: &mut TokenStream) -> (r: Result<TypeNode, TokenError>)
    ensures
        (final(stream)@, read(r)) == p_type(old(stream)@),
        final(stream).depth == old(stream).depth,
        old(stream)@.leads_to(final(stream)@),
        r is Ok ==> final(stream)@.idx > old(stream)@.idx,
{
    let id = parse_identifier(stream)?;
    let (size, size_range) = parse_size(stream)?;
    let end = match size_range {
        Some(x) => x.end,
        None => id.range.end,
    };
    let range = Range::new(id.range.start, end);
    let base = stream.get_source().text_at(id.range);
    Ok(TypeNode { info: TypeInfo { base, size }, range })
}

/// `parse_value_specifier`: a type and a name; the array size may stand
/// behind either, not behind both.
pub open spec fn p_value_specifier(s: SpecTokenStream) -> (
    SpecTokenStream,
    Result<SpecValueNode, TokenError>,
) {
    let (s1, ty) = p_type(s);
    match ty {
        Err(e) => (s1, Err(e)),
        Ok(ty) => {
            let (s2, id) = s1.queued(SpecCompletionElement::Nothing).expect(TokenKind::Identifier);
            match id {
                Err(e) => (s2, Err(e)),
                Ok(id) => {
                    let (s3, size) = p_size(s2);
                    match size {
                        Err(e) => (s3, Err(e)),
                        Ok((size, size_range)) => {
                            let range = Range {
                                start: ty.range.start,
                                end: end_of(size_range, id.range),
                            };
                            if size != 0 && ty.info.size != 0 {
                                (
                                    s3.alert("Array size cannot be defined twice."@, range),
                                    Err(TokenError::SyntaxError),
                                )
                            } else {
                                (
                                    s3,
                                    Ok(
                                        SpecValueNode {
                                            identifier: id,
                                            type_node: SpecTypeNode {
                                                info: SpecTypeInfo {
                                                    base: ty.info.base,
                                                    size: if size != 0 {
                                                        size
                                                    } else {
                                                        ty.info.size
                                                    },
                                                },
                                                range: ty.range,
                                            },
                                            range,
                                        },
                                    ),
                                )
                            }
                        },
                    }
                },
            }
        },
    }
}

/// Reads a typed name.
pub fn parse_value_specifier(stream: &mut TokenStream) -> (r: Result<ValueNode, TokenError>)
    ensures
        (final(stream)@, read(r)) == p_value_specifier(old(stream)@),
        final(stream).depth == old(stream).depth,
        old(stream)@.leads_to(final(stream)@),
        r is Ok ==> final(stream)@.idx > old(stream)@.idx,
{
    let mut type_node = parse_type(stream)?;
    stream.queue_cursor_element(CompletionElement::Nothing);
    let identifier = parse_identifier(stream)?;
    let (other_size, other_size_range) = parse_size(stream)?;
    let end = match other_size_range {
        Some(x) => x.end,
        None => identifier.range.end,
    };
    let range = Range::new(type_node.range.start, end);
    if other_size != 0 {
        if type_node.info.size != 0 {
            let message = "Array size cannot be defined twice.";
            return Err(stream.alert_error(message, range));
        } else {
            type_node.info.size = other_size;
        }
    }
    Ok(ValueNode { identifier, type_node, range })
}

/// What a list does next.
pub enum ListTurn {
    /// The list is complete.
    Done(SpecTokenStream),
    /// The input ended inside the list.
    Ended(SpecTokenStream),
    /// An item is to be read.
    Item(SpecTokenStream),
    /// The list goes on, with an item to come.
    Next(SpecTokenStream),
}

/// The message for something else than a separator behind an item.
pub open spec fn separator_message(separator: TokenKind, stop: TokenKind, trailing: Trailing)
    -> Seq<char> {
    match trailing {
        Trailing::Enforced => "Expected "@ + kind_name(separator),
        _ => "Expected "@ + kind_name(separator) + " or "@ + kind_name(stop),
    }
}

/// What a list does at the current token. Behind an item
/// (`after_item`), the closing token ends the list, which is an error
/// where a separator must come first; the separator is passed; anything
/// else is an error, with the list going on as if the separator stood
/// there. Before an item, the closing token ends the list, which is an
/// error where no separator may stand behind the last item.
pub open spec fn list_turn(
    s: SpecTokenStream,
    separator: TokenKind,
    stop: TokenKind,
    trailing: Trailing,
    after_item: bool,
) -> ListTurn {
    match s.current() {
        Err(_) => ListTurn::Ended(s),
        Ok(t) => if after_item {
            if t.kind == stop {
                if trailing == Trailing::Enforced {
                    ListTurn::Done(s.alert(separator_message(separator, stop, trailing), t.range))
                } else {
                    ListTurn::Done(s)
                }
            } else if t.kind == separator {
                ListTurn::Next(s.advance())
            } else {
                ListTurn::Next(s.alert(separator_message(separator, stop, trailing), t.range))
            }
        } else {
            if t.kind == stop {
                if trailing == Trailing::Disallowed {
                    ListTurn::Done(s.alert("Unexpected "@ + kind_name(stop), t.range))
                } else {
                    ListTurn::Done(s)
                }
            } else {
                ListTurn::Item(s)
            }
        },
    }
}

/// What a list does next, as the parser sees it.
pub enum Turn {
    Done,
    Ended,
    Item,
    Next,
}

/// Whether the step that the parser took is the step that the list takes.
pub open spec fn turned(turn: Turn, after: SpecTokenStream, expected: ListTurn) -> bool {
    match expected {
        ListTurn::Done(s) => turn is Done && after == s,
        ListTurn::Ended(s) => turn is Ended && after == s,
        ListTurn::Item(s) => turn is Item && after == s,
        ListTurn::Next(s) => turn is Next && after == s,
    }
}

/// Takes the step that a list takes at the current token.
pub fn turn_list(
    stream: &mut TokenStream,
    separator: TokenKind,
    stop: TokenKind,
    trailing: Trailing,
    after_item: bool,
) -> (r: Turn)
    ensures
        turned(r, final(stream)@, list_turn(old(stream)@, separator, stop, trailing, after_item)),
        final(stream).depth == old(stream).depth,
        old(stream)@.leads_to(final(stream)@),
        r is Item ==> final(stream)@ == old(stream)@ && old(stream)@.idx < old(
            stream,
        )@.tokens.len(),
{
    let t = match stream.current() {
        Ok(t) => t,
        Err(_) => {
            return Turn::Ended;
        },
    };
    if after_item {
        if t.kind == stop {
            if let Trailing::Enforced = trailing {
                let message = concat_expected(separator, stop, trailing);
                stream.alert_error(message.as_str(), t.range);
            }
            Turn::Done
        } else if t.kind == separator {
            stream.advance();
            Turn::Next
        } else {
            let message = concat_expected(separator, stop, trailing);
            stream.alert_error(message.as_str(), t.range);
            Turn::Next
        }
    } else {
        if t.kind == stop {
            if let Trailing::Disallowed = trailing {
                let message = crate::text::concat2("Unexpected ", stop.as_ref());
                stream.alert_error(message.as_str(), t.range);
            }
            Turn::Done
        } else {
            Turn::Item
        }
    }
}

fn concat_expected(separator: TokenKind, stop: TokenKind, trailing: Trailing) -> (r: String)
    ensures
        r@ == separator_message(separator, stop, trailing),
{
    match trailing {
        Trailing::Enforced => crate::text::concat2("Expected ", separator.as_ref()),
        _ => crate::text::concat4("Expected ", separator.as_ref(), " or ", stop.as_ref()),
    }
}

} // verus!

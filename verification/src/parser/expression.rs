//! Expressions. Binary and assignment operators are read from left to
//! right, all at one level of precedence.

use vstd::prelude::*;
use crate::completion::{CompletionElement, SpecCompletionElement};
use crate::interpreter::expression_interpreter::expression_ok;
use crate::lexer::operations::{assignment_op_of, binary_op_of, unary_op_of};
use crate::lexer::token::{Token, TokenKind};
use crate::lexer::token_stream::{SpecTokenStream, TokenError, TokenStream};
use crate::memory::types::is_constant_kind;
use crate::nodes::expression_node::{
    arguments_view, expressions_view, lemma_array_literal_view, lemma_call_view,
    ArrayAccessNode, AssignmentNode, BinaryNode, CallArgumentNode, CallNode, ConditionalNode,
    ExpressionNode, ExpressionResult, IncrementNode, MemberAccessNode, SpecCallArgument,
    SpecExpression, UnaryNode,
};
use crate::parser::{
    is_increment_kind, list_turn, p_kind, parse_assignment_operation, parse_binary_operation,
    parse_identifier, parse_kind, parse_primitive, parse_unary_operation, read, turn_list,
    ListTurn, Trailing, Turn,
};

verus! {

/// A stream behind a production, with what was read.
pub type Parsed<T> = (SpecTokenStream, Result<T, TokenError>);

/// What comes of input that nests deeper than the budget allows: a syntax
/// error at the current token.
pub open spec fn too_deep<T>(s: SpecTokenStream) -> Parsed<T> {
    match s.current() {
        Ok(t) => (s.alert("Nested too deeply"@, t.range), Err(TokenError::SyntaxError)),
        Err(e) => (s, Err(e)),
    }
}

/// An expression one level further in.
pub open spec fn p_nested_expression(s: SpecTokenStream, depth: nat) -> Parsed<SpecExpression>
    decreases depth, 0nat, 0nat, 0nat,
{
    if depth == 0 {
        too_deep(s)
    } else {
        p_expression(s, (depth - 1) as nat)
    }
}

/// An operand one level further in.
pub open spec fn p_nested_operand(s: SpecTokenStream, depth: nat) -> Parsed<SpecExpression>
    decreases depth, 0nat, 0nat, 0nat,
{
    if depth == 0 {
        too_deep(s)
    } else {
        p_expression_priority(s, (depth - 1) as nat)
    }
}

/// `parse_expression`: an operand, then operators with their right sides
/// for as long as they come.
pub open spec fn p_expression(s: SpecTokenStream, depth: nat) -> Parsed<SpecExpression>
    decreases depth, 20nat, 0nat, 0nat,
{
    let (s1, first) = p_expression_priority(s, depth);
    match first {
        Err(e) => (s1, Err(e)),
        Ok(first) => p_operators(s1, depth, first),
    }
}

/// The operators behind the expression `left`, from left to right: a
/// binary operator takes one operand, an assignment operator a whole
/// expression.
pub open spec fn p_operators(s: SpecTokenStream, depth: nat, left: SpecExpression) -> Parsed<
    SpecExpression,
>
    decreases depth, 18nat, s.remaining(), 0nat,
{
    let (s1, binary) = s.consume_where(|k: TokenKind| binary_op_of(k) is Some);
    if binary is Some {
        let (s2, r) = p_binary_expression(s1, depth, binary->0, left);
        match r {
            Err(e) => (s2, Err(e)),
            Ok(e) => if s2.remaining() < s.remaining() {
                p_operators(s2, depth, e)
            } else {
                (s2, Ok(e))
            },
        }
    } else {
        let (s1, assignment) = s.consume_where(|k: TokenKind| assignment_op_of(k) is Some);
        if assignment is Some {
            let (s2, r) = p_assignment_expression(s1, depth, assignment->0, left);
            match r {
                Err(e) => (s2, Err(e)),
                Ok(e) => if s2.remaining() < s.remaining() {
                    p_operators(s2, depth, e)
                } else {
                    (s2, Ok(e))
                },
            }
        } else {
            (s1, Ok(left))
        }
    }
}

/// `parse_binary_expression`: the right operand of a binary operator.
pub open spec fn p_binary_expression(
    s: SpecTokenStream,
    depth: nat,
    op: Token,
    left: SpecExpression,
) -> Parsed<SpecExpression>
    decreases depth, 17nat, 0nat, 0nat,
{
    let (s1, right) = p_expression_priority(s, depth);
    match right {
        Err(e) => (s1, Err(e)),
        Ok(right) => (
            s1,
            Ok(SpecExpression::Binary { op, left: Box::new(left), right: Box::new(right) }),
        ),
    }
}

/// `parse_assignment_expression`: the right side of an assignment.
pub open spec fn p_assignment_expression(
    s: SpecTokenStream,
    depth: nat,
    op: Token,
    left: SpecExpression,
) -> Parsed<SpecExpression>
    decreases depth, 17nat, 0nat, 0nat,
{
    let (s1, right) = p_nested_expression(s, depth);
    match right {
        Err(e) => (s1, Err(e)),
        Ok(right) => (
            s1,
            Ok(SpecExpression::Assignment { op, left: Box::new(left), right: Box::new(right) }),
        ),
    }
}

/// The stream with identifiers announced for completion, unless a
/// statement is about to start.
pub open spec fn announce_identifier(s: SpecTokenStream) -> SpecTokenStream {
    if !s.parsing_statement {
        s.queued(SpecCompletionElement::Identifier(s.parsing_const))
    } else {
        s
    }
}

/// `parse_expression_priority`: an operand with all that is attached
/// behind it. An operand is a literal, a prefix operator with its operand,
/// a name, a call, an expression in parentheses, an array literal in
/// braces, or a prefix increment.
pub open spec fn p_expression_priority(s: SpecTokenStream, depth: nat) -> Parsed<SpecExpression>
    decreases depth, 16nat, 0nat, 0nat,
{
    let s0 = announce_identifier(s);
    let (s1, primitive) = s0.consume_where(|k: TokenKind| is_constant_kind(k));
    if primitive is Some {
        p_attachments(s1, depth, SpecExpression::Primitive(primitive->0))
    } else {
        let (s1, unary) = s0.consume_where(|k: TokenKind| unary_op_of(k) is Some);
        let (s2, operand) = if unary is Some {
            p_unary_expression(s1, depth, unary->0)
        } else {
            match s1.current() {
                Err(e) => (s1, Err(e)),
                Ok(t) => if t.kind == TokenKind::Identifier {
                    p_identifier_expression(s1, depth)
                } else if t.kind == TokenKind::LeftParen {
                    p_parenthetical_expression(s1, depth)
                } else if t.kind == TokenKind::LeftBrace {
                    p_array_literal_expression(s1, depth)
                } else if is_increment_kind(t.kind) {
                    p_increment_expression(s1, depth, None)
                } else {
                    (s1.alert("Expected Expression"@, t.range), Err(TokenError::SyntaxError))
                },
            }
        };
        match operand {
            Err(e) => (s2, Err(e)),
            Ok(operand) => p_attachments(s2, depth, operand),
        }
    }
}

/// What is attached behind the operand `inner`, from left to right: an
/// index in brackets, a member behind a dot, the branches of a conditional
/// behind a question mark, or a postfix increment. The input must go on
/// behind the operand.
pub open spec fn p_attachments(s: SpecTokenStream, depth: nat, inner: SpecExpression) -> Parsed<
    SpecExpression,
>
    decreases depth, 14nat, s.remaining(), 0nat,
{
    match s.current() {
        Err(e) => (s, Err(e)),
        Ok(t) => {
            let attached = t.kind == TokenKind::LeftBracket || t.kind == TokenKind::Dot || t.kind
                == TokenKind::Question || is_increment_kind(t.kind);
            if !attached {
                (s, Ok(inner))
            } else {
                let (s1, r) = if t.kind == TokenKind::LeftBracket {
                    p_array_access_expression(s, depth, inner)
                } else if t.kind == TokenKind::Dot {
                    p_member_access_expression(s, inner)
                } else if t.kind == TokenKind::Question {
                    p_conditional_expression(s, depth, inner)
                } else {
                    p_increment_expression(s, depth, Some(inner))
                };
                match r {
                    Err(e) => (s1, Err(e)),
                    Ok(e) => if s1.remaining() < s.remaining() {
                        p_attachments(s1, depth, e)
                    } else {
                        (s1, Ok(e))
                    },
                }
            }
        },
    }
}

/// `parse_identifier_expression`: a name, which is a call if a parenthesis
/// follows. The input must go on behind the name.
pub open spec fn p_identifier_expression(s: SpecTokenStream, depth: nat) -> Parsed<SpecExpression>
    decreases depth, 12nat, 0nat, 0nat,
{
    let (s1, id) = s.expect(TokenKind::Identifier);
    match id {
        Err(e) => (s1, Err(e)),
        Ok(id) => match s1.current() {
            Err(e) => (s1, Err(e)),
            Ok(t) => if t.kind == TokenKind::LeftParen {
                p_call_expression(s1, depth, id)
            } else {
                (s1, Ok(SpecExpression::Identifier(id)))
            },
        },
    }
}

/// The expressions of a list as the arguments of a call: none has a
/// qualifier.
pub open spec fn as_arguments(list: Seq<SpecExpression>) -> Seq<SpecCallArgument> {
    list.map_values(|e: SpecExpression| SpecCallArgument { qualifier: None, expression: e })
}

/// `parse_call_expression`: the arguments in parentheses, separated by
/// commas.
pub open spec fn p_call_expression(s: SpecTokenStream, depth: nat, identifier: Token) -> Parsed<
    SpecExpression,
>
    decreases depth, 10nat, 0nat, 0nat,
{
    let (s1, args) = p_expression_list(
        s.advance(),
        depth,
        TokenKind::Comma,
        TokenKind::RightParen,
        false,
        Seq::empty(),
    );
    match args {
        Err(e) => (s1, Err(e)),
        Ok(args) => (
            s1.advance(),
            Ok(SpecExpression::Call { identifier, args: as_arguments(args) }),
        ),
    }
}

/// `parse_unary_expression`: the operand of a prefix operator.
pub open spec fn p_unary_expression(s: SpecTokenStream, depth: nat, op: Token) -> Parsed<
    SpecExpression,
>
    decreases depth, 10nat, 0nat, 0nat,
{
    let (s1, arg) = p_nested_operand(s, depth);
    match arg {
        Err(e) => (s1, Err(e)),
        Ok(arg) => (s1, Ok(SpecExpression::Unary { op, arg: Box::new(arg) })),
    }
}

/// `parse_increment_expression`: `++` or `--`, behind its operand or before
/// the expression it applies to.
pub open spec fn p_increment_expression(
    s: SpecTokenStream,
    depth: nat,
    inner: Option<SpecExpression>,
) -> Parsed<SpecExpression>
    decreases depth, 10nat, 0nat, 0nat,
{
    let (s1, op) = s.consume();
    match op {
        Err(e) => (s1, Err(e)),
        Ok(op) => match inner {
            Some(arg) => (
                s1,
                Ok(SpecExpression::Increment { op, is_prefix: false, arg: Box::new(arg) }),
            ),
            None => {
                let (s2, arg) = p_nested_expression(s1, depth);
                match arg {
                    Err(e) => (s2, Err(e)),
                    Ok(arg) => (
                        s2,
                        Ok(SpecExpression::Increment { op, is_prefix: true, arg: Box::new(arg) }),
                    ),
                }
            },
        },
    }
}

/// `parse_parenthetical_expression`: an expression in parentheses.
pub open spec fn p_parenthetical_expression(s: SpecTokenStream, depth: nat) -> Parsed<
    SpecExpression,
>
    decreases depth, 10nat, 0nat, 0nat,
{
    let (s1, inner) = p_nested_expression(s.advance(), depth);
    match inner {
        Err(e) => (s1, Err(e)),
        Ok(inner) => {
            let (s2, closed) = p_kind(s1, TokenKind::RightParen);
            match closed {
                Err(e) => (s2, Err(e)),
                Ok(_) => (s2, Ok(SpecExpression::Paren(Box::new(inner)))),
            }
        },
    }
}

/// `parse_conditional_expression`: the two branches behind a condition,
/// with a colon between them.
pub open spec fn p_conditional_expression(
    s: SpecTokenStream,
    depth: nat,
    condition: SpecExpression,
) -> Parsed<SpecExpression>
    decreases depth, 10nat, 0nat, 0nat,
{
    let (s1, action) = p_nested_expression(s.advance(), depth);
    match action {
        Err(e) => (s1, Err(e)),
        Ok(action) => {
            let (s2, colon) = p_kind(s1, TokenKind::Colon);
            match colon {
                Err(e) => (s2, Err(e)),
                Ok(_) => {
                    let (s3, alternate) = p_nested_expression(s2, depth);
                    match alternate {
                        Err(e) => (s3, Err(e)),
                        Ok(alternate) => (
                            s3,
                            Ok(
                                SpecExpression::Conditional {
                                    condition: Box::new(condition),
                                    action: Box::new(action),
                                    alternate: Box::new(alternate),
                                },
                            ),
                        ),
                    }
                },
            }
        },
    }
}

/// `parse_array_access_expression`: an index in brackets.
pub open spec fn p_array_access_expression(
    s: SpecTokenStream,
    depth: nat,
    argument: SpecExpression,
) -> Parsed<SpecExpression>
    decreases depth, 10nat, 0nat, 0nat,
{
    let (s1, index) = p_nested_expression(s.advance(), depth);
    match index {
        Err(e) => (s1, Err(e)),
        Ok(index) => {
            let (s2, closed) = p_kind(s1, TokenKind::RightBracket);
            match closed {
                Err(e) => (s2, Err(e)),
                Ok(_) => (
                    s2,
                    Ok(
                        SpecExpression::ArrayAccess {
                            argument: Box::new(argument),
                            index: Box::new(index),
                        },
                    ),
                ),
            }
        },
    }
}

/// `parse_member_access_expression`: a member behind a dot. The members
/// of the expression before the dot are what completion offers there.
pub open spec fn p_member_access_expression(s: SpecTokenStream, argument: SpecExpression)
    -> Parsed<SpecExpression> {
    let (s1, member) = s.queued(SpecCompletionElement::Member(argument)).advance().expect(
        TokenKind::Identifier,
    );
    match member {
        Err(e) => (s1, Err(e)),
        Ok(member) => (
            s1,
            Ok(SpecExpression::MemberAccess { argument: Box::new(argument), member }),
        ),
    }
}

/// `parse_array_literal_expression`: the elements in braces, separated by
/// commas.
pub open spec fn p_array_literal_expression(s: SpecTokenStream, depth: nat) -> Parsed<
    SpecExpression,
>
    decreases depth, 10nat, 0nat, 0nat,
{
    let (s1, items) = p_expression_list(
        s.advance(),
        depth,
        TokenKind::Comma,
        TokenKind::RightBrace,
        false,
        Seq::empty(),
    );
    match items {
        Err(e) => (s1, Err(e)),
        Ok(items) => (s1.advance(), Ok(SpecExpression::ArrayLiteral(items))),
    }
}

/// A list of expressions up to the token `stop`, which stays; a separator
/// may stand behind the last item. An item that cannot be read is passed
/// over by one token and the list goes on.
pub open spec fn p_expression_list(
    s: SpecTokenStream,
    depth: nat,
    separator: TokenKind,
    stop: TokenKind,
    after_item: bool,
    done: Seq<SpecExpression>,
) -> Parsed<Seq<SpecExpression>>
    decreases depth, 8nat, s.remaining(), if after_item {
        1nat
    } else {
        0nat
    },
{
    match list_turn(s, separator, stop, Trailing::Optional, after_item) {
        ListTurn::Done(s1) => (s1, Ok(done)),
        ListTurn::Ended(s1) => (s1, Err(TokenError::EofError)),
        ListTurn::Next(s1) => if s1.remaining() <= s.remaining() {
            p_expression_list(s1, depth, separator, stop, false, done)
        } else {
            (s1, Err(TokenError::EofError))
        },
        ListTurn::Item(s1) => {
            let (s2, item) = p_nested_expression(s1, depth);
            match item {
                Err(TokenError::EofError) => (s2, Err(TokenError::EofError)),
                _ => {
                    let s3 = if item is Ok {
                        s2
                    } else {
                        s2.advance()
                    };
                    let grown = if item is Ok {
                        done.push(item->Ok_0)
                    } else {
                        done
                    };
                    if s3.remaining() < s.remaining() {
                        p_expression_list(s3, depth, separator, stop, true, grown)
                    } else {
                        (s3, Err(TokenError::EofError))
                    }
                },
            }
        },
    }
}

/// What every production of an expression promises: the stream and the
/// result are those of the grammar, the nesting budget is as before, the
/// stream only moved forward, and an expression that was read took at
/// least one token.
pub open spec fn parsed(
    before: &TokenStream,
    after: &TokenStream,
    r: ExpressionResult,
    expected: Parsed<SpecExpression>,
) -> bool {
    &&& (after@, read(r)) == expected
    &&& after.depth == before.depth
    &&& before@.leads_to(after@)
    &&& r is Ok ==> after@.idx > before@.idx
}

/// Whether what was read is an expression that can be evaluated.
pub open spec fn sound(r: ExpressionResult) -> bool {
    r is Ok ==> expression_ok(r->Ok_0@)
}

/// The views of the expressions that were read, or the error.
pub open spec fn read_all(r: Result<Vec<ExpressionNode>, TokenError>) -> Result<
    Seq<SpecExpression>,
    TokenError,
> {
    match r {
        Ok(list) => Ok(expressions_view(list@)),
        Err(e) => Err(e),
    }
}

/// Refuses input that nests too deeply.
fn refuse<T>(stream: &mut TokenStream) -> (r: Result<T, TokenError>)
    ensures
        (final(stream)@, r) == too_deep::<T>(old(stream)@),
        r is Err,
        final(stream).depth == old(stream).depth,
        old(stream)@.leads_to(final(stream)@),
{
    let current = stream.current()?;
    Err(stream.alert_error("Nested too deeply", current.range))
}

/// An expression one level further in.
pub fn parse_nested_expression(stream: &mut TokenStream) -> (r: ExpressionResult)
    ensures
        parsed(
            old(stream),
            final(stream),
            r,
            p_nested_expression(old(stream)@, old(stream).depth as nat),
        ),
        sound(r),
    decreases old(stream).depth, 0nat,
{
    if stream.depth == 0 {
        match refuse::<ExpressionNode>(stream) {
            Ok(e) => Ok(e),
            Err(e) => Err(e),
        }
    } else {
        stream.depth = stream.depth - 1;
        let r = parse_expression(stream);
        stream.depth = stream.depth + 1;
        r
    }
}

/// An operand one level further in.
fn parse_nested_operand(stream: &mut TokenStream) -> (r: ExpressionResult)
    ensures
        parsed(
            old(stream),
            final(stream),
            r,
            p_nested_operand(old(stream)@, old(stream).depth as nat),
        ),
        sound(r),
    decreases old(stream).depth, 0nat,
{
    if stream.depth == 0 {
        match refuse::<ExpressionNode>(stream) {
            Ok(e) => Ok(e),
            Err(e) => Err(e),
        }
    } else {
        stream.depth = stream.depth - 1;
        let r = parse_expression_priority(stream);
        stream.depth = stream.depth + 1;
        r
    }
}

/// Reads an expression.
pub fn parse_expression(stream: &mut TokenStream) -> (r: ExpressionResult)
    ensures
        parsed(old(stream), final(stream), r, p_expression(old(stream)@, old(stream).depth as nat)),
        sound(r),
    decreases old(stream).depth, 20nat,
{
    let ghost depth = stream.depth as nat;
    let mut original = parse_expression_priority(stream)?;
    loop
        invariant
            stream.depth == old(stream).depth,
            depth == old(stream).depth,
            old(stream)@.leads_to(stream@),
            stream@.idx > old(stream)@.idx,
            expression_ok(original@),
            p_expression(old(stream)@, depth) == p_operators(stream@, depth, original@),
        decreases stream@.remaining(),
    {
        let ghost before = stream@;
        if let Some(op) = parse_binary_operation(stream) {
            original = parse_binary_expression(stream, op, original)?;
        } else if let Some(op) = parse_assignment_operation(stream) {
            original = parse_assignment_expression(stream, op, original)?;
        } else {
            return Ok(original);
        }
        assert(stream@.remaining() < before.remaining());
    }
}

/// Reads an operand with all that is attached behind it.
pub fn parse_expression_priority(stream: &mut TokenStream) -> (r: ExpressionResult)
    ensures
        parsed(
            old(stream),
            final(stream),
            r,
            p_expression_priority(old(stream)@, old(stream).depth as nat),
        ),
        sound(r),
    decreases old(stream).depth, 16nat,
{
    let ghost depth = stream.depth as nat;
    if !stream.parsing_statement {
        stream.queue_cursor_element(CompletionElement::Identifier(stream.parsing_const));
    }
    let mut original = if let Some(primitive) = parse_primitive(stream) {
        ExpressionNode::Primitive(primitive)
    } else if let Some(op) = parse_unary_operation(stream) {
        parse_unary_expression(stream, op)?
    } else {
        let current = stream.current()?;
        match current.kind {
            TokenKind::Identifier => parse_identifier_expression(stream)?,
            TokenKind::LeftParen => parse_parenthetical_expression(stream)?,
            TokenKind::LeftBrace => parse_array_literal_expression(stream)?,
            TokenKind::Increment | TokenKind::Decrement => parse_increment_expression(
                stream,
                None,
            )?,
            _ => {
                return Err(stream.alert_error("Expected Expression", current.range));
            },
        }
    };
    loop
        invariant
            stream.depth == old(stream).depth,
            depth == old(stream).depth,
            old(stream)@.leads_to(stream@),
            stream@.idx > old(stream)@.idx,
            expression_ok(original@),
            p_expression_priority(old(stream)@, depth) == p_attachments(
                stream@,
                depth,
                original@,
            ),
        decreases stream@.remaining(),
    {
        let ghost before = stream@;
        let current = stream.current()?;
        match current.kind {
            TokenKind::LeftBracket => {
                original = parse_array_access_expression(stream, original)?;
            },
            TokenKind::Dot => {
                original = parse_member_access_expression(stream, original)?;
            },
            TokenKind::Question => {
                original = parse_conditional_expression(stream, original)?;
            },
            TokenKind::Increment | TokenKind::Decrement => {
                original = parse_increment_expression(stream, Some(original))?;
            },
            _ => {
                return Ok(original);
            },
        }
        assert(stream@.remaining() < before.remaining());
    }
}

/// Reads a name or a call.
pub fn parse_identifier_expression(stream: &mut TokenStream) -> (r: ExpressionResult)
    ensures
        parsed(
            old(stream),
            final(stream),
            r,
            p_identifier_expression(old(stream)@, old(stream).depth as nat),
        ),
        sound(r),
    decreases old(stream).depth, 12nat,
{
    let identifier = parse_identifier(stream)?;
    match stream.current()?.kind {
        TokenKind::LeftParen => parse_call_expression(stream, identifier),
        _ => Ok(ExpressionNode::Identifier(identifier)),
    }
}

/// The expressions of a list as the arguments of a call.
fn into_arguments(list: Vec<ExpressionNode>) -> (r: Vec<CallArgumentNode>)
    ensures
        arguments_view(r@) == as_arguments(expressions_view(list@)),
        forall|i: int| 0 <= i < r.len() ==> (#[trigger] r@[i]).expression@ == list@[i]@,
        r.len() == list.len(),
{
    let ghost all = expressions_view(list@);
    let mut rest = list;
    let mut r: Vec<CallArgumentNode> = Vec::new();
    while rest.len() > 0
        invariant
            all == expressions_view(list@),
            r.len() + rest.len() == all.len(),
            forall|i: int| 0 <= i < r.len() ==> (#[trigger] r@[i]).expression@ == all[i],
            forall|i: int| 0 <= i < r.len() ==> (#[trigger] r@[i]).qualifier is None,
            forall|i: int| 0 <= i < rest.len() ==> (#[trigger] rest@[i])@ == all[r.len() + i],
        decreases rest.len(),
    {
        let ghost before = rest@;
        let expression = rest.remove(0);
        assert(expression == before[0]);
        assert forall|i: int| 0 <= i < rest.len() implies (#[trigger] rest@[i])@ == all[r.len() + 1
            + i] by {
            assert(rest@[i] == before[i + 1]);
        }
        r.push(CallArgumentNode { qualifier: None, expression });
    }
    assert(arguments_view(r@) =~= as_arguments(all));
    r
}

/// Reads the arguments of a call of `identifier`.
pub fn parse_call_expression(stream: &mut TokenStream, identifier: Token) -> (r: ExpressionResult)
    ensures
        parsed(
            old(stream),
            final(stream),
            r,
            p_call_expression(old(stream)@, old(stream).depth as nat, identifier),
        ),
        sound(r),
    decreases old(stream).depth, 10nat,
{
    stream.advance();
    let items = parse_expression_list(stream, TokenKind::Comma, TokenKind::RightParen)?;
    stream.advance();
    let args = into_arguments(items);
    let node = CallNode { identifier, args };
    proof {
        lemma_call_view(node);
        assert forall|i: int| 0 <= i < node.args.len() implies expression_ok(
            (#[trigger] arguments_view(node.args@)[i]).expression,
        ) by {
            assert(arguments_view(node.args@)[i] == node.args@[i]@);
        }
    }
    Ok(ExpressionNode::Call(node))
}

/// Reads the operand of the prefix operator `op`.
pub fn parse_unary_expression(stream: &mut TokenStream, op: Token) -> (r: ExpressionResult)
    ensures
        parsed(
            old(stream),
            final(stream),
            r,
            p_unary_expression(old(stream)@, old(stream).depth as nat, op),
        ),
        unary_op_of(op.kind) is Some ==> sound(r),
    decreases old(stream).depth, 10nat,
{
    let arg = Box::new(parse_nested_operand(stream)?);
    Ok(ExpressionNode::Unary(UnaryNode { arg, op }))
}

/// Reads the right operand of the binary operator `op`.
pub fn parse_binary_expression(stream: &mut TokenStream, op: Token, original: ExpressionNode) -> (r:
    ExpressionResult)
    ensures
        parsed(
            old(stream),
            final(stream),
            r,
            p_binary_expression(old(stream)@, old(stream).depth as nat, op, original@),
        ),
        binary_op_of(op.kind) is Some && expression_ok(original@) ==> sound(r),
    decreases old(stream).depth, 17nat,
{
    let right = parse_expression_priority(stream)?;
    Ok(ExpressionNode::Binary(BinaryNode { left: Box::new(original), right: Box::new(right), op }))
}

/// Reads the right side of the assignment operator `op`.
pub fn parse_assignment_expression(
    stream: &mut TokenStream,
    op: Token,
    original: ExpressionNode,
) -> (r: ExpressionResult)
    ensures
        parsed(
            old(stream),
            final(stream),
            r,
            p_assignment_expression(old(stream)@, old(stream).depth as nat, op, original@),
        ),
        assignment_op_of(op.kind) is Some && expression_ok(original@) ==> sound(r),
    decreases old(stream).depth, 17nat,
{
    let right = parse_nested_expression(stream)?;
    Ok(
        ExpressionNode::Assignment(
            AssignmentNode { left: Box::new(original), right: Box::new(right), op },
        ),
    )
}

/// Reads `++` or `--` behind `original`, or before an expression.
pub fn parse_increment_expression(stream: &mut TokenStream, original: Option<ExpressionNode>) -> (r:
    ExpressionResult)
    ensures
        parsed(
            old(stream),
            final(stream),
            r,
            p_increment_expression(
                old(stream)@,
                old(stream).depth as nat,
                match original {
                    Some(e) => Some(e@),
                    None => None,
                },
            ),
        ),
        (original is Some ==> expression_ok(original->0@)) ==> sound(r),
    decreases old(stream).depth, 10nat,
{
    let op = stream.consume()?;
    let (arg, is_prefix) = match original {
        Some(arg) => (arg, false),
        None => (parse_nested_expression(stream)?, true),
    };
    Ok(ExpressionNode::Increment(IncrementNode { op, is_prefix, arg: Box::new(arg) }))
}

/// Reads an expression in parentheses.
pub fn parse_parenthetical_expression(stream: &mut TokenStream) -> (r: ExpressionResult)
    ensures
        parsed(
            old(stream),
            final(stream),
            r,
            p_parenthetical_expression(old(stream)@, old(stream).depth as nat),
        ),
        sound(r),
    decreases old(stream).depth, 10nat,
{
    stream.advance();
    let expr = Box::new(parse_nested_expression(stream)?);
    parse_kind(stream, TokenKind::RightParen)?;
    Ok(ExpressionNode::Paren(expr))
}

/// Reads the two branches behind a condition.
pub fn parse_conditional_expression(stream: &mut TokenStream, originial: ExpressionNode) -> (r:
    ExpressionResult)
    ensures
        parsed(
            old(stream),
            final(stream),
            r,
            p_conditional_expression(old(stream)@, old(stream).depth as nat, originial@),
        ),
        expression_ok(originial@) ==> sound(r),
    decreases old(stream).depth, 10nat,
{
    stream.advance();
    let action = parse_nested_expression(stream)?;
    parse_kind(stream, TokenKind::Colon)?;
    let alternate = parse_nested_expression(stream)?;
    Ok(
        ExpressionNode::Conditional(
            ConditionalNode {
                condition: Box::new(originial),
                action: Box::new(action),
                alternate: Box::new(alternate),
            },
        ),
    )
}

/// Reads an index in brackets behind `original`.
pub fn parse_array_access_expression(stream: &mut TokenStream, original: ExpressionNode) -> (r:
    ExpressionResult)
    ensures
        parsed(
            old(stream),
            final(stream),
            r,
            p_array_access_expression(old(stream)@, old(stream).depth as nat, original@),
        ),
        expression_ok(original@) ==> sound(r),
    decreases old(stream).depth, 10nat,
{
    stream.advance();
    let index = parse_nested_expression(stream)?;
    parse_kind(stream, TokenKind::RightBracket)?;
    Ok(
        ExpressionNode::ArrayAccess(
            ArrayAccessNode { argument: Box::new(original), index: Box::new(index) },
        ),
    )
}

/// Reads a member behind a dot behind `original`.
pub fn parse_member_access_expression(stream: &mut TokenStream, original: ExpressionNode) -> (r:
    ExpressionResult)
    ensures
        parsed(
            old(stream),
            final(stream),
            r,
            p_member_access_expression(old(stream)@, original@),
        ),
        expression_ok(original@) ==> sound(r),
{
    stream.queue_cursor_element(CompletionElement::Member(Box::new(original.clone())));
    stream.advance();
    let member = parse_identifier(stream)?;
    Ok(ExpressionNode::MemberAccess(MemberAccessNode { argument: Box::new(original), member }))
}

/// Reads an array literal in braces.
pub fn parse_array_literal_expression(stream: &mut TokenStream) -> (r: ExpressionResult)
    ensures
        parsed(
            old(stream),
            final(stream),
            r,
            p_array_literal_expression(old(stream)@, old(stream).depth as nat),
        ),
        sound(r),
    decreases old(stream).depth, 10nat,
{
    stream.advance();
    let vec = parse_expression_list(stream, TokenKind::Comma, TokenKind::RightBrace)?;
    stream.advance();
    proof {
        lemma_array_literal_view(vec);
        assert forall|i: int| 0 <= i < vec.len() implies expression_ok(
            #[trigger] expressions_view(vec@)[i],
        ) by {
            assert(expressions_view(vec@)[i] == vec@[i]@);
        }
    }
    Ok(ExpressionNode::ArrayLiteral(vec))
}

/// Reads a list of expressions up to the token `stop`, which stays.
pub fn parse_expression_list(stream: &mut TokenStream, separator: TokenKind, stop: TokenKind) -> (r:
    Result<Vec<ExpressionNode>, TokenError>)
    ensures
        (final(stream)@, read_all(r)) == p_expression_list(
            old(stream)@,
            old(stream).depth as nat,
            separator,
            stop,
            false,
            Seq::empty(),
        ),
        final(stream).depth == old(stream).depth,
        old(stream)@.leads_to(final(stream)@),
        r is Ok ==> final(stream)@.idx < final(stream)@.tokens.len(),
        r is Ok ==> forall|i: int| 0 <= i < r->Ok_0.len() ==> expression_ok(#[trigger] r->Ok_0@[i]@),
    decreases old(stream).depth, 8nat,
{
    let ghost depth = stream.depth as nat;
    let mut done: Vec<ExpressionNode> = Vec::new();
    let mut after_item = false;
    assert(expressions_view(done@) =~= Seq::empty());
    loop
        invariant
            stream.depth == old(stream).depth,
            depth == old(stream).depth,
            old(stream)@.leads_to(stream@),
            forall|i: int| 0 <= i < done.len() ==> expression_ok(#[trigger] done@[i]@),
            p_expression_list(old(stream)@, depth, separator, stop, false, Seq::empty())
                == p_expression_list(
                stream@,
                depth,
                separator,
                stop,
                after_item,
                expressions_view(done@),
            ),
        decreases stream@.remaining(), if after_item {
            1nat
        } else {
            0nat
        },
    {
        let ghost before = stream@;
        match turn_list(stream, separator, stop, Trailing::Optional, after_item) {
            Turn::Done => {
                return Ok(done);
            },
            Turn::Ended => {
                return Err(TokenError::EofError);
            },
            Turn::Next => {
                after_item = false;
            },
            Turn::Item => {
                let ghost views = expressions_view(done@);
                match parse_nested_expression(stream) {
                    Ok(item) => {
                        done.push(item);
                        assert(expressions_view(done@) =~= views.push(item@));
                    },
                    Err(TokenError::EofError) => {
                        return Err(TokenError::EofError);
                    },
                    Err(_) => {
                        stream.advance();
                    },
                }
                after_item = true;
                assert(stream@.remaining() < before.remaining());
            },
        }
    }
}

} // verus!

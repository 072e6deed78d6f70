//! Statements.

use vstd::prelude::*;
use crate::completion::{CompletionElement, SpecCompletionElement};
use crate::interpreter::expression_interpreter::expression_ok;
use crate::interpreter::statement_interpreter::statement_ok;
use crate::lexer::token::{Token, TokenKind};
use crate::lexer::token_stream::{SpecTokenStream, TokenError, TokenStream};
use crate::nodes::expression_node::{ExpressionNode, SpecExpression};
use crate::nodes::statement_node::{
    block_view, cases_view, lemma_block_view, lemma_switch_view, statements_view, BlockNode,
    ElseNode, ForNode, IfNode, ReturnNode, SpecStatement, SpecSwitchCase, StatementNode,
    StatementResult, SwitchCaseNode, SwitchNode, VarDeclarationNode, WhileNode,
};

use crate::parser::expression::{p_expression, parse_expression, too_deep, Parsed};
use crate::parser::{
    is_int_kind, p_kind, p_type, p_value_specifier, parse_conditional, parse_identifier,
    parse_int, parse_kind, parse_semicolon, parse_type, parse_value_specifier, read,
};
use crate::position::Range;

verus! {

/// A statement one level further in.
pub open spec fn p_nested_statement(s: SpecTokenStream, depth: nat) -> Parsed<SpecStatement>
    decreases depth, 0nat, 0nat,
{
    if depth == 0 {
        too_deep(s)
    } else {
        p_statement(s, (depth - 1) as nat)
    }
}

/// `parse_statement`: the first token tells the kind of statement; what
/// starts with a name may be a declaration or an expression.
pub open spec fn p_statement(s: SpecTokenStream, depth: nat) -> Parsed<SpecStatement>
    decreases depth, 60nat, 0nat,
{
    match s.current() {
        Err(e) => (s, Err(e)),
        Ok(t) => p_statement_of(
            s.queued(SpecCompletionElement::Statement).in_statement(true),
            depth,
            t,
        ),
    }
}

/// The statement that starts with the token `first`. A jump is its
/// keyword; a missing semicolon behind it is on record and does not fail
/// the statement.
pub open spec fn p_statement_of(s: SpecTokenStream, depth: nat, first: Token) -> Parsed<
    SpecStatement,
>
    decreases depth, 59nat, 0nat,
{
    if first.kind == TokenKind::Const {
        p_var_declaration_statement(s, depth)
    } else if first.kind == TokenKind::If {
        p_if_statement(s, depth)
    } else if first.kind == TokenKind::While {
        p_while_statement(s, depth)
    } else if first.kind == TokenKind::For {
        p_for_statement(s, depth)
    } else if first.kind == TokenKind::Switch {
        p_switch_statement(s, depth)
    } else if first.kind == TokenKind::Continue {
        (s.advance().expect(TokenKind::Semicolon).0, Ok(SpecStatement::Continue(first)))
    } else if first.kind == TokenKind::Break {
        (s.advance().expect(TokenKind::Semicolon).0, Ok(SpecStatement::Break(first)))
    } else if first.kind == TokenKind::Return {
        p_return_statement(s, depth)
    } else if first.kind == TokenKind::Identifier {
        p_identifier_statement(s, depth)
    } else if first.kind == TokenKind::LeftBrace {
        p_block(s, depth)
    } else {
        p_expression_statement(s, depth)
    }
}

/// `parse_block`: statements in braces. A statement that cannot be read is
/// passed over by one token.
pub open spec fn p_block(s: SpecTokenStream, depth: nat) -> Parsed<SpecStatement>
    decreases depth, 56nat, 0nat,
{
    let (s1, left) = p_kind(s, TokenKind::LeftBrace);
    match left {
        Err(e) => (s1, Err(e)),
        Ok(left) => {
            let (s2, statements) = p_block_statements(
                s1.queued(SpecCompletionElement::Statement),
                depth,
                Seq::empty(),
            );
            match statements {
                Err(e) => (s2, Err(e)),
                Ok(statements) => {
                    let (s3, right) = p_kind(s2, TokenKind::RightBrace);
                    match right {
                        Err(e) => (s3, Err(e)),
                        Ok(right) => (
                            s3,
                            Ok(
                                SpecStatement::Block {
                                    range: Range { start: left.range.start, end: right.range.end },
                                    statements,
                                },
                            ),
                        ),
                    }
                },
            }
        },
    }
}

/// The statements of a block up to its closing brace, which stays.
pub open spec fn p_block_statements(s: SpecTokenStream, depth: nat, done: Seq<SpecStatement>)
    -> Parsed<Seq<SpecStatement>>
    decreases depth, 50nat, s.remaining(),
{
    let s0 = s.in_statement(true);
    match s0.current() {
        Err(e) => (s0, Err(e)),
        Ok(t) => if t.kind == TokenKind::RightBrace {
            (s0, Ok(done))
        } else {
            let (s1, r) = p_nested_statement(s0, depth);
            let s2 = if r is Ok {
                s1
            } else {
                s1.advance()
            };
            let grown = if r is Ok {
                done.push(r->Ok_0)
            } else {
                done
            };
            if s2.remaining() < s.remaining() {
                p_block_statements(s2, depth, grown)
            } else {
                (s2, Err(TokenError::EofError))
            }
        },
    }
}

/// `parse_expression_statement`: an expression; a missing semicolon is on
/// record and does not fail the statement.
pub open spec fn p_expression_statement(s: SpecTokenStream, depth: nat) -> Parsed<SpecStatement>
    decreases depth, 56nat, 0nat,
{
    let (s1, e) = p_expression(s, depth);
    match e {
        Err(e) => (s1, Err(e)),
        Ok(e) => (s1.expect(TokenKind::Semicolon).0, Ok(SpecStatement::Expression(e))),
    }
}

/// Whether a type and a name stand at the start of the stream, read with
/// nothing put on record.
pub open spec fn declares(s: SpecTokenStream) -> bool {
    let (s1, ty) = p_type(s.recording(false));
    ty is Ok && s1.expect(TokenKind::Identifier).1 is Ok
}

/// `parse_identifier_statement`: a statement that starts with a name is a
/// declaration if a type and a name stand there, and an expression
/// otherwise. Looking ahead leaves no trace: not in the place of the
/// stream, not on record, and not in what completion is to offer.
pub open spec fn p_identifier_statement(s: SpecTokenStream, depth: nat) -> Parsed<SpecStatement>
    decreases depth, 58nat, 0nat,
{
    if declares(s) {
        p_var_declaration_statement(s.recording(true), depth)
    } else {
        p_expression_statement(s.recording(true), depth)
    }
}

/// `parse_var_declaration_statement`: `const` if it stands there, a typed
/// name, and an initializer behind `=`.
pub open spec fn p_var_declaration_statement(s: SpecTokenStream, depth: nat) -> Parsed<
    SpecStatement,
>
    decreases depth, 56nat, 0nat,
{
    let (s1, keyword) = s.consume_kind(TokenKind::Const);
    let is_const = keyword is Some;
    let s2 = if is_const {
        s1.queued(SpecCompletionElement::Type).in_const(true)
    } else {
        s1
    };
    let (s3, value) = p_value_specifier(s2);
    let s4 = s3.in_const(false);
    match value {
        Err(e) => (s4, Err(e)),
        Ok(value) => {
            let (s5, equal) = s4.consume_kind(TokenKind::Equal);
            if equal is Some {
                let (s6, e) = p_expression(s5, depth);
                match e {
                    Err(e) => (s6, Err(e)),
                    Ok(e) => (
                        s6.expect(TokenKind::Semicolon).0,
                        Ok(
                            SpecStatement::VarDeclaration {
                                keyword,
                                value,
                                expression: Some(e),
                                is_const,
                            },
                        ),
                    ),
                }
            } else {
                (
                    s5.expect(TokenKind::Semicolon).0,
                    Ok(
                        SpecStatement::VarDeclaration {
                            keyword,
                            value,
                            expression: None,
                            is_const,
                        },
                    ),
                )
            }
        },
    }
}

/// A keyword, and a condition in parentheses behind it.
pub open spec fn p_condition(s: SpecTokenStream, depth: nat, leaves_statement: bool) -> Parsed<
    (Token, SpecExpression),
>
    decreases depth, 54nat, 0nat,
{
    let (s1, keyword) = s.consume();
    match keyword {
        Err(e) => (s1, Err(e)),
        Ok(keyword) => {
            let (s2, open) = p_kind(s1, TokenKind::LeftParen);
            match open {
                Err(e) => (s2, Err(e)),
                Ok(_) => {
                    let s3 = if leaves_statement {
                        s2.in_statement(false)
                    } else {
                        s2
                    };
                    let (s4, condition) = p_expression(s3, depth);
                    match condition {
                        Err(e) => (s4, Err(e)),
                        Ok(condition) => {
                            let (s5, close) = p_kind(s4, TokenKind::RightParen);
                            match close {
                                Err(e) => (s5, Err(e)),
                                Ok(_) => (s5, Ok((keyword, condition))),
                            }
                        },
                    }
                },
            }
        },
    }
}

/// `parse_if_statement`: a condition, a statement, and another statement
/// behind `else`.
pub open spec fn p_if_statement(s: SpecTokenStream, depth: nat) -> Parsed<SpecStatement>
    decreases depth, 56nat, 0nat,
{
    let (s1, head) = p_condition(s, depth, true);
    match head {
        Err(e) => (s1, Err(e)),
        Ok((keyword, condition)) => {
            let (s2, action) = p_nested_statement(s1, depth);
            match action {
                Err(e) => (s2, Err(e)),
                Ok(action) => {
                    let (s3, other) = s2.queued(
                        SpecCompletionElement::Identifier(s2.parsing_const),
                    ).consume_kind(TokenKind::Else);
                    if other is Some {
                        let (s4, alternate) = p_nested_statement(s3, depth);
                        match alternate {
                            Err(e) => (s4, Err(e)),
                            Ok(alternate) => (
                                s4,
                                Ok(
                                    SpecStatement::If {
                                        keyword,
                                        condition,
                                        action: Box::new(action),
                                        alternate: Some((other->0, Box::new(alternate))),
                                    },
                                ),
                            ),
                        }
                    } else {
                        (
                            s3,
                            Ok(
                                SpecStatement::If {
                                    keyword,
                                    condition,
                                    action: Box::new(action),
                                    alternate: None,
                                },
                            ),
                        )
                    }
                },
            }
        },
    }
}

/// `parse_while_statement`: a condition and a statement.
pub open spec fn p_while_statement(s: SpecTokenStream, depth: nat) -> Parsed<SpecStatement>
    decreases depth, 56nat, 0nat,
{
    let (s1, head) = p_condition(s, depth, false);
    match head {
        Err(e) => (s1, Err(e)),
        Ok((keyword, condition)) => {
            let (s2, action) = p_nested_statement(s1, depth);
            match action {
                Err(e) => (s2, Err(e)),
                Ok(action) => (
                    s2,
                    Ok(SpecStatement::While { keyword, condition, action: Box::new(action) }),
                ),
            }
        },
    }
}

/// The body of a `for` statement: a block spans from the keyword on, so
/// that the scope it opens holds the header too.
pub open spec fn for_body(action: SpecStatement, keyword: Token) -> SpecStatement {
    match action {
        SpecStatement::Block { range, statements } => SpecStatement::Block {
            range: Range { start: keyword.range.start, end: range.end },
            statements,
        },
        _ => action,
    }
}

/// `parse_for_statement`: in parentheses an initializer statement, a
/// condition and an update, then the body.
pub open spec fn p_for_statement(s: SpecTokenStream, depth: nat) -> Parsed<SpecStatement>
    decreases depth, 56nat, 0nat,
{
    let (s1, keyword) = s.consume();
    match keyword {
        Err(e) => (s1, Err(e)),
        Ok(keyword) => {
            let (s2, open) = p_kind(s1, TokenKind::LeftParen);
            match open {
                Err(e) => (s2, Err(e)),
                Ok(_) => {
                    let (s3, initializer) = p_nested_statement(s2, depth);
                    match initializer {
                        Err(e) => (s3, Err(e)),
                        Ok(initializer) => {
                            let (s4, condition) = p_expression(s3, depth);
                            match condition {
                                Err(e) => (s4, Err(e)),
                                Ok(condition) => {
                                    let (s5, update) = p_expression(
                                        s4.expect(TokenKind::Semicolon).0,
                                        depth,
                                    );
                                    match update {
                                        Err(e) => (s5, Err(e)),
                                        Ok(update) => {
                                            let (s6, close) = p_kind(s5, TokenKind::RightParen);
                                            match close {
                                                Err(e) => (s6, Err(e)),
                                                Ok(_) => {
                                                    let (s7, action) = p_nested_statement(
                                                        s6,
                                                        depth,
                                                    );
                                                    match action {
                                                        Err(e) => (s7, Err(e)),
                                                        Ok(action) => (
                                                            s7,
                                                            Ok(
                                                                SpecStatement::For {
                                                                    keyword,
                                                                    initializer: Box::new(
                                                                        initializer,
                                                                    ),
                                                                    condition,
                                                                    update,
                                                                    action: Box::new(
                                                                        for_body(action, keyword),
                                                                    ),
                                                                },
                                                            ),
                                                        ),
                                                    }
                                                },
                                            }
                                        },
                                    }
                                },
                            }
                        },
                    }
                },
            }
        },
    }
}

/// `parse_switch_statement`: a condition, and arms in braces.
pub open spec fn p_switch_statement(s: SpecTokenStream, depth: nat) -> Parsed<SpecStatement>
    decreases depth, 56nat, 0nat,
{
    let (s1, head) = p_condition(s, depth, false);
    match head {
        Err(e) => (s1, Err(e)),
        Ok((keyword, condition)) => {
            let (s2, open) = p_kind(s1, TokenKind::LeftBrace);
            match open {
                Err(e) => (s2, Err(e)),
                Ok(_) => {
                    let (s3, cases) = p_switch_cases(s2, depth, Seq::empty());
                    match cases {
                        Err(e) => (s3, Err(e)),
                        Ok(cases) => (
                            s3.advance(),
                            Ok(SpecStatement::Switch { keyword, condition, cases }),
                        ),
                    }
                },
            }
        },
    }
}

/// The arms of a switch up to its closing brace, which stays.
pub open spec fn p_switch_cases(s: SpecTokenStream, depth: nat, done: Seq<SpecSwitchCase>)
    -> Parsed<Seq<SpecSwitchCase>>
    decreases depth, 54nat, s.remaining(),
{
    match s.current() {
        Err(e) => (s, Err(e)),
        Ok(t) => if t.kind == TokenKind::RightBrace {
            (s, Ok(done))
        } else {
            let (s1, case) = p_switch_case(s, depth);
            match case {
                Err(e) => (s1, Err(e)),
                Ok(case) => if s1.remaining() < s.remaining() {
                    p_switch_cases(s1, depth, done.push(case))
                } else {
                    (s1, Err(TokenError::EofError))
                },
            }
        },
    }
}

/// The keyword of an arm: `default`, or `case` with an integer literal.
pub open spec fn p_case_keyword(s: SpecTokenStream) -> (SpecTokenStream, Result<Token, TokenError>) {
    let (s1, default) = s.queued(SpecCompletionElement::SwitchCase).consume_kind(
        TokenKind::Default,
    );
    if default is Some {
        (s1, Ok(default->0))
    } else {
        let (s2, keyword) = p_kind(s1, TokenKind::Case);
        match keyword {
            Err(e) => (s2, Err(e)),
            Ok(keyword) => {
                let (s3, label) = s2.expect_where(
                    |k: TokenKind| is_int_kind(k),
                    "Expected integer constant."@,
                );
                match label {
                    Err(e) => (s3, Err(e)),
                    Ok(_) => (s3, Ok(keyword)),
                }
            },
        }
    }
}

/// `parse_switch_case`: the keyword of an arm, a colon, and statements up
/// to the next arm or the end of the switch.
pub open spec fn p_switch_case(s: SpecTokenStream, depth: nat) -> Parsed<SpecSwitchCase>
    decreases depth, 52nat, 0nat,
{
    let (s1, keyword) = p_case_keyword(s);
    match keyword {
        Err(e) => (s1, Err(e)),
        Ok(keyword) => {
            let (s2, colon) = p_kind(s1, TokenKind::Colon);
            match colon {
                Err(e) => (s2, Err(e)),
                Ok(_) => {
                    let (s3, statements) = p_case_statements(s2, depth, Seq::empty());
                    match statements {
                        Err(e) => (s3, Err(e)),
                        Ok(statements) => (s3, Ok(SpecSwitchCase { keyword, statements })),
                    }
                },
            }
        },
    }
}

/// Whether a token kind ends the statements of an arm.
pub open spec fn ends_case(kind: TokenKind) -> bool {
    kind == TokenKind::RightBrace || kind == TokenKind::Case || kind == TokenKind::Default
}

/// The statements of an arm.
pub open spec fn p_case_statements(s: SpecTokenStream, depth: nat, done: Seq<SpecStatement>)
    -> Parsed<Seq<SpecStatement>>
    decreases depth, 50nat, s.remaining(),
{
    match s.current() {
        Err(e) => (s, Err(e)),
        Ok(t) => if ends_case(t.kind) {
            (s, Ok(done))
        } else {
            let (s1, statement) = p_nested_statement(s, depth);
            match statement {
                Err(e) => (s1, Err(e)),
                Ok(statement) => if s1.remaining() < s.remaining() {
                    p_case_statements(s1, depth, done.push(statement))
                } else {
                    (s1, Err(TokenError::EofError))
                },
            }
        },
    }
}

/// `parse_return_statement`: `return`, and an expression unless a
/// semicolon follows at once.
pub open spec fn p_return_statement(s: SpecTokenStream, depth: nat) -> Parsed<SpecStatement>
    decreases depth, 56nat, 0nat,
{
    let (s1, keyword) = s.consume();
    match keyword {
        Err(e) => (s1, Err(e)),
        Ok(keyword) => match s1.current() {
            Err(e) => (s1, Err(e)),
            Ok(t) => if t.kind == TokenKind::Semicolon {
                (
                    s1.expect(TokenKind::Semicolon).0,
                    Ok(SpecStatement::Return { keyword, expression: None }),
                )
            } else {
                let (s2, e) = p_expression(s1, depth);
                match e {
                    Err(e) => (s2, Err(e)),
                    Ok(e) => (
                        s2.expect(TokenKind::Semicolon).0,
                        Ok(SpecStatement::Return { keyword, expression: Some(e) }),
                    ),
                }
            },
        },
    }
}

/// What every production of a statement promises: the stream and the
/// result are those of the grammar, the nesting budget is as before, the
/// stream only moved forward, and a statement that was read took at least
/// one token and can be evaluated.
pub open spec fn parsed_statement(
    before: &TokenStream,
    after: &TokenStream,
    r: StatementResult,
    expected: Parsed<SpecStatement>,
) -> bool {
    &&& (after@, read(r)) == expected
    &&& after.depth == before.depth
    &&& before@.leads_to(after@)
    &&& r is Ok ==> after@.idx > before@.idx && statement_ok(r->Ok_0@)
}

/// Looking ahead for a type and a name, with nothing put on record,
/// changes nothing but the place of the stream, the statement flag and
/// what completion is to offer.
pub proof fn lemma_lookahead_leaves_no_trace(s: SpecTokenStream)
    ensures
        ({
            let (s1, ty) = p_type(s.recording(false));
            let s2 = s1.expect(TokenKind::Identifier).0;
            &&& s2.tokens == s.tokens
            &&& s2.source == s.source
            &&& s2.cursor == s.cursor
            &&& s2.parsing_const == s.parsing_const
            &&& s2.record_errors == false
        }),
{
}

/// A statement one level further in.
pub fn parse_nested_statement(stream: &mut TokenStream) -> (r: StatementResult)
    ensures
        parsed_statement(
            old(stream),
            final(stream),
            r,
            p_nested_statement(old(stream)@, old(stream).depth as nat),
        ),
    decreases old(stream).depth, 0nat,
{
    if stream.depth == 0 {
        let current = stream.current()?;
        Err(stream.alert_error("Nested too deeply", current.range))
    } else {
        stream.depth = stream.depth - 1;
        let r = parse_statement(stream);
        stream.depth = stream.depth + 1;
        r
    }
}

/// The statements of a block up to its closing brace.
fn parse_block_statements(stream: &mut TokenStream) -> (r: Result<Vec<StatementNode>, TokenError>)
    ensures
        (
            final(stream)@,
            match r {
                Ok(list) => Ok(statements_view(list@)),
                Err(e) => Err(e),
            },
        ) == p_block_statements(old(stream)@, old(stream).depth as nat, Seq::empty()),
        final(stream).depth == old(stream).depth,
        old(stream)@.leads_to(final(stream)@),
        r is Ok ==> forall|i: int| 0 <= i < r->Ok_0.len() ==> statement_ok(#[trigger] r->Ok_0@[i]@),
    decreases old(stream).depth, 50nat,
{
    let ghost depth = stream.depth as nat;
    let mut statements: Vec<StatementNode> = Vec::new();
    assert(statements_view(statements@) =~= Seq::empty());
    loop
        invariant
            stream.depth == old(stream).depth,
            depth == old(stream).depth,
            old(stream)@.leads_to(stream@),
            forall|i: int| 0 <= i < statements.len() ==> statement_ok(#[trigger] statements@[i]@),
            p_block_statements(old(stream)@, depth, Seq::empty()) == p_block_statements(
                stream@,
                depth,
                statements_view(statements@),
            ),
        decreases stream@.remaining(),
    {
        let ghost before = stream@;
        let ghost views = statements_view(statements@);
        stream.parsing_statement = true;
        let current = stream.current()?;
        match current.kind {
            TokenKind::RightBrace => {
                return Ok(statements);
            },
            _ => match parse_nested_statement(stream) {
                Ok(statement) => {
                    statements.push(statement);
                    assert(statements_view(statements@) =~= views.push(statement@));
                },
                _ => {
                    stream.advance();
                },
            },
        }
        assert(stream@.remaining() < before.remaining());
    }
}

/// Reads a block as the node that holds its statements.
pub fn parse_block_node(stream: &mut TokenStream) -> (r: Result<BlockNode, TokenError>)
    ensures
        (
            final(stream)@,
            match r {
                Ok(b) => Ok(block_view(b)),
                Err(e) => Err(e),
            },
        ) == p_block(old(stream)@, old(stream).depth as nat),
        final(stream).depth == old(stream).depth,
        old(stream)@.leads_to(final(stream)@),
        r is Ok ==> final(stream)@.idx > old(stream)@.idx && statement_ok(block_view(r->Ok_0)),
    decreases old(stream).depth, 55nat,
{
    let left = parse_kind(stream, TokenKind::LeftBrace)?;
    stream.queue_cursor_element(CompletionElement::Statement);
    let statements = parse_block_statements(stream)?;
    let right = parse_kind(stream, TokenKind::RightBrace)?;
    let block = BlockNode { statements, range: Range::new(left.range.start, right.range.end) };
    proof {
        assert forall|i: int| 0 <= i < block.statements.len() implies statement_ok(
            #[trigger] statements_view(block.statements@)[i],
        ) by {
            assert(statements_view(block.statements@)[i] == block.statements@[i]@);
        }
    }
    Ok(block)
}

/// Reads a block.
pub fn parse_block(stream: &mut TokenStream) -> (r: StatementResult)
    ensures
        parsed_statement(
            old(stream),
            final(stream),
            r,
            p_block(old(stream)@, old(stream).depth as nat),
        ),
        r is Ok ==> r->Ok_0 is Block,
    decreases old(stream).depth, 56nat,
{
    let block = parse_block_node(stream)?;
    proof {
        lemma_block_view(block);
    }
    Ok(StatementNode::Block(block))
}

/// Reads a statement.
pub fn parse_statement(stream: &mut TokenStream) -> (r: StatementResult)
    ensures
        parsed_statement(
            old(stream),
            final(stream),
            r,
            p_statement(old(stream)@, old(stream).depth as nat),
        ),
    decreases old(stream).depth, 60nat,
{
    let current = stream.current()?;
    stream.queue_cursor_element(CompletionElement::Statement);
    stream.parsing_statement = true;
    parse_statement_of(stream, current)
}

/// Reads the statement that starts with the current token, `first`.
fn parse_statement_of(stream: &mut TokenStream, first: Token) -> (r: StatementResult)
    requires
        old(stream)@.current() == Ok::<Token, TokenError>(first),
    ensures
        parsed_statement(
            old(stream),
            final(stream),
            r,
            p_statement_of(old(stream)@, old(stream).depth as nat, first),
        ),
    decreases old(stream).depth, 59nat,
{
    let kind = first.kind;
    if kind == TokenKind::Const {
        parse_var_declaration_statement(stream)
    } else if kind == TokenKind::If {
        parse_if_statement(stream)
    } else if kind == TokenKind::While {
        parse_while_statement(stream)
    } else if kind == TokenKind::For {
        parse_for_statement(stream)
    } else if kind == TokenKind::Switch {
        parse_switch_statement(stream)
    } else if kind == TokenKind::Continue {
        stream.advance();
        let _ = parse_semicolon(stream);
        Ok(StatementNode::Continue(first))
    } else if kind == TokenKind::Break {
        stream.advance();
        let _ = parse_semicolon(stream);
        Ok(StatementNode::Break(first))
    } else if kind == TokenKind::Return {
        parse_return_statement(stream)
    } else if kind == TokenKind::Identifier {
        parse_identifier_statement(stream)
    } else if kind == TokenKind::LeftBrace {
        parse_block(stream)
    } else {
        parse_expression_statement(stream)
    }
}

/// Reads an expression statement.
pub fn parse_expression_statement(stream: &mut TokenStream) -> (r: StatementResult)
    ensures
        parsed_statement(
            old(stream),
            final(stream),
            r,
            p_expression_statement(old(stream)@, old(stream).depth as nat),
        ),
    decreases old(stream).depth, 56nat,
{
    let expression = parse_expression(stream)?;
    let _ = parse_semicolon(stream);
    Ok(StatementNode::Expression(Box::new(expression)))
}

/// Reads a statement that starts with a name.
pub fn parse_identifier_statement(stream: &mut TokenStream) -> (r: StatementResult)
    ensures
        parsed_statement(
            old(stream),
            final(stream),
            r,
            p_identifier_statement(old(stream)@, old(stream).depth as nat),
        ),
    decreases old(stream).depth, 58nat,
{
    proof {
        lemma_lookahead_leaves_no_trace(stream@);
    }
    let parsing_statement = stream.parsing_statement;
    let element = stream.cursor_element.clone();
    let queue = stream.cursor_element_queue.clone();
    stream.turn_off_errors();
    let old_idx = stream.current_idx();
    let maybe_type = parse_type(stream);
    let maybe_name = parse_identifier(stream);
    stream.force_change_position(old_idx);
    stream.turn_on_errors();
    stream.parsing_statement = parsing_statement;
    stream.cursor_element = element;
    stream.cursor_element_queue = queue;
    assert(stream@ == old(stream)@.recording(true));
    if maybe_type.is_ok() && maybe_name.is_ok() {
        parse_var_declaration_statement(stream)
    } else {
        parse_expression_statement(stream)
    }
}

/// Reads a declaration.
pub fn parse_var_declaration_statement(stream: &mut TokenStream) -> (r: StatementResult)
    ensures
        parsed_statement(
            old(stream),
            final(stream),
            r,
            p_var_declaration_statement(old(stream)@, old(stream).depth as nat),
        ),
    decreases old(stream).depth, 56nat,
{
    let keyword = parse_conditional(stream, TokenKind::Const);
    let is_const = keyword.is_some();
    if is_const {
        stream.queue_cursor_element(CompletionElement::Type);
        stream.parsing_const = is_const;
    }
    let value = parse_value_specifier(stream);
    stream.parsing_const = false;
    let value = value?;
    let expression = match parse_conditional(stream, TokenKind::Equal) {
        Some(_) => Some(Box::new(parse_expression(stream)?)),
        None => None,
    };
    let _ = parse_semicolon(stream);
    Ok(
        StatementNode::VarDeclaration(
            VarDeclarationNode { keyword, value: Box::new(value), expression, is_const },
        ),
    )
}

/// Reads a keyword and a condition in parentheses behind it.
fn parse_condition(stream: &mut TokenStream, leaves_statement: bool) -> (r: Result<
    (Token, ExpressionNode),
    TokenError,
>)
    ensures
        (
            final(stream)@,
            match r {
                Ok((keyword, condition)) => Ok((keyword, condition@)),
                Err(e) => Err(e),
            },
        ) == p_condition(old(stream)@, old(stream).depth as nat, leaves_statement),
        final(stream).depth == old(stream).depth,
        old(stream)@.leads_to(final(stream)@),
        r is Ok ==> final(stream)@.idx > old(stream)@.idx && expression_ok(r->Ok_0.1@),
    decreases old(stream).depth, 54nat,
{
    let keyword = stream.consume()?;
    parse_kind(stream, TokenKind::LeftParen)?;
    if leaves_statement {
        stream.parsing_statement = false;
    }
    let condition = parse_expression(stream)?;
    parse_kind(stream, TokenKind::RightParen)?;
    Ok((keyword, condition))
}

/// Reads an `if` statement.
pub fn parse_if_statement(stream: &mut TokenStream) -> (r: StatementResult)
    ensures
        parsed_statement(
            old(stream),
            final(stream),
            r,
            p_if_statement(old(stream)@, old(stream).depth as nat),
        ),
    decreases old(stream).depth, 56nat,
{
    let (keyword, condition) = parse_condition(stream, true)?;
    let action = Box::new(parse_nested_statement(stream)?);
    stream.queue_cursor_element(CompletionElement::Identifier(stream.parsing_const));
    let alternate = match parse_conditional(stream, TokenKind::Else) {
        Some(token) => Some(
            ElseNode { keyword: token, action: Box::new(parse_nested_statement(stream)?) },
        ),
        None => None,
    };
    Ok(StatementNode::If(IfNode { keyword, condition: Box::new(condition), action, alternate }))
}

/// Reads a `while` statement.
pub fn parse_while_statement(stream: &mut TokenStream) -> (r: StatementResult)
    ensures
        parsed_statement(
            old(stream),
            final(stream),
            r,
            p_while_statement(old(stream)@, old(stream).depth as nat),
        ),
    decreases old(stream).depth, 56nat,
{
    let (keyword, condition) = parse_condition(stream, false)?;
    let action = Box::new(parse_nested_statement(stream)?);
    Ok(StatementNode::While(WhileNode { keyword, condition: Box::new(condition), action }))
}

/// Lets the block of a `for` statement span from the keyword on.
fn widen_body(action: StatementNode, keyword: Token) -> (r: StatementNode)
    requires
        statement_ok(action@),
    ensures
        r@ == for_body(action@, keyword),
        statement_ok(r@),
{
    match action {
        StatementNode::Block(block) => {
            let mut block = block;
            let ghost before = block;
            block.range.start = keyword.range.start;
            proof {
                lemma_block_view(before);
                lemma_block_view(block);
                crate::interpreter::statement_interpreter::lemma_block_statements_ok(before);
                assert forall|i: int| 0 <= i < block.statements.len() implies statement_ok(
                    #[trigger] statements_view(block.statements@)[i],
                ) by {
                    assert(statements_view(block.statements@)[i] == block.statements@[i]@);
                }
            }
            StatementNode::Block(block)
        },
        other => other,
    }
}

/// Reads a `for` statement.
pub fn parse_for_statement(stream: &mut TokenStream) -> (r: StatementResult)
    ensures
        parsed_statement(
            old(stream),
            final(stream),
            r,
            p_for_statement(old(stream)@, old(stream).depth as nat),
        ),
    decreases old(stream).depth, 56nat,
{
    let keyword = stream.consume()?;
    parse_kind(stream, TokenKind::LeftParen)?;
    let initializer = Box::new(parse_nested_statement(stream)?);
    let condition = Box::new(parse_expression(stream)?);
    let _ = parse_semicolon(stream);
    let update = Box::new(parse_expression(stream)?);
    parse_kind(stream, TokenKind::RightParen)?;
    let action = parse_nested_statement(stream)?;
    let action = widen_body(action, keyword);
    Ok(
        StatementNode::For(
            ForNode { keyword, initializer, condition, update, action: Box::new(action) },
        ),
    )
}

/// The arms of a switch up to its closing brace.
fn parse_switch_cases(stream: &mut TokenStream) -> (r: Result<Vec<SwitchCaseNode>, TokenError>)
    ensures
        (
            final(stream)@,
            match r {
                Ok(list) => Ok(cases_view(list@)),
                Err(e) => Err(e),
            },
        ) == p_switch_cases(old(stream)@, old(stream).depth as nat, Seq::empty()),
        final(stream).depth == old(stream).depth,
        old(stream)@.leads_to(final(stream)@),
        r is Ok ==> final(stream)@.idx < final(stream)@.tokens.len(),
        r is Ok ==> forall|i: int, j: int|
            0 <= i < r->Ok_0.len() && 0 <= j < r->Ok_0@[i].statements.len() ==> statement_ok(
                #[trigger] r->Ok_0@[i].statements@[j]@,
            ),
    decreases old(stream).depth, 54nat,
{
    let ghost depth = stream.depth as nat;
    let mut cases: Vec<SwitchCaseNode> = Vec::new();
    assert(cases_view(cases@) =~= Seq::empty());
    loop
        invariant
            stream.depth == old(stream).depth,
            depth == old(stream).depth,
            old(stream)@.leads_to(stream@),
            forall|i: int, j: int|
                0 <= i < cases.len() && 0 <= j < cases@[i].statements.len() ==> statement_ok(
                    #[trigger] cases@[i].statements@[j]@,
                ),
            p_switch_cases(old(stream)@, depth, Seq::empty()) == p_switch_cases(
                stream@,
                depth,
                cases_view(cases@),
            ),
        decreases stream@.remaining(),
    {
        let ghost before = stream@;
        let ghost views = cases_view(cases@);
        let current = stream.current()?;
        if let TokenKind::RightBrace = current.kind {
            return Ok(cases);
        }
        let case = parse_switch_case(stream)?;
        cases.push(case);
        assert(cases_view(cases@) =~= views.push(case@));
        assert(stream@.remaining() < before.remaining());
    }
}

/// Reads a `switch` statement.
pub fn parse_switch_statement(stream: &mut TokenStream) -> (r: StatementResult)
    ensures
        parsed_statement(
            old(stream),
            final(stream),
            r,
            p_switch_statement(old(stream)@, old(stream).depth as nat),
        ),
    decreases old(stream).depth, 56nat,
{
    let (keyword, condition) = parse_condition(stream, false)?;
    parse_kind(stream, TokenKind::LeftBrace)?;
    let cases = parse_switch_cases(stream)?;
    stream.advance();
    let node = SwitchNode { keyword, condition: Box::new(condition), cases };
    proof {
        lemma_switch_view(node);
        assert forall|i: int, j: int|
            0 <= i < cases_view(node.cases@).len() && 0 <= j < cases_view(
                node.cases@,
            )[i].statements.len() implies statement_ok(
            #[trigger] cases_view(node.cases@)[i].statements[j],
        ) by {
            assert(cases_view(node.cases@)[i] == node.cases@[i]@);
            assert(cases_view(node.cases@)[i].statements[j] == node.cases@[i].statements@[j]@);
        }
    }
    Ok(StatementNode::Switch(node))
}

/// Reads the keyword of an arm.
fn parse_case_keyword(stream: &mut TokenStream) -> (r: Result<Token, TokenError>)
    ensures
        (final(stream)@, r) == p_case_keyword(old(stream)@),
        final(stream).depth == old(stream).depth,
        old(stream)@.leads_to(final(stream)@),
        r is Ok ==> final(stream)@.idx > old(stream)@.idx,
{
    stream.queue_cursor_element(CompletionElement::SwitchCase);
    match parse_conditional(stream, TokenKind::Default) {
        Some(keyword) => Ok(keyword),
        None => {
            let keyword = parse_kind(stream, TokenKind::Case)?;
            parse_int(stream)?;
            Ok(keyword)
        },
    }
}

/// The statements of an arm.
fn parse_case_statements(stream: &mut TokenStream) -> (r: Result<Vec<StatementNode>, TokenError>)
    ensures
        (
            final(stream)@,
            match r {
                Ok(list) => Ok(statements_view(list@)),
                Err(e) => Err(e),
            },
        ) == p_case_statements(old(stream)@, old(stream).depth as nat, Seq::empty()),
        final(stream).depth == old(stream).depth,
        old(stream)@.leads_to(final(stream)@),
        r is Ok ==> forall|i: int| 0 <= i < r->Ok_0.len() ==> statement_ok(#[trigger] r->Ok_0@[i]@),
    decreases old(stream).depth, 50nat,
{
    let ghost depth = stream.depth as nat;
    let mut statements: Vec<StatementNode> = Vec::new();
    assert(statements_view(statements@) =~= Seq::empty());
    loop
        invariant
            stream.depth == old(stream).depth,
            depth == old(stream).depth,
            old(stream)@.leads_to(stream@),
            forall|i: int| 0 <= i < statements.len() ==> statement_ok(#[trigger] statements@[i]@),
            p_case_statements(old(stream)@, depth, Seq::empty()) == p_case_statements(
                stream@,
                depth,
                statements_view(statements@),
            ),
        decreases stream@.remaining(),
    {
        let ghost before = stream@;
        let ghost views = statements_view(statements@);
        let current = stream.current()?;
        match current.kind {
            TokenKind::RightBrace | TokenKind::Case | TokenKind::Default => {
                return Ok(statements);
            },
            _ => {},
        }
        let statement = parse_nested_statement(stream)?;
        statements.push(statement);
        assert(statements_view(statements@) =~= views.push(statement@));
        assert(stream@.remaining() < before.remaining());
    }
}

/// Reads one arm of a `switch` statement.
pub fn parse_switch_case(stream: &mut TokenStream) -> (r: Result<SwitchCaseNode, TokenError>)
    ensures
        (final(stream)@, read(r)) == p_switch_case(old(stream)@, old(stream).depth as nat),
        final(stream).depth == old(stream).depth,
        old(stream)@.leads_to(final(stream)@),
        r is Ok ==> final(stream)@.idx > old(stream)@.idx,
        r is Ok ==> forall|j: int|
            0 <= j < r->Ok_0.statements.len() ==> statement_ok(#[trigger] r->Ok_0.statements@[j]@),
    decreases old(stream).depth, 52nat,
{
    let keyword = parse_case_keyword(stream)?;
    parse_kind(stream, TokenKind::Colon)?;
    let statements = parse_case_statements(stream)?;
    Ok(SwitchCaseNode { keyword, statements })
}

/// Reads a `return` statement.
pub fn parse_return_statement(stream: &mut TokenStream) -> (r: StatementResult)
    ensures
        parsed_statement(
            old(stream),
            final(stream),
            r,
            p_return_statement(old(stream)@, old(stream).depth as nat),
        ),
    decreases old(stream).depth, 56nat,
{
    let keyword = stream.consume()?;
    let expression = match stream.current()?.kind {
        TokenKind::Semicolon => None,
        _ => Some(Box::new(parse_expression(stream)?)),
    };
    let _ = parse_semicolon(stream);
    Ok(StatementNode::Return(ReturnNode { keyword, expression }))
}

} // verus!

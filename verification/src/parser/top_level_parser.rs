//! Top-level declarations.

use vstd::prelude::*;
use vstd::string::*;
use crate::completion::{CompletionElement, SpecCompletionElement};

use crate::interpreter::top_level_interpreter::top_level_ok;
use crate::lexer::token::{Token, TokenKind};
use crate::lexer::token_stream::{SpecTokenStream, TokenError, TokenStream};
use crate::memory::functions::is_qualifier_kind;
use crate::memory::types::{plain_type, SpecTypeInfo, TypeInfo};

use crate::nodes::top_level_nodes::{
    params_view, values_view, ConstNode, FunctionNode, GroupUniformsNode, HintNode, ParamNode,
    RenderModeNode, ShaderTypeNode, SpecHint, SpecParam, SpecTopLevel, StructNode, TopLevelNode,
    TopLevelResult, UniformNode, VaryingNode,
};
use crate::nodes::{SpecTypeNode, SpecValueNode, TypeNode, ValueNode};
use crate::parser::expression::{p_expression, parse_expression, Parsed};
use crate::parser::statement::{p_block, parse_block_node};
use crate::parser::{
    is_number_kind, list_turn, p_kind, p_qualifier, p_type, p_value_specifier,
    parse_conditional, parse_identifier, parse_kind, parse_number, parse_qualifier, parse_type,
    parse_value_specifier, read, turn_list, ListTurn, Trailing, Turn,
};

verus! {

/// A list of items up to the token `stop`, which stays. An item that
/// cannot be read is passed over by one token and the list goes on; only
/// the end of the input fails the list.
pub open spec fn p_list<T>(
    s: SpecTokenStream,
    separator: TokenKind,
    stop: TokenKind,
    trailing: Trailing,
    item: spec_fn(SpecTokenStream) -> Parsed<T>,
    after_item: bool,
    done: Seq<T>,
) -> Parsed<Seq<T>>
    decreases s.remaining(), if after_item {
        1nat
    } else {
        0nat
    },
{
    match list_turn(s, separator, stop, trailing, after_item) {
        ListTurn::Done(s1) => (s1, Ok(done)),
        ListTurn::Ended(s1) => (s1, Err(TokenError::EofError)),
        ListTurn::Next(s1) => if s1.remaining() <= s.remaining() {
            p_list(s1, separator, stop, trailing, item, false, done)
        } else {
            (s1, Err(TokenError::EofError))
        },
        ListTurn::Item(s1) => {
            let (s2, r) = item(s1);
            match r {
                Err(TokenError::EofError) => (s2, Err(TokenError::EofError)),
                _ => {
                    let s3 = if r is Ok {
                        s2
                    } else {
                        s2.advance()
                    };
                    let grown = if r is Ok {
                        done.push(r->Ok_0)
                    } else {
                        done
                    };
                    if s3.remaining() < s.remaining() {
                        p_list(s3, separator, stop, trailing, item, true, grown)
                    } else {
                        (s3, Err(TokenError::EofError))
                    }
                },
            }
        },
    }
}

/// What the items of a list of tokens are.
#[derive(Clone, Copy, Debug, PartialEq, Eq, Structural)]
pub enum Listed {
    /// The names of render modes.
    RenderModes,
    /// Number literals.
    Numbers,
}

/// One item of a list of tokens.
pub open spec fn p_listed(s: SpecTokenStream, content: Listed) -> Parsed<Token> {
    match content {
        Listed::RenderModes => s.queued(SpecCompletionElement::RenderMode).expect(
            TokenKind::Identifier,
        ),
        Listed::Numbers => s.expect_where(|k: TokenKind| is_number_kind(k), "Expected number"@),
    }
}

/// The items of a list of tokens.
pub open spec fn listed(content: Listed) -> spec_fn(SpecTokenStream) -> Parsed<Token> {
    |s: SpecTokenStream| p_listed(s, content)
}

/// Reads a list of tokens up to the token `stop`, which stays.
pub fn parse_list(
    stream: &mut TokenStream,
    separator: TokenKind,
    stop: TokenKind,
    trailing: Trailing,
    content: Listed,
) -> (r: Result<Vec<Token>, TokenError>)
    ensures
        (
            final(stream)@,
            match r {
                Ok(list) => Ok(list@),
                Err(e) => Err(e),
            },
        ) == p_list(
            old(stream)@,
            separator,
            stop,
            trailing,
            listed(content),
            false,
            Seq::empty(),
        ),
        final(stream).depth == old(stream).depth,
        old(stream)@.leads_to(final(stream)@),
        r is Ok ==> final(stream)@.idx < final(stream)@.tokens.len(),
{
    let mut done: Vec<Token> = Vec::new();
    let mut after_item = false;
    loop
        invariant
            stream.depth == old(stream).depth,
            old(stream)@.leads_to(stream@),
            p_list(old(stream)@, separator, stop, trailing, listed(content), false, Seq::empty())
                == p_list(stream@, separator, stop, trailing, listed(content), after_item, done@),
        decreases stream@.remaining(), if after_item {
            1nat
        } else {
            0nat
        },
    {
        let ghost before = stream@;
        match turn_list(stream, separator, stop, trailing, after_item) {
            Turn::Done => {
                return Ok(done);
            },
            Turn::Ended => {
                return Err(TokenError::EofError);
            },
            Turn::Next => {
                after_item = false;
            },
            Turn::Item => {
                let item = match content {
                    Listed::RenderModes => {
                        stream.queue_cursor_element(CompletionElement::RenderMode);
                        parse_identifier(stream)
                    },
                    Listed::Numbers => parse_number(stream),
                };
                match item {
                    Ok(token) => {
                        done.push(token);
                    },
                    Err(TokenError::EofError) => {
                        return Err(TokenError::EofError);
                    },
                    Err(_) => {
                        stream.advance();
                    },
                }
                after_item = true;
                assert(stream@.remaining() < before.remaining());
            },
        }
    }
}

/// One field of a struct: types are offered for completion.
pub open spec fn p_field(s: SpecTokenStream) -> Parsed<SpecValueNode> {
    p_value_specifier(s.queued(SpecCompletionElement::Type))
}

/// The fields of a struct, each closed by a semicolon, up to the closing
/// brace, which stays.
pub open spec fn p_fields(s: SpecTokenStream) -> Parsed<Seq<SpecValueNode>> {
    p_list(
        s,
        TokenKind::Semicolon,
        TokenKind::RightBrace,
        Trailing::Enforced,
        |x: SpecTokenStream| p_field(x),
        false,
        Seq::empty(),
    )
}

/// Reads one field of a struct.
fn parse_field(stream: &mut TokenStream) -> (r: Result<ValueNode, TokenError>)
    ensures
        (final(stream)@, read(r)) == p_field(old(stream)@),
        final(stream).depth == old(stream).depth,
        old(stream)@.leads_to(final(stream)@),
        r is Ok ==> final(stream)@.idx > old(stream)@.idx,
{
    stream.queue_cursor_element(CompletionElement::Type);
    parse_value_specifier(stream)
}

/// Reads the fields of a struct.
fn parse_fields(stream: &mut TokenStream) -> (r: Result<Vec<ValueNode>, TokenError>)
    ensures
        (
            final(stream)@,
            match r {
                Ok(list) => Ok(values_view(list@)),
                Err(e) => Err(e),
            },
        ) == p_fields(old(stream)@),
        final(stream).depth == old(stream).depth,
        old(stream)@.leads_to(final(stream)@),
{
    let mut done: Vec<ValueNode> = Vec::new();
    let mut after_item = false;
    let ghost item = |x: SpecTokenStream| p_field(x);
    assert(values_view(done@) =~= Seq::empty());
    loop
        invariant
            stream.depth == old(stream).depth,
            old(stream)@.leads_to(stream@),
            item == |x: SpecTokenStream| p_field(x),
            p_fields(old(stream)@) == p_list(
                stream@,
                TokenKind::Semicolon,
                TokenKind::RightBrace,
                Trailing::Enforced,
                item,
                after_item,
                values_view(done@),
            ),
        decreases stream@.remaining(), if after_item {
            1nat
        } else {
            0nat
        },
    {
        let ghost before = stream@;
        let ghost views = values_view(done@);
        match turn_list(
            stream,
            TokenKind::Semicolon,
            TokenKind::RightBrace,
            Trailing::Enforced,
            after_item,
        ) {
            Turn::Done => {
                return Ok(done);
            },
            Turn::Ended => {
                return Err(TokenError::EofError);
            },
            Turn::Next => {
                after_item = false;
            },
            Turn::Item => {
                match parse_field(stream) {
                    Ok(value) => {
                        done.push(value);
                        assert(values_view(done@) =~= views.push(value@));
                    },
                    Err(TokenError::EofError) => {
                        return Err(TokenError::EofError);
                    },
                    Err(_) => {
                        stream.advance();
                    },
                }
                after_item = true;
                assert(stream@.remaining() < before.remaining());
            },
        }
    }
}

/// `parse_function_arg`: a qualifier if one stands there, and a typed
/// name.
pub open spec fn p_function_arg(s: SpecTokenStream) -> Parsed<SpecParam> {
    let (s1, qualifier) = p_qualifier(s);
    let (s2, value) = p_value_specifier(s1);
    match value {
        Err(e) => (s2, Err(e)),
        Ok(value_node) => (s2, Ok(SpecParam { qualifier, value_node })),
    }
}

/// Reads one parameter of a function.
pub fn parse_function_arg(stream: &mut TokenStream) -> (r: Result<ParamNode, TokenError>)
    ensures
        (final(stream)@, read(r)) == p_function_arg(old(stream)@),
        final(stream).depth == old(stream).depth,
        old(stream)@.leads_to(final(stream)@),
        r is Ok ==> final(stream)@.idx > old(stream)@.idx,
        r is Ok ==> (r->Ok_0.qualifier is Some ==> is_qualifier_kind(r->Ok_0.qualifier->0.kind)),
{
    let qualifier = parse_qualifier(stream);
    let value_node = parse_value_specifier(stream)?;
    Ok(ParamNode { qualifier, value_node })
}

/// The parameters of a function, separated by commas, up to the closing
/// parenthesis, which stays.
pub open spec fn p_params(s: SpecTokenStream) -> Parsed<Seq<SpecParam>> {
    p_list(
        s,
        TokenKind::Comma,
        TokenKind::RightParen,
        Trailing::Optional,
        |x: SpecTokenStream| p_function_arg(x),
        false,
        Seq::empty(),
    )
}

/// Reads the parameters of a function.
fn parse_params(stream: &mut TokenStream) -> (r: Result<Vec<ParamNode>, TokenError>)
    ensures
        (
            final(stream)@,
            match r {
                Ok(list) => Ok(params_view(list@)),
                Err(e) => Err(e),
            },
        ) == p_params(old(stream)@),
        final(stream).depth == old(stream).depth,
        old(stream)@.leads_to(final(stream)@),
        r is Ok ==> all_qualified(r->Ok_0@),
{
    let mut done: Vec<ParamNode> = Vec::new();
    let mut after_item = false;
    let ghost item = |x: SpecTokenStream| p_function_arg(x);
    assert(params_view(done@) =~= Seq::empty());
    loop
        invariant
            stream.depth == old(stream).depth,
            old(stream)@.leads_to(stream@),
            item == |x: SpecTokenStream| p_function_arg(x),
            forall|i: int|
                0 <= i < done.len() ==> ((#[trigger] done@[i]).qualifier is Some
                    ==> is_qualifier_kind(done@[i].qualifier->0.kind)),
            p_params(old(stream)@) == p_list(
                stream@,
                TokenKind::Comma,
                TokenKind::RightParen,
                Trailing::Optional,
                item,
                after_item,
                params_view(done@),
            ),
        decreases stream@.remaining(), if after_item {
            1nat
        } else {
            0nat
        },
    {
        let ghost before = stream@;
        let ghost views = params_view(done@);
        match turn_list(
            stream,
            TokenKind::Comma,
            TokenKind::RightParen,
            Trailing::Optional,
            after_item,
        ) {
            Turn::Done => {
                return Ok(done);
            },
            Turn::Ended => {
                return Err(TokenError::EofError);
            },
            Turn::Next => {
                after_item = false;
            },
            Turn::Item => {
                match parse_function_arg(stream) {
                    Ok(param) => {
                        done.push(param);
                        assert(params_view(done@) =~= views.push(param@));
                    },
                    Err(TokenError::EofError) => {
                        return Err(TokenError::EofError);
                    },
                    Err(_) => {
                        stream.advance();
                    },
                }
                after_item = true;
                assert(stream@.remaining() < before.remaining());
            },
        }
    }
}

/// What every production of a top-level declaration promises: the stream
/// and the result are those of the grammar, the nesting budget is as
/// before, the stream only moved forward, and a declaration that was read
/// can be evaluated.
pub open spec fn parsed_top_level(
    before: &TokenStream,
    after: &TokenStream,
    r: TopLevelResult,
    expected: Parsed<SpecTopLevel>,
) -> bool {
    &&& (after@, read(r)) == expected
    &&& after.depth == before.depth
    &&& before@.leads_to(after@)
    &&& r is Ok ==> top_level_ok(r->Ok_0@)
}

/// Whether the stream moved on, if there was anything to move past.
pub open spec fn moved_on(before: &TokenStream, after: &TokenStream) -> bool {
    before@.idx < before@.tokens.len() ==> after@.idx > before@.idx
}

/// `parse_shader_type`: the keyword and the name of the kind of shader.
pub open spec fn p_shader_type(s: SpecTokenStream) -> Parsed<SpecTopLevel> {
    let (s1, keyword) = s.consume();
    match keyword {
        Err(e) => (s1, Err(e)),
        Ok(keyword) => {
            let (s2, name) = s1.queued(SpecCompletionElement::ShaderType).expect(
                TokenKind::Identifier,
            );
            match name {
                Err(e) => (s2, Err(e)),
                Ok(shader_type) => (
                    p_kind(s2, TokenKind::Semicolon).0,
                    Ok(SpecTopLevel::ShaderType { keyword, shader_type }),
                ),
            }
        },
    }
}

/// Reads a shader-type declaration.
pub fn parse_shader_type(stream: &mut TokenStream) -> (r: TopLevelResult)
    ensures
        parsed_top_level(old(stream), final(stream), r, p_shader_type(old(stream)@)),
        moved_on(old(stream), final(stream)),
{
    let keyword = stream.consume()?;
    stream.queue_cursor_element(CompletionElement::ShaderType);
    let shader_type = parse_identifier(stream)?;
    let _ = parse_kind(stream, TokenKind::Semicolon);
    Ok(TopLevelNode::ShaderType(ShaderTypeNode { keyword, shader_type }))
}

/// `parse_render_mode`: the keyword and the names of the modes, separated
/// by commas.
pub open spec fn p_render_mode(s: SpecTokenStream) -> Parsed<SpecTopLevel> {
    let (s1, keyword) = s.consume();
    match keyword {
        Err(e) => (s1, Err(e)),
        Ok(keyword) => {
            let (s2, modes) = p_list(
                s1,
                TokenKind::Comma,
                TokenKind::Semicolon,
                Trailing::Disallowed,
                listed(Listed::RenderModes),
                false,
                Seq::empty(),
            );
            match modes {
                Err(e) => (s2, Err(e)),
                Ok(render_modes) => (
                    p_kind(s2, TokenKind::Semicolon).0,
                    Ok(SpecTopLevel::RenderMode { keyword, render_modes }),
                ),
            }
        },
    }
}

/// Reads a render-mode declaration.
pub fn parse_render_mode(stream: &mut TokenStream) -> (r: TopLevelResult)
    ensures
        parsed_top_level(old(stream), final(stream), r, p_render_mode(old(stream)@)),
        moved_on(old(stream), final(stream)),
{
    let keyword = stream.consume()?;
    let render_modes = parse_list(
        stream,
        TokenKind::Comma,
        TokenKind::Semicolon,
        Trailing::Disallowed,
        Listed::RenderModes,
    )?;
    let _ = parse_kind(stream, TokenKind::Semicolon);
    Ok(TopLevelNode::RenderMode(RenderModeNode { keyword, render_modes }))
}

/// `parse_group_uniforms`: the keyword, a group, and a subgroup behind a
/// dot.
pub open spec fn p_group_uniforms(s: SpecTokenStream) -> Parsed<SpecTopLevel> {
    let (s1, keyword) = s.consume();
    match keyword {
        Err(e) => (s1, Err(e)),
        Ok(keyword) => {
            let (s2, group) = s1.queued(SpecCompletionElement::Nothing).consume_kind(
                TokenKind::Identifier,
            );
            let (s3, dot) = s2.consume_kind(TokenKind::Dot);
            if dot is Some {
                let (s4, subgroup) = s3.expect(TokenKind::Identifier);
                match subgroup {
                    Err(e) => (s4, Err(e)),
                    Ok(subgroup) => (
                        p_kind(s4, TokenKind::Semicolon).0,
                        Ok(
                            SpecTopLevel::GroupUniforms {
                                keyword,
                                group,
                                subgroup: Some(subgroup),
                            },
                        ),
                    ),
                }
            } else {
                (
                    p_kind(s3, TokenKind::Semicolon).0,
                    Ok(SpecTopLevel::GroupUniforms { keyword, group, subgroup: None }),
                )
            }
        },
    }
}

/// Reads a group-uniforms marker.
pub fn parse_group_uniforms(stream: &mut TokenStream) -> (r: TopLevelResult)
    ensures
        parsed_top_level(old(stream), final(stream), r, p_group_uniforms(old(stream)@)),
        moved_on(old(stream), final(stream)),
{
    let keyword = stream.consume()?;
    stream.queue_cursor_element(CompletionElement::Nothing);
    let group = parse_conditional(stream, TokenKind::Identifier);
    let subgroup = match parse_conditional(stream, TokenKind::Dot) {
        Some(_) => Some(parse_identifier(stream)?),
        None => None,
    };
    let _ = parse_kind(stream, TokenKind::Semicolon);
    Ok(TopLevelNode::GroupUniforms(GroupUniformsNode { keyword, group, subgroup }))
}

/// A precision keyword if one stands there; behind it, types are offered
/// for completion.
pub open spec fn p_precision(s: SpecTokenStream) -> (SpecTokenStream, Option<Token>) {
    let (s1, precision) = s.queued(SpecCompletionElement::Precision).consume_kind(
        TokenKind::Precision,
    );
    if precision is Some {
        (s1.queued(SpecCompletionElement::Type), precision)
    } else {
        (s1, precision)
    }
}

/// Reads a precision keyword if one stands there.
fn parse_precision(stream: &mut TokenStream) -> (r: Option<Token>)
    ensures
        (final(stream)@, r) == p_precision(old(stream)@),
        final(stream).depth == old(stream).depth,
        old(stream)@.leads_to(final(stream)@),
{
    stream.queue_cursor_element(CompletionElement::Precision);
    let precision = parse_conditional(stream, TokenKind::Precision);
    if precision.is_some() {
        stream.queue_cursor_element(CompletionElement::Type);
    }
    precision
}

/// `parse_const`: the keyword, a precision, a typed name, and the value
/// behind `=`.
pub open spec fn p_const(s: SpecTokenStream, depth: nat) -> Parsed<SpecTopLevel> {
    let (s1, keyword) = s.consume();
    match keyword {
        Err(e) => (s1, Err(e)),
        Ok(keyword) => {
            let (s2, precision) = p_precision(s1);
            let (s3, value) = p_value_specifier(s2);
            match value {
                Err(e) => (s3, Err(e)),
                Ok(value) => {
                    let (s4, equal) = p_kind(s3, TokenKind::Equal);
                    match equal {
                        Err(e) => (s4, Err(e)),
                        Ok(_) => {
                            let (s5, expression) = p_expression(s4, depth);
                            match expression {
                                Err(e) => (s5, Err(e)),
                                Ok(expression) => (
                                    p_kind(s5, TokenKind::Semicolon).0,
                                    Ok(
                                        SpecTopLevel::Const {
                                            keyword,
                                            precision,
                                            value,
                                            expression,
                                        },
                                    ),
                                ),
                            }
                        },
                    }
                },
            }
        },
    }
}

/// Reads a constant declaration.
pub fn parse_const(stream: &mut TokenStream) -> (r: TopLevelResult)
    ensures
        parsed_top_level(
            old(stream),
            final(stream),
            r,
            p_const(old(stream)@, old(stream).depth as nat),
        ),
        moved_on(old(stream), final(stream)),
{
    let keyword = stream.consume()?;
    let precision = parse_precision(stream);
    let value = parse_value_specifier(stream)?;
    parse_kind(stream, TokenKind::Equal)?;
    let expression = parse_expression(stream)?;
    let _ = parse_kind(stream, TokenKind::Semicolon);
    Ok(
        TopLevelNode::Const(
            ConstNode {
                keyword,
                precision,
                value: Box::new(value),
                expression: Box::new(expression),
            },
        ),
    )
}

/// `parse_varying`: the keyword, an interpolation, a precision, and a
/// typed name.
pub open spec fn p_varying(s: SpecTokenStream) -> Parsed<SpecTopLevel> {
    let (s1, keyword) = s.consume();
    match keyword {
        Err(e) => (s1, Err(e)),
        Ok(keyword) => {
            let (s2, interpolation) = s1.queued(SpecCompletionElement::Interpolation).consume_kind(
                TokenKind::Interpolation,
            );
            let s3 = if interpolation is Some {
                s2.queued(SpecCompletionElement::Precision)
            } else {
                s2
            };
            let (s4, precision) = s3.consume_kind(TokenKind::Precision);
            let s5 = if precision is Some {
                s4.queued(SpecCompletionElement::Type)
            } else {
                s4
            };
            let (s6, value) = p_value_specifier(s5);
            match value {
                Err(e) => (s6, Err(e)),
                Ok(value) => (
                    p_kind(s6, TokenKind::Semicolon).0,
                    Ok(SpecTopLevel::Varying { keyword, interpolation, precision, value }),
                ),
            }
        },
    }
}

/// Reads a varying declaration.
pub fn parse_varying(stream: &mut TokenStream) -> (r: TopLevelResult)
    ensures
        parsed_top_level(old(stream), final(stream), r, p_varying(old(stream)@)),
        moved_on(old(stream), final(stream)),
{
    let keyword = stream.consume()?;
    stream.queue_cursor_element(CompletionElement::Interpolation);
    let interpolation = parse_conditional(stream, TokenKind::Interpolation);
    if interpolation.is_some() {
        stream.queue_cursor_element(CompletionElement::Precision);
    }
    let precision = parse_conditional(stream, TokenKind::Precision);
    if precision.is_some() {
        stream.queue_cursor_element(CompletionElement::Type);
    }
    let value = parse_value_specifier(stream)?;
    let _ = parse_kind(stream, TokenKind::Semicolon);
    Ok(
        TopLevelNode::Varying(
            VaryingNode { keyword, interpolation, precision, value: Box::new(value) },
        ),
    )
}

/// Whether a token kind is `global` or `instance`.
pub open spec fn is_sharing_kind(kind: TokenKind) -> bool {
    kind == TokenKind::Global || kind == TokenKind::Instance
}

/// The head of a uniform: `uniform`, which `global` or `instance` may
/// precede.
pub open spec fn p_uniform_head(s: SpecTokenStream) -> Parsed<(Option<Token>, Token)> {
    let (s1, plain) = s.consume_kind(TokenKind::Uniform);
    if plain is Some {
        (s1, Ok((None, plain->0)))
    } else {
        let (s2, sharing) = s1.consume_where(|k: TokenKind| is_sharing_kind(k));
        let (s3, keyword) = s2.queued(SpecCompletionElement::Uniform).consume();
        match keyword {
            Err(e) => (s3, Err(e)),
            Ok(keyword) => if keyword.kind != TokenKind::Uniform {
                (
                    s3.alert("Expected 'Uniform' keyword"@, keyword.range),
                    Err(TokenError::SyntaxError),
                )
            } else {
                (s3, Ok((sharing, keyword)))
            },
        }
    }
}

/// Reads the head of a uniform.
fn parse_uniform_head(stream: &mut TokenStream) -> (r: Result<(Option<Token>, Token), TokenError>)
    ensures
        (final(stream)@, r) == p_uniform_head(old(stream)@),
        final(stream).depth == old(stream).depth,
        old(stream)@.leads_to(final(stream)@),
        moved_on(old(stream), final(stream)),
{
    match parse_conditional(stream, TokenKind::Uniform) {
        Some(x) => Ok((None, x)),
        None => {
            let global_instance = match stream.current() {
                Ok(x) => match x.kind {
                    TokenKind::Global | TokenKind::Instance => {
                        stream.advance();
                        Some(x)
                    },
                    _ => None,
                },
                _ => None,
            };
            stream.queue_cursor_element(CompletionElement::Uniform);
            let keyword = stream.consume()?;
            if keyword.kind != TokenKind::Uniform {
                let err = stream.alert_error("Expected 'Uniform' keyword", keyword.range);
                return Err(err);
            }
            Ok((global_instance, keyword))
        },
    }
}

/// The hint of a uniform of type `ty`, behind a colon: a name, and number
/// literals in parentheses. The hints for the type are what completion
/// offers there.
pub open spec fn p_hint(s: SpecTokenStream, ty: SpecTypeInfo) -> Parsed<Option<SpecHint>> {
    let (s1, colon) = s.queued(SpecCompletionElement::Hint(ty)).consume_kind(TokenKind::Colon);
    if colon is None {
        (s1, Ok(None))
    } else {
        let (s2, identifier) = s1.queued(SpecCompletionElement::Hint(ty)).expect(
            TokenKind::Identifier,
        );
        match identifier {
            Err(e) => (s2, Err(e)),
            Ok(identifier) => {
                let (s3, open) = s2.consume_kind(TokenKind::LeftParen);
                if open is None {
                    (s3, Ok(Some(SpecHint { identifier, params: None })))
                } else {
                    let (s4, params) = p_list(
                        s3,
                        TokenKind::Comma,
                        TokenKind::RightParen,
                        Trailing::Disallowed,
                        listed(Listed::Numbers),
                        false,
                        Seq::empty(),
                    );
                    match params {
                        Err(e) => (s4, Err(e)),
                        Ok(params) => (
                            s4.advance(),
                            Ok(Some(SpecHint { identifier, params: Some(params) })),
                        ),
                    }
                }
            },
        }
    }
}

/// Reads the hint of a uniform.
fn parse_hint(stream: &mut TokenStream, ty: &TypeInfo) -> (r: Result<Option<HintNode>, TokenError>)
    ensures
        (
            final(stream)@,
            match r {
                Ok(Some(h)) => Ok(Some(h@)),
                Ok(None) => Ok(None),
                Err(e) => Err(e),
            },
        ) == p_hint(old(stream)@, ty@),
        final(stream).depth == old(stream).depth,
        old(stream)@.leads_to(final(stream)@),
{
    stream.queue_cursor_element(CompletionElement::Hint(ty.clone()));
    if parse_conditional(stream, TokenKind::Colon).is_some() {
        stream.queue_cursor_element(CompletionElement::Hint(ty.clone()));
        let identifier = parse_identifier(stream)?;
        let params = if parse_conditional(stream, TokenKind::LeftParen).is_some() {
            let list = parse_list(
                stream,
                TokenKind::Comma,
                TokenKind::RightParen,
                Trailing::Disallowed,
                Listed::Numbers,
            )?;
            stream.advance();
            Some(list)
        } else {
            None
        };
        Ok(Some(HintNode { identifier, params }))
    } else {
        Ok(None)
    }
}

/// `parse_uniform`: the head, a precision, a typed name, a hint behind a
/// colon, and a default value behind `=`.
pub open spec fn p_uniform(s: SpecTokenStream, depth: nat) -> Parsed<SpecTopLevel> {
    let (s1, head) = p_uniform_head(s);
    match head {
        Err(e) => (s1, Err(e)),
        Ok((global_instance, keyword)) => {
            let (s2, precision) = p_precision(s1);
            let (s3, value) = p_value_specifier(s2);
            match value {
                Err(e) => (s3, Err(e)),
                Ok(value) => {
                    let (s4, hint) = p_hint(s3, value.type_node.info);
                    match hint {
                        Err(e) => (s4, Err(e)),
                        Ok(hint) => {
                            let (s5, equal) = s4.consume_kind(TokenKind::Equal);
                            if equal is Some {
                                let (s6, expression) = p_expression(s5, depth);
                                match expression {
                                    Err(e) => (s6, Err(e)),
                                    Ok(expression) => (
                                        p_kind(s6, TokenKind::Semicolon).0,
                                        Ok(
                                            SpecTopLevel::Uniform {
                                                global_instance,
                                                keyword,
                                                precision,
                                                value,
                                                hint,
                                                expression: Some(expression),
                                            },
                                        ),
                                    ),
                                }
                            } else {
                                (
                                    p_kind(s5, TokenKind::Semicolon).0,
                                    Ok(
                                        SpecTopLevel::Uniform {
                                            global_instance,
                                            keyword,
                                            precision,
                                            value,
                                            hint,
                                            expression: None,
                                        },
                                    ),
                                )
                            }
                        },
                    }
                },
            }
        },
    }
}

/// Reads a uniform declaration.
pub fn parse_uniform(stream: &mut TokenStream) -> (r: TopLevelResult)
    ensures
        parsed_top_level(
            old(stream),
            final(stream),
            r,
            p_uniform(old(stream)@, old(stream).depth as nat),
        ),
        moved_on(old(stream), final(stream)),
{
    let (global_instance, keyword) = parse_uniform_head(stream)?;
    let precision = parse_precision(stream);
    let value = parse_value_specifier(stream)?;
    let hint = parse_hint(stream, &value.type_node.info)?;
    let expression = match parse_conditional(stream, TokenKind::Equal) {
        Some(_) => Some(Box::new(parse_expression(stream)?)),
        None => None,
    };
    let _ = parse_kind(stream, TokenKind::Semicolon);
    Ok(
        TopLevelNode::Uniform(
            UniformNode {
                global_instance,
                keyword,
                precision,
                value: Box::new(value),
                hint,
                expression,
            },
        ),
    )
}

/// `parse_struct`: the keyword, a name, and the fields in braces.
pub open spec fn p_struct(s: SpecTokenStream) -> Parsed<SpecTopLevel> {
    let (s1, keyword) = s.consume();
    match keyword {
        Err(e) => (s1, Err(e)),
        Ok(keyword) => {
            let (s2, identifier) = s1.queued(SpecCompletionElement::Nothing).expect(
                TokenKind::Identifier,
            );
            match identifier {
                Err(e) => (s2, Err(e)),
                Ok(identifier) => {
                    let (s3, open) = p_kind(s2, TokenKind::LeftBrace);
                    match open {
                        Err(e) => (s3, Err(e)),
                        Ok(_) => {
                            let (s4, fields) = p_fields(s3);
                            match fields {
                                Err(e) => (s4, Err(e)),
                                Ok(fields) => {
                                    let (s5, close) = p_kind(s4, TokenKind::RightBrace);
                                    match close {
                                        Err(e) => (s5, Err(e)),
                                        Ok(_) => (
                                            p_kind(s5, TokenKind::Semicolon).0,
                                            Ok(
                                                SpecTopLevel::Struct {
                                                    keyword,
                                                    identifier,
                                                    fields,
                                                },
                                            ),
                                        ),
                                    }
                                },
                            }
                        },
                    }
                },
            }
        },
    }
}

/// Reads a struct declaration.
pub fn parse_struct(stream: &mut TokenStream) -> (r: TopLevelResult)
    ensures
        parsed_top_level(old(stream), final(stream), r, p_struct(old(stream)@)),
        moved_on(old(stream), final(stream)),
{
    let keyword = stream.consume()?;
    stream.queue_cursor_element(CompletionElement::Nothing);
    let identifier = parse_identifier(stream)?;
    parse_kind(stream, TokenKind::LeftBrace)?;
    let fields = parse_fields(stream)?;
    parse_kind(stream, TokenKind::RightBrace)?;
    let _ = parse_kind(stream, TokenKind::Semicolon);
    Ok(TopLevelNode::Struct(StructNode { keyword, identifier, fields }))
}

/// The return type of a function: `void`, behind which the names of the
/// entry points are offered for completion, or a type.
pub open spec fn p_return_type(s: SpecTokenStream) -> Parsed<SpecTypeNode> {
    let (s1, void) = s.queued(SpecCompletionElement::TopLevelKeyword).consume_kind(
        TokenKind::Void,
    );
    if void is Some {
        (
            s1.queued(SpecCompletionElement::FunctionName),
            Ok(
                SpecTypeNode {
                    info: plain_type(s1.token_text(void->0)),
                    range: void->0.range,
                },
            ),
        )
    } else {
        let (s2, ty) = p_type(s1);
        match ty {
            Err(e) => (s2, Err(e)),
            Ok(ty) => (s2.queued(SpecCompletionElement::Nothing), Ok(ty)),
        }
    }
}

/// Reads the return type of a function.
fn parse_return_type(stream: &mut TokenStream) -> (r: Result<TypeNode, TokenError>)
    ensures
        (final(stream)@, read(r)) == p_return_type(old(stream)@),
        final(stream).depth == old(stream).depth,
        old(stream)@.leads_to(final(stream)@),
        at_function(old(stream)@) ==> final(stream)@.idx > old(stream)@.idx,
{
    stream.queue_cursor_element(CompletionElement::TopLevelKeyword);
    match parse_conditional(stream, TokenKind::Void) {
        Some(x) => {
            let text = stream.get_source().text_at(x.range);
            stream.queue_cursor_element(CompletionElement::FunctionName);
            Ok(TypeNode { info: TypeInfo::from_str(text.as_str()), range: x.range })
        },
        None => {
            let ty = parse_type(stream)?;
            stream.queue_cursor_element(CompletionElement::Nothing);
            Ok(ty)
        },
    }
}

/// The head of a function: a return type, a name, and the parameters in
/// parentheses.
pub open spec fn p_function_head(s: SpecTokenStream) -> Parsed<
    (SpecTypeNode, Token, Seq<SpecParam>),
> {
    let (s1, ty) = p_return_type(s);
    match ty {
        Err(e) => (s1, Err(e)),
        Ok(type_node) => {
            let (s2, identifier) = s1.expect(TokenKind::Identifier);
            match identifier {
                Err(e) => (s2, Err(e)),
                Ok(identifier) => {
                    let (s3, open) = p_kind(s2, TokenKind::LeftParen);
                    match open {
                        Err(e) => (s3, Err(e)),
                        Ok(_) => {
                            let (s4, params) = p_params(s3);
                            match params {
                                Err(e) => (s4, Err(e)),
                                Ok(params) => {
                                    let (s5, close) = p_kind(s4, TokenKind::RightParen);
                                    match close {
                                        Err(e) => (s5, Err(e)),
                                        Ok(_) => (s5, Ok((type_node, identifier, params))),
                                    }
                                },
                            }
                        },
                    }
                },
            }
        },
    }
}

/// Whether the current token can start a function.
pub open spec fn at_function(s: SpecTokenStream) -> bool {
    s.current() is Ok && (s.current()->Ok_0.kind == TokenKind::Void || s.current()->Ok_0.kind
        == TokenKind::Identifier)
}

/// Whether what stands for the qualifier of a parameter is one.
pub open spec fn qualified_spec(param: SpecParam) -> bool {
    param.qualifier is Some ==> is_qualifier_kind(param.qualifier->0.kind)
}

/// Whether what stands for the qualifier of each parameter is one.
pub open spec fn all_qualified(params: Seq<ParamNode>) -> bool {
    forall|i: int|
        0 <= i < params.len() ==> ((#[trigger] params[i]).qualifier is Some ==> is_qualifier_kind(
            params[i].qualifier->0.kind,
        ))
}

/// Reads the head of a function.
fn parse_function_head(stream: &mut TokenStream) -> (r: Result<
    (TypeNode, Token, Vec<ParamNode>),
    TokenError,
>)
    ensures
        (
            final(stream)@,
            match r {
                Ok((ty, identifier, params)) => Ok((ty@, identifier, params_view(params@))),
                Err(e) => Err(e),
            },
        ) == p_function_head(old(stream)@),
        final(stream).depth == old(stream).depth,
        old(stream)@.leads_to(final(stream)@),
        at_function(old(stream)@) ==> final(stream)@.idx > old(stream)@.idx,
        r is Ok ==> all_qualified(r->Ok_0.2@),
{
    let type_node = parse_return_type(stream)?;
    let identifier = parse_identifier(stream)?;
    parse_kind(stream, TokenKind::LeftParen)?;
    let params = parse_params(stream)?;
    parse_kind(stream, TokenKind::RightParen)?;
    Ok((type_node, identifier, params))
}

/// `parse_function`: the head and the body.
pub open spec fn p_function(s: SpecTokenStream, depth: nat) -> Parsed<SpecTopLevel> {
    let (s1, head) = p_function_head(s);
    match head {
        Err(e) => (s1, Err(e)),
        Ok((type_node, identifier, params)) => {
            let (s2, block) = p_block(s1, depth);
            match block {
                Err(e) => (s2, Err(e)),
                Ok(block) => (
                    s2.in_statement(true),
                    Ok(SpecTopLevel::Function { type_node, identifier, params, block }),
                ),
            }
        },
    }
}

/// Reads a function declaration.
pub fn parse_function(stream: &mut TokenStream) -> (r: TopLevelResult)
    ensures
        parsed_top_level(
            old(stream),
            final(stream),
            r,
            p_function(old(stream)@, old(stream).depth as nat),
        ),
        at_function(old(stream)@) ==> final(stream)@.idx > old(stream)@.idx,
{
    let (type_node, identifier, params) = parse_function_head(stream)?;
    let block = parse_block_node(stream)?;
    stream.parsing_statement = true;
    let node = FunctionNode { type_node, identifier, params, block };
    proof {
        assert forall|i: int| 0 <= i < params_view(node.params@).len() implies qualified_spec(
            #[trigger] params_view(node.params@)[i],
        ) by {
            assert(params_view(node.params@)[i] == node.params@[i]@);
        }
    }
    Ok(TopLevelNode::Function(node))
}

/// The kind of declaration that a token starts, if any.
pub open spec fn starts(kind: TokenKind) -> int {
    if kind == TokenKind::ShaderType {
        1
    } else if kind == TokenKind::RenderMode {
        2
    } else if kind == TokenKind::Const {
        3
    } else if kind == TokenKind::Varying {
        4
    } else if kind == TokenKind::Uniform || kind == TokenKind::Global || kind
        == TokenKind::Instance {
        5
    } else if kind == TokenKind::GroupUniforms {
        6
    } else if kind == TokenKind::Struct {
        7
    } else if kind == TokenKind::Void || kind == TokenKind::Identifier {
        8
    } else {
        0
    }
}

/// The declaration that starts at the current token; a token that starts
/// none is passed over.
pub open spec fn p_declaration(s: SpecTokenStream, depth: nat, first: Token) -> Parsed<
    SpecTopLevel,
> {
    let kind = starts(first.kind);
    if kind == 1 {
        p_shader_type(s)
    } else if kind == 2 {
        p_render_mode(s)
    } else if kind == 3 {
        p_const(s, depth)
    } else if kind == 4 {
        p_varying(s)
    } else if kind == 5 {
        p_uniform(s, depth)
    } else if kind == 6 {
        p_group_uniforms(s)
    } else if kind == 7 {
        p_struct(s)
    } else if kind == 8 {
        p_function(s, depth)
    } else {
        (s.advance(), Err(TokenError::SyntaxError))
    }
}

/// `parse_top_level`: the next declaration, or nothing where what stands
/// there is no declaration; fails only at the end of the input.
pub open spec fn p_top_level(s: SpecTokenStream, depth: nat) -> Parsed<Option<SpecTopLevel>> {
    match s.current() {
        Err(_) => (s, Err(TokenError::EofError)),
        Ok(t) => {
            let (s1, r) = p_declaration(s, depth, t);
            match r {
                Ok(declaration) => (s1, Ok(Some(declaration))),
                Err(_) => (s1, Ok(None)),
            }
        },
    }
}

/// Reads the declaration that starts at the current token, `first`.
fn parse_declaration(stream: &mut TokenStream, first: Token) -> (r: TopLevelResult)
    requires
        old(stream)@.current() == Ok::<Token, TokenError>(first),
    ensures
        parsed_top_level(
            old(stream),
            final(stream),
            r,
            p_declaration(old(stream)@, old(stream).depth as nat, first),
        ),
        final(stream)@.idx > old(stream)@.idx,
{
    let kind = start_of(first.kind);
    if kind == 1 {
        parse_shader_type(stream)
    } else if kind == 2 {
        parse_render_mode(stream)
    } else if kind == 3 {
        parse_const(stream)
    } else if kind == 4 {
        parse_varying(stream)
    } else if kind == 5 {
        parse_uniform(stream)
    } else if kind == 6 {
        parse_group_uniforms(stream)
    } else if kind == 7 {
        parse_struct(stream)
    } else if kind == 8 {
        parse_function(stream)
    } else {
        stream.advance();
        Err(TokenError::SyntaxError)
    }
}

fn start_of(kind: TokenKind) -> (r: u8)
    ensures
        r == starts(kind),
{
    match kind {
        TokenKind::ShaderType => 1,
        TokenKind::RenderMode => 2,
        TokenKind::Const => 3,
        TokenKind::Varying => 4,
        TokenKind::Uniform => 5,
        TokenKind::Global => 5,
        TokenKind::Instance => 5,
        TokenKind::GroupUniforms => 6,
        TokenKind::Struct => 7,
        TokenKind::Void => 8,
        TokenKind::Identifier => 8,
        _ => 0,
    }
}

/// Reads the next top-level declaration.
pub fn parse_top_level(stream: &mut TokenStream) -> (r: Result<Option<TopLevelNode>, TokenError>)
    ensures
        (
            final(stream)@,
            match r {
                Ok(Some(node)) => Ok(Some(node@)),
                Ok(None) => Ok(None),
                Err(e) => Err(e),
            },
        ) == p_top_level(old(stream)@, old(stream).depth as nat),
        final(stream).depth == old(stream).depth,
        old(stream)@.leads_to(final(stream)@),
        r is Ok ==> final(stream)@.idx > old(stream)@.idx,
        r matches Ok(Some(node)) ==> top_level_ok(node@),
{
    match stream.current() {
        Ok(token) => match parse_declaration(stream, token) {
            Ok(declaration) => Ok(Some(declaration)),
            Err(_) => Ok(None),
        },
        Err(_) => Err(TokenError::EofError),
    }
}

} // verus!

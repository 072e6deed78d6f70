use gdshader_lsp::completion::CompletionElement;
use gdshader_lsp::lexer::scanner::tokenize;
use gdshader_lsp::lexer::{MaybeOperator, OperationType, Token, TokenError, TokenKind, TokenStream};
use gdshader_lsp::position::{ExtraRange, Position, Range};

fn range(a: u32, b: u32, c: u32, d: u32) -> Range {
    Range::new(Position::new(a, b), Position::new(c, d))
}

fn kinds(source: &str) -> Vec<TokenKind> {
    TokenStream::new(source, None).tokens.iter().map(|t| t.kind).collect()
}

fn texts(source: &str) -> Vec<String> {
    let code = source.to_string();
    TokenStream::new(source, None).tokens.iter().map(|t| t.text(&code)).collect()
}

#[test]
fn comments_and_blanks_are_skipped() {
    let stream = TokenStream::new("a /* c */ b // d\nc", None);
    let ranges: Vec<Range> = stream.tokens.iter().map(|t| t.range).collect();
    assert_eq!(ranges, vec![range(0, 0, 0, 1), range(0, 10, 0, 11), range(1, 0, 1, 1)]);
    assert_eq!(kinds("a /* c */ b // d\nc"), vec![TokenKind::Identifier; 3]);
}

#[test]
fn lines_inside_a_comment_count() {
    let stream = TokenStream::new("/* a\nb */ c", None);
    assert_eq!(stream.tokens.len(), 1);
    assert_eq!(stream.tokens[0].range, range(1, 5, 1, 6));
}

#[test]
fn a_comment_that_ends_in_two_stars_is_no_comment() {
    assert_eq!(kinds("/***/"), vec![TokenKind::Slash, TokenKind::Star, TokenKind::Star, TokenKind::Star, TokenKind::Slash]);
    assert_eq!(kinds("/**/"), Vec::<TokenKind>::new());
    assert_eq!(kinds("/* a"), vec![TokenKind::Slash, TokenKind::Star, TokenKind::Identifier]);
}

#[test]
fn numbers() {
    assert_eq!(
        kinds("1 2u 3.5 .5 4. 1.0f .5f 12abc 7ux"),
        vec![
            TokenKind::IntConstant,
            TokenKind::UintConstant,
            TokenKind::FloatConstant,
            TokenKind::FloatConstant,
            TokenKind::FloatConstant,
            TokenKind::FloatConstant,
            TokenKind::FloatConstant,
            TokenKind::Identifier,
            TokenKind::IntConstant,
            TokenKind::Identifier,
            TokenKind::UintConstant,
            TokenKind::Identifier,
        ]
    );
    assert_eq!(
        texts("1 2u 3.5 .5 4. 1.0f .5f 12abc 7ux"),
        vec!["1", "2u", "3.5", ".5", "4.", "1.0f", ".5", "f", "12", "abc", "7u", "x"]
    );
}

#[test]
fn strings() {
    assert_eq!(texts("\"abc\" \"a\\\"b\" \"\""), vec!["\"abc\"", "\"a\\\"b\"", "\"\""]);
    assert_eq!(kinds("\"abc\" \"a\\\"b\" \"\""), vec![TokenKind::String; 3]);
    assert_eq!(kinds("\"abc"), vec![TokenKind::Error, TokenKind::Identifier]);
    assert_eq!(texts("\"a\\\"b"), vec!["\"a\\\"", "b"]);
}

#[test]
fn a_string_may_span_lines() {
    let stream = TokenStream::new("\"a\nbc\" d", None);
    assert_eq!(stream.tokens[0].kind, TokenKind::String);
    assert_eq!(stream.tokens[0].range, range(0, 0, 1, 3));
    assert_eq!(stream.tokens[1].range, range(1, 4, 1, 5));
    assert_eq!(stream.tokens[0].text(&"\"a\nbc\" d".to_string()), "\"a\nbc\"");
}

#[test]
fn keywords_win_over_identifiers_of_the_same_length_only() {
    assert_eq!(
        kinds("if iffy true truth flat smooth lowp mediump highp #include"),
        vec![
            TokenKind::If,
            TokenKind::Identifier,
            TokenKind::BoolConstant,
            TokenKind::Identifier,
            TokenKind::Interpolation,
            TokenKind::Interpolation,
            TokenKind::Precision,
            TokenKind::Precision,
            TokenKind::Precision,
            TokenKind::Include,
        ]
    );
    assert_eq!(kinds("# #includes"), vec![TokenKind::Error, TokenKind::Include, TokenKind::Identifier]);
}

#[test]
fn operators_take_two_characters_where_they_can() {
    assert_eq!(
        kinds("a+=b<<c<=d"),
        vec![TokenKind::Identifier, TokenKind::AddAssign, TokenKind::Identifier, TokenKind::LeftOp, TokenKind::Identifier, TokenKind::LeqOp, TokenKind::Identifier]
    );
    assert_eq!(kinds("++ -- && & == = != ! <<= "), vec![
        TokenKind::Increment, TokenKind::Decrement, TokenKind::And, TokenKind::Ampersand, TokenKind::EqOp, TokenKind::Equal, TokenKind::NeqOp, TokenKind::Bang, TokenKind::LeftOp, TokenKind::Equal
    ]);
    assert_eq!(kinds("< ="), vec![TokenKind::LeftAngle, TokenKind::Equal]);
}

#[test]
fn what_starts_no_token_is_an_error_token() {
    assert_eq!(kinds("a $ b"), vec![TokenKind::Identifier, TokenKind::Error, TokenKind::Identifier]);
    assert_eq!(kinds("a\r\nb"), vec![TokenKind::Identifier, TokenKind::Error, TokenKind::Identifier]);
    assert_eq!(kinds("@@"), vec![TokenKind::Error, TokenKind::Error]);
    assert_eq!(kinds(""), Vec::<TokenKind>::new());
}

#[test]
fn names_of_kinds() {
    assert_eq!(TokenKind::Semicolon.as_ref(), "Semicolon");
    assert_eq!(TokenKind::LeftParen.as_ref(), "LeftParen");
    assert_eq!(TokenKind::GroupUniforms.as_ref(), "GroupUniforms");
    let token = Token { kind: TokenKind::InOut, range: range(0, 0, 0, 5) };
    assert_eq!(token.as_ref(), "InOut");
}

#[test]
fn text_of_a_token_that_names_no_text_is_empty() {
    let source = "ab\ncd".to_string();
    let text = |r: Range| Token { kind: TokenKind::Identifier, range: r }.text(&source);
    assert_eq!(text(range(1, 0, 1, 2)), "cd");
    assert_eq!(text(range(0, 1, 1, 1)), "b\nc");
    assert_eq!(text(range(1, 1, 1, 9)), "");
    assert_eq!(text(range(5, 0, 5, 1)), "");
    assert_eq!(text(range(1, 2, 1, 1)), "");
}

#[test]
fn tokenize_works_on_characters() {
    let chars: Vec<char> = "é = 1;".chars().collect();
    let tokens = tokenize(&chars);
    let found: Vec<TokenKind> = tokens.iter().map(|t| t.kind).collect();
    assert_eq!(
        found,
        vec![TokenKind::Error, TokenKind::Equal, TokenKind::IntConstant, TokenKind::Semicolon]
    );
    assert_eq!(tokens[1].range, range(0, 2, 0, 3));
}

#[test]
fn a_range_contains_both_of_its_ends() {
    let r = range(0, 2, 0, 5);
    assert!(r.contains_position(Position::new(0, 2)));
    assert!(r.contains_position(Position::new(0, 5)));
    assert!(!r.contains_position(Position::new(0, 6)));
    assert!(!r.contains_position(Position::new(0, 1)));
    assert!(!r.contains_position(Position::new(1, 3)));
    let lines = range(1, 4, 3, 2);
    assert!(lines.contains_position(Position::new(2, 100)));
    assert!(lines.contains_position(Position::new(1, 4)));
    assert!(!lines.contains_position(Position::new(1, 3)));
    assert!(lines.contains_position(Position::new(3, 2)));
    assert!(!lines.contains_position(Position::new(3, 3)));
    assert!(!lines.contains_position(Position::new(0, 9)));
    assert!(!lines.contains_position(Position::new(4, 0)));
}

#[test]
fn a_range_precedes_what_lies_behind_it() {
    let r = range(0, 2, 0, 5);
    assert!(r.preceeds_position(Position::new(0, 6)));
    assert!(!r.preceeds_position(Position::new(0, 5)));
    assert!(r.preceeds_position(Position::new(1, 1)));
    assert!(!r.preceeds_position(Position::new(1, 0)));
    assert!(!r.preceeds_position(Position::new(0, 0)));
}

#[test]
fn classes_of_operators() {
    let class = |kind| Token { kind, range: range(0, 0, 0, 1) };
    assert_eq!(class(TokenKind::Plus).to_unary_op(), Some(OperationType::Number));
    assert_eq!(class(TokenKind::Dash).to_unary_op(), Some(OperationType::Number));
    assert_eq!(class(TokenKind::Bang).to_unary_op(), Some(OperationType::Bool));
    assert_eq!(class(TokenKind::Tilde).to_unary_op(), Some(OperationType::Int));
    assert_eq!(class(TokenKind::Star).to_unary_op(), None);
    assert_eq!(class(TokenKind::Percent).to_binary_op(), Some(OperationType::Int));
    assert_eq!(class(TokenKind::And).to_binary_op(), Some(OperationType::Comparison));
    assert_eq!(class(TokenKind::LeftAngle).to_binary_op(), Some(OperationType::Comparison));
    assert_eq!(class(TokenKind::Slash).to_binary_op(), Some(OperationType::Number));
    assert_eq!(class(TokenKind::NeqOp).to_binary_op(), Some(OperationType::Equal));
    assert_eq!(class(TokenKind::Equal).to_binary_op(), None);
    assert_eq!(class(TokenKind::ModAssign).to_assignment_op(), Some(OperationType::Number));
    assert_eq!(class(TokenKind::Equal).to_assignment_op(), Some(OperationType::Equal));
    assert_eq!(class(TokenKind::EqOp).to_assignment_op(), None);
}

#[test]
fn the_stream_tells_the_end_of_input_from_a_wrong_token() {
    let mut stream = TokenStream::new("a ;", None);
    assert_eq!(stream.current().map(|t| t.kind), Ok(TokenKind::Identifier));
    assert_eq!(stream.consume_token_kind(TokenKind::Semicolon), Err(TokenError::SyntaxError));
    assert_eq!(stream.current_idx(), 0);
    assert_eq!(stream.get_source().get_diagnostics().len(), 1);
    assert_eq!(stream.get_source().get_diagnostics()[0].message, "Expected Semicolon");
    assert_eq!(stream.get_source().get_diagnostics()[0].range, range(0, 0, 0, 1));
    assert_eq!(stream.consume().map(|t| t.kind), Ok(TokenKind::Identifier));
    assert_eq!(stream.consume_token_kind(TokenKind::Semicolon).map(|t| t.kind), Ok(TokenKind::Semicolon));
    assert_eq!(stream.current(), Err(TokenError::EofError));
    assert_eq!(stream.consume(), Err(TokenError::EofError));
    assert_eq!(stream.current_idx(), 3);
    assert_eq!(stream.consume_token_kind(TokenKind::Semicolon), Err(TokenError::EofError));
    assert_eq!(stream.current_idx(), 3);
    assert_eq!(stream.get_source().get_diagnostics().len(), 1);
}

#[test]
fn errors_can_be_switched_off_and_the_stream_rewound() {
    let mut stream = TokenStream::new("a b c", None);
    stream.turn_off_errors();
    let saved = stream.current_idx();
    stream.advance();
    assert_eq!(stream.consume_token_kind(TokenKind::Semicolon), Err(TokenError::SyntaxError));
    assert_eq!(stream.alert_error("nothing", range(0, 0, 0, 1)), TokenError::SyntaxError);
    assert_eq!(stream.alert_error_with("nothing", range(0, 0, 0, 1), 7), 7);
    assert_eq!(stream.get_source().get_diagnostics().len(), 0);
    stream.force_change_position(saved);
    stream.turn_on_errors();
    assert_eq!(stream.current_idx(), 0);
    assert_eq!(stream.alert_error_with("something", range(0, 2, 0, 3), 9), 9);
    assert_eq!(stream.get_source().get_diagnostics().len(), 1);
    assert_eq!(stream.get_source().get_diagnostics()[0].message, "something");
    stream.advance();
    stream.advance();
    stream.retreat();
    assert_eq!(stream.current_idx(), 1);
    assert_eq!(stream.advance_with(3), 3);
    assert_eq!(stream.current_idx(), 2);
}

#[test]
fn consume_if_leaves_what_it_does_not_want() {
    let mut stream = TokenStream::new("a ;", None);
    assert_eq!(stream.consume_if(|t| t.kind == TokenKind::Semicolon), None);
    assert_eq!(stream.current_idx(), 0);
    assert_eq!(
        stream.consume_if(|t| t.kind == TokenKind::Identifier).map(|t| t.kind),
        Some(TokenKind::Identifier)
    );
    assert_eq!(stream.current_idx(), 1);
    stream.advance();
    assert_eq!(stream.consume_if(|_| true), None);
}

#[test]
fn what_was_announced_becomes_the_answer_when_the_cursor_is_passed() {
    let mut stream = TokenStream::new("ab cd", Some(Position::new(0, 4)));
    assert!(matches!(stream.cursor_element, CompletionElement::TopLevelKeyword));
    stream.queue_cursor_element(CompletionElement::Type);
    stream.advance();
    assert!(matches!(stream.cursor_element, CompletionElement::TopLevelKeyword));
    stream.queue_cursor_element(CompletionElement::Statement);
    stream.queue_cursor_element(CompletionElement::Precision);
    stream.advance();
    assert!(matches!(stream.cursor_element, CompletionElement::Precision));
    stream.queue_cursor_element(CompletionElement::Type);
    stream.advance();
    assert!(matches!(stream.cursor_element, CompletionElement::Precision));
    assert_eq!(stream.find_cursor_text(), Some("cd".to_string()));
    assert_eq!(TokenStream::new("ab cd", None).find_cursor_text(), None);
    assert_eq!(TokenStream::new("ab   cd", Some(Position::new(0, 3))).find_cursor_text(), None);
}

#[test]
fn destroy_hands_out_tokens_and_document() {
    let stream = TokenStream::new("a b", None);
    let (tokens, source) = stream.destroy();
    assert_eq!(tokens.len(), 2);
    assert_eq!(source.get_code(), "a b");
}

#[test]
fn the_stream_moves_on_behind_the_last_token() {
    let mut stream = TokenStream::new("a", None);
    stream.advance();
    assert_eq!(stream.current_idx(), 1);
    assert_eq!(stream.current(), Err(TokenError::EofError));
    stream.advance();
    assert_eq!(stream.current_idx(), 2);
    stream.advance();
    assert_eq!(stream.current_idx(), 3);
    assert_eq!(stream.current(), Err(TokenError::EofError));
    stream.retreat();
    stream.retreat();
    assert_eq!(stream.current_idx(), 1);
    assert_eq!(stream.current(), Err(TokenError::EofError));
    stream.retreat();
    assert_eq!(stream.current().map(|t| t.kind), Ok(TokenKind::Identifier));
}

#[test]
fn the_stream_stops_at_the_largest_place() {
    let mut stream = TokenStream::new("a", None);
    stream.force_change_position(usize::MAX - 1);
    stream.advance();
    assert_eq!(stream.current_idx(), usize::MAX);
    stream.advance();
    assert_eq!(stream.current_idx(), usize::MAX);
    assert_eq!(stream.consume(), Err(TokenError::EofError));
    assert_eq!(stream.current_idx(), usize::MAX);
}

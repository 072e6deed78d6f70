use gdshader_lsp::completion::CompletionElement;
use gdshader_lsp::lexer::{TokenError, TokenKind, TokenStream};
use gdshader_lsp::nodes::{
    BlockNode, ExpressionNode, FunctionNode, StatementNode, TopLevelNode,
};
use gdshader_lsp::parse_tokens;
use gdshader_lsp::parser::top_level_parser::Listed;
use gdshader_lsp::parser::{
    parse_block, parse_conditional, parse_expression, parse_identifier, parse_int, parse_kind,
    parse_list, parse_number, parse_positive_int, parse_primitive, parse_qualifier,
    parse_semicolon, parse_size, parse_statement, parse_top_level, parse_type,
    parse_value_specifier, Trailing,
};
use gdshader_lsp::position::{Position, Range};

fn range(a: u32, b: u32, c: u32, d: u32) -> Range {
    Range::new(Position::new(a, b), Position::new(c, d))
}

fn parse(source: &str) -> (Vec<TopLevelNode>, Vec<String>) {
    let mut stream = TokenStream::new(source, None);
    let nodes = parse_tokens(&mut stream);
    let (_, document) = stream.destroy();
    let messages = document.get_diagnostics().iter().map(|d| d.message.clone()).collect();
    (nodes, messages)
}

fn function(node: &TopLevelNode) -> &FunctionNode {
    match node {
        TopLevelNode::Function(f) => f,
        _ => panic!("not a function"),
    }
}

fn body(source: &str) -> (BlockNode, Vec<String>) {
    let (mut nodes, messages) = parse(source);
    assert_eq!(nodes.len(), 1);
    match nodes.remove(0) {
        TopLevelNode::Function(f) => (f.block, messages),
        _ => panic!("not a function"),
    }
}

fn expression(statement: &StatementNode) -> &ExpressionNode {
    match statement {
        StatementNode::Expression(e) => e,
        _ => panic!("not an expression statement"),
    }
}

fn none() -> Vec<String> {
    Vec::new()
}

#[test]
fn operators_are_read_from_left_to_right() {
    let (block, messages) = body("void f() { 1 + 2 * 3; }");
    assert_eq!(messages, none());
    match expression(&block.statements[0]) {
        ExpressionNode::Binary(outer) => {
            assert_eq!(outer.op.kind, TokenKind::Star);
            assert!(matches!(*outer.right, ExpressionNode::Primitive(_)));
            match &*outer.left {
                ExpressionNode::Binary(inner) => assert_eq!(inner.op.kind, TokenKind::Plus),
                _ => panic!("the left operand is no binary expression"),
            }
        },
        _ => panic!("not a binary expression"),
    }
}

#[test]
fn an_assignment_takes_a_whole_expression() {
    let (block, messages) = body("void f() { a = b + c; }");
    assert_eq!(messages, none());
    match expression(&block.statements[0]) {
        ExpressionNode::Assignment(x) => {
            assert_eq!(x.op.kind, TokenKind::Equal);
            assert!(matches!(*x.left, ExpressionNode::Identifier(_)));
            assert!(matches!(*x.right, ExpressionNode::Binary(_)));
        },
        _ => panic!("not an assignment"),
    }
}

#[test]
fn a_name_starts_a_declaration_or_an_expression() {
    let (block, messages) = body("void f() { foo x; x = 1; foo(1); foo[2] y; }");
    assert_eq!(messages, none());
    assert_eq!(block.statements.len(), 4);
    assert!(matches!(block.statements[0], StatementNode::VarDeclaration(_)));
    assert!(matches!(expression(&block.statements[1]), ExpressionNode::Assignment(_)));
    assert!(matches!(expression(&block.statements[2]), ExpressionNode::Call(_)));
    match &block.statements[3] {
        StatementNode::VarDeclaration(d) => {
            assert_eq!(d.value.type_node.info.to_string(), "foo[2]");
            assert!(!d.is_const);
            assert!(d.expression.is_none());
        },
        _ => panic!("not a declaration"),
    }
}

#[test]
fn every_syntax_error_gives_one_diagnostic() {
    let (nodes, messages) = parse("void f() { int x = ; }\nvoid g() { int y = ; }");
    assert_eq!(nodes.len(), 2);
    assert_eq!(messages, vec!["Expected Expression", "Expected Expression"]);
    assert_eq!(function(&nodes[0]).block.statements.len(), 0);
    assert_eq!(function(&nodes[1]).block.range, range(1, 9, 1, 22));
}

#[test]
fn what_is_no_declaration_is_passed_over() {
    let (nodes, messages) = parse("; 1 + ; shader_type spatial;");
    assert_eq!(nodes.len(), 1);
    assert!(matches!(nodes[0], TopLevelNode::ShaderType(_)));
    assert_eq!(messages, none());
}

#[test]
fn render_modes_are_separated_by_commas() {
    let modes = |source: &str| {
        let (nodes, messages) = parse(source);
        match &nodes[0] {
            TopLevelNode::RenderMode(x) => (x.render_modes.len(), messages),
            _ => panic!("not a render mode"),
        }
    };
    assert_eq!(modes("render_mode unshaded, cull_back;"), (2, none()));
    assert_eq!(modes("render_mode unshaded,;"), (1, vec!["Unexpected Semicolon".to_string()]));
    assert_eq!(modes("render_mode a b;"), (2, vec!["Expected Comma or Semicolon".to_string()]));
    assert_eq!(modes("render_mode 1, a;"), (1, vec!["Expected Identifier".to_string()]));
}

#[test]
fn fields_of_a_struct_end_in_semicolons() {
    let fields = |source: &str| {
        let (nodes, messages) = parse(source);
        match &nodes[0] {
            TopLevelNode::Struct(x) => (x.fields.len(), messages),
            _ => panic!("not a struct"),
        }
    };
    assert_eq!(fields("struct S { float a; vec3 b; };"), (2, none()));
    assert_eq!(fields("struct S { float a };"), (1, vec!["Expected Semicolon".to_string()]));
    assert_eq!(fields("struct S { };"), (0, none()));
}

#[test]
fn a_uniform_with_all_its_parts() {
    let (nodes, messages) = parse("global uniform lowp float x : hint_range(0, 1.5) = 0.5;");
    assert_eq!(messages, none());
    match &nodes[0] {
        TopLevelNode::Uniform(x) => {
            assert_eq!(x.global_instance.map(|t| t.kind), Some(TokenKind::Global));
            assert_eq!(x.keyword.kind, TokenKind::Uniform);
            assert_eq!(x.precision.map(|t| t.kind), Some(TokenKind::Precision));
            assert_eq!(x.value.type_node.info.to_string(), "float");
            assert_eq!(x.value.range, range(0, 20, 0, 27));
            let hint = x.hint.as_ref().unwrap();
            assert_eq!(hint.params.as_ref().map(|p| p.len()), Some(2));
            assert!(x.expression.is_some());
        },
        _ => panic!("not a uniform"),
    }
    let (nodes, messages) = parse("instance float x;");
    assert_eq!(nodes.len(), 0);
    assert_eq!(messages, vec!["Expected 'Uniform' keyword", "Expected Identifier"]);
}

#[test]
fn other_declarations() {
    let (nodes, messages) =
        parse("group_uniforms a.b;\nvarying flat highp vec2 uv;\nconst mediump int N = 3;");
    assert_eq!(messages, none());
    match &nodes[0] {
        TopLevelNode::GroupUniforms(x) => {
            assert!(x.group.is_some());
            assert!(x.subgroup.is_some());
        },
        _ => panic!("not a group"),
    }
    match &nodes[1] {
        TopLevelNode::Varying(x) => {
            assert_eq!(x.interpolation.map(|t| t.kind), Some(TokenKind::Interpolation));
            assert_eq!(x.precision.map(|t| t.kind), Some(TokenKind::Precision));
        },
        _ => panic!("not a varying"),
    }
    match &nodes[2] {
        TopLevelNode::Const(x) => {
            assert!(x.precision.is_some());
            assert!(matches!(*x.expression, ExpressionNode::Primitive(_)));
        },
        _ => panic!("not a const"),
    }
}

#[test]
fn parameters_of_a_function() {
    let (nodes, messages) = parse("vec3 f(in float a, inout vec3 b[2], int c,) { }");
    assert_eq!(messages, none());
    let f = function(&nodes[0]);
    assert_eq!(f.type_node.info.to_string(), "vec3");
    assert_eq!(f.params.len(), 3);
    assert_eq!(f.params[0].qualifier.map(|t| t.kind), Some(TokenKind::In));
    assert_eq!(f.params[1].qualifier.map(|t| t.kind), Some(TokenKind::InOut));
    assert_eq!(f.params[1].value_node.type_node.info.to_string(), "vec3[2]");
    assert!(f.params[2].qualifier.is_none());
    assert_eq!(f.block.range, range(0, 44, 0, 47));
}

#[test]
fn array_sizes() {
    let (block, messages) = body("void f() { float a[3]; float[2] b; float[2] c[3]; }");
    assert_eq!(messages, vec!["Array size cannot be defined twice."]);
    assert_eq!(block.statements.len(), 2);
    let size = |source: &str| {
        let mut stream = TokenStream::new(source, None);
        let result = parse_size(&mut stream);
        (result, stream.current_idx(), stream.get_source().get_diagnostics().len())
    };
    assert_eq!(size("[12]"), (Ok((12, Some(range(0, 1, 0, 3)))), 3, 0));
    assert_eq!(size("[7u] x"), (Ok((7, Some(range(0, 1, 0, 3)))), 3, 0));
    assert_eq!(size("x"), (Ok((0, None)), 0, 0));
    assert_eq!(size("[0]"), (Err(TokenError::SyntaxError), 2, 1));
    assert_eq!(size("[x]"), (Err(TokenError::SyntaxError), 1, 1));
    assert_eq!(size("[4294967296]"), (Err(TokenError::SyntaxError), 1, 1));
    assert_eq!(size("[4294967295]"), (Ok((4294967295, Some(range(0, 1, 0, 11)))), 3, 0));
    assert_eq!(size("[3"), (Err(TokenError::EofError), 2, 0));
    assert_eq!(size("["), (Err(TokenError::EofError), 1, 0));
}

#[test]
fn what_nests_too_deeply_is_refused() {
    let mut source = String::from("void f() { ");
    for _ in 0..300 {
        source.push('(');
    }
    source.push('1');
    for _ in 0..300 {
        source.push(')');
    }
    source.push_str("; }");
    let (_, messages) = parse(&source);
    assert_eq!(messages[0], "Nested too deeply");
    let mut source = String::from("void f() { ");
    for _ in 0..100 {
        source.push('(');
    }
    source.push('1');
    for _ in 0..100 {
        source.push(')');
    }
    source.push_str("; }");
    let (nodes, messages) = parse(&source);
    assert_eq!(messages, none());
    assert_eq!(nodes.len(), 1);
}

#[test]
fn an_expression_needs_input_behind_it() {
    let mut stream = TokenStream::new("a", None);
    assert!(matches!(parse_expression(&mut stream), Err(TokenError::EofError)));
    let mut stream = TokenStream::new(")", None);
    assert!(matches!(parse_expression(&mut stream), Err(TokenError::SyntaxError)));
    assert_eq!(stream.get_source().get_diagnostics()[0].message, "Expected Expression");
    assert_eq!(stream.current_idx(), 0);
}

#[test]
fn what_is_attached_to_an_operand() {
    let mut stream = TokenStream::new("a.b[1]++ ? -c : f(d, {1, 2},);", None);
    let parsed = parse_expression(&mut stream).unwrap();
    assert_eq!(stream.get_source().get_diagnostics().len(), 0);
    assert_eq!(stream.current().map(|t| t.kind), Ok(TokenKind::Semicolon));
    assert_eq!(parsed.range(), range(0, 0, 0, 26));
    match parsed {
        ExpressionNode::Conditional(x) => {
            match *x.condition {
                ExpressionNode::Increment(i) => {
                    assert!(!i.is_prefix);
                    match *i.arg {
                        ExpressionNode::ArrayAccess(a) => {
                            assert!(matches!(*a.argument, ExpressionNode::MemberAccess(_)));
                        },
                        _ => panic!("not an array access"),
                    }
                },
                _ => panic!("not an increment"),
            }
            assert!(matches!(*x.action, ExpressionNode::Unary(_)));
            match *x.alternate {
                ExpressionNode::Call(call) => {
                    assert_eq!(call.args.len(), 2);
                    assert!(call.args[0].qualifier.is_none());
                    match &call.args[1].expression {
                        ExpressionNode::ArrayLiteral(items) => assert_eq!(items.len(), 2),
                        _ => panic!("not an array literal"),
                    }
                },
                _ => panic!("not a call"),
            }
        },
        _ => panic!("not a conditional"),
    }
}

#[test]
fn ranges_of_expressions() {
    let of = |source: &str| {
        let mut stream = TokenStream::new(source, None);
        parse_expression(&mut stream).unwrap().range()
    };
    assert_eq!(of("a + bcd;"), range(0, 0, 0, 7));
    assert_eq!(of("(a);"), range(0, 1, 0, 2));
    assert_eq!(of("-a;"), range(0, 0, 0, 2));
    assert_eq!(of("++a;"), range(0, 0, 0, 3));
    assert_eq!(of("a--;"), range(0, 0, 0, 3));
    assert_eq!(of("f();"), range(0, 0, 0, 1));
    assert_eq!(of("f(a, bc);"), range(0, 0, 0, 7));
    assert_eq!(of("a.xyz;"), range(0, 0, 0, 5));
    assert_eq!(of("a[10];"), range(0, 0, 0, 4));
    assert_eq!(of("{a, b};"), range(0, 1, 0, 5));
    assert_eq!(of("{};"), range(0, 0, 0, 0));
    assert_eq!(of("a\n= b;"), range(0, 0, 1, 3));
}

#[test]
fn statements_of_every_kind() {
    let source = "void f() {
        const int a = 1;
        if (a) b; else { c; }
        while (a) { continue; }
        for (int i = 0; i < 3; i++) { break; }
        switch (a) { case 0: b; c; default: d; }
        return a;
        { }
    }";
    let (block, messages) = body(source);
    assert_eq!(messages, none());
    assert_eq!(block.statements.len(), 7);
    match &block.statements[0] {
        StatementNode::VarDeclaration(d) => {
            assert!(d.is_const);
            assert!(d.keyword.is_some());
        },
        _ => panic!("not a declaration"),
    }
    match &block.statements[1] {
        StatementNode::If(x) => {
            assert!(matches!(*x.action, StatementNode::Expression(_)));
            let other = x.alternate.as_ref().unwrap();
            assert!(matches!(*other.action, StatementNode::Block(_)));
        },
        _ => panic!("not an if"),
    }
    assert!(matches!(block.statements[2], StatementNode::While(_)));
    match &block.statements[3] {
        StatementNode::For(x) => {
            assert!(matches!(*x.initializer, StatementNode::VarDeclaration(_)));
            match &*x.action {
                StatementNode::Block(b) => {
                    assert_eq!(b.range.start, x.keyword.range.start);
                    assert!(matches!(b.statements[0], StatementNode::Break(_)));
                },
                _ => panic!("not a block"),
            }
        },
        _ => panic!("not a for"),
    }
    match &block.statements[4] {
        StatementNode::Switch(x) => {
            assert_eq!(x.cases.len(), 2);
            assert_eq!(x.cases[0].keyword.kind, TokenKind::Case);
            assert_eq!(x.cases[0].statements.len(), 2);
            assert_eq!(x.cases[1].keyword.kind, TokenKind::Default);
            assert_eq!(x.cases[1].statements.len(), 1);
        },
        _ => panic!("not a switch"),
    }
    match &block.statements[5] {
        StatementNode::Return(x) => assert!(x.expression.is_some()),
        _ => panic!("not a return"),
    }
    assert!(matches!(block.statements[6], StatementNode::Block(_)));
}

#[test]
fn a_missing_semicolon_does_not_fail_the_statement() {
    let (block, messages) = body("void f() { a = 1 }");
    assert_eq!(messages, vec!["Expected Semicolon"]);
    assert_eq!(block.statements.len(), 1);
}

#[test]
fn small_productions() {
    let mut stream = TokenStream::new("x ; 1 2u 3.0 true in vec3[2] float y[4] {", None);
    assert!(parse_conditional(&mut stream, TokenKind::Semicolon).is_none());
    assert_eq!(parse_identifier(&mut stream).map(|t| t.kind), Ok(TokenKind::Identifier));
    assert_eq!(parse_semicolon(&mut stream).map(|t| t.kind), Ok(TokenKind::Semicolon));
    assert_eq!(parse_int(&mut stream).map(|t| t.kind), Ok(TokenKind::IntConstant));
    assert_eq!(parse_positive_int(&mut stream), Some(2));
    assert_eq!(parse_positive_int(&mut stream), None);
    assert_eq!(parse_int(&mut stream), Err(TokenError::SyntaxError));
    assert_eq!(parse_number(&mut stream).map(|t| t.kind), Ok(TokenKind::FloatConstant));
    assert_eq!(parse_number(&mut stream), Err(TokenError::SyntaxError));
    assert_eq!(parse_primitive(&mut stream).map(|t| t.kind), Some(TokenKind::BoolConstant));
    assert!(parse_primitive(&mut stream).is_none());
    assert_eq!(parse_qualifier(&mut stream).map(|t| t.kind), Some(TokenKind::In));
    assert!(parse_qualifier(&mut stream).is_none());
    let ty = parse_type(&mut stream).unwrap();
    assert_eq!(ty.info.to_string(), "vec3[2]");
    assert_eq!(ty.range, range(0, 21, 0, 27));
    let value = parse_value_specifier(&mut stream).unwrap();
    assert_eq!(value.type_node.info.to_string(), "float[4]");
    assert_eq!(value.range, range(0, 29, 0, 38));
    assert_eq!(parse_kind(&mut stream, TokenKind::LeftBrace).map(|t| t.kind), Ok(TokenKind::LeftBrace));
    assert_eq!(parse_kind(&mut stream, TokenKind::LeftBrace), Err(TokenError::EofError));
    let messages: Vec<String> =
        stream.get_source().get_diagnostics().iter().map(|d| d.message.clone()).collect();
    assert_eq!(messages, vec!["Expected integer constant.", "Expected number"]);
}

#[test]
fn lists_of_tokens() {
    let list = |source: &str, trailing: Trailing| {
        let mut stream = TokenStream::new(source, None);
        let result = parse_list(
            &mut stream,
            TokenKind::Comma,
            TokenKind::RightParen,
            trailing,
            Listed::Numbers,
        );
        let messages: Vec<String> =
            stream.get_source().get_diagnostics().iter().map(|d| d.message.clone()).collect();
        (result.map(|l| l.len()), stream.current_idx(), messages)
    };
    assert_eq!(list("1, 2)", Trailing::Optional), (Ok(2), 3, none()));
    assert_eq!(list("1, 2,)", Trailing::Optional), (Ok(2), 4, none()));
    assert_eq!(list("1, 2,)", Trailing::Enforced), (Ok(2), 4, none()));
    assert_eq!(
        list("1, 2)", Trailing::Enforced),
        (Ok(2), 3, vec!["Expected Comma".to_string()])
    );
    assert_eq!(
        list("1, 2,)", Trailing::Disallowed),
        (Ok(2), 4, vec!["Unexpected RightParen".to_string()])
    );
    assert_eq!(list(")", Trailing::Optional), (Ok(0), 0, none()));
    assert_eq!(list("1, 2", Trailing::Optional), (Err(TokenError::EofError), 3, none()));
    assert_eq!(
        list("1 x 2)", Trailing::Optional),
        (
            Ok(2),
            3,
            vec![
                "Expected Comma or RightParen".to_string(),
                "Expected number".to_string(),
                "Expected Comma or RightParen".to_string(),
            ]
        )
    );
}

#[test]
fn the_parser_announces_what_completion_is_to_offer() {
    let element = |source: &str, character: u32| {
        let mut stream = TokenStream::new(source, Some(Position::new(0, character)));
        parse_tokens(&mut stream);
        stream.cursor_element
    };
    assert!(matches!(element("shader_type spatial;", 14), CompletionElement::ShaderType));
    assert!(matches!(element("render_mode unshaded;", 14), CompletionElement::RenderMode));
    assert!(matches!(element("void vertex() { }", 7), CompletionElement::FunctionName));
    assert!(matches!(element("uniform float x : hint_range(0, 1);", 20), CompletionElement::Hint(_)));
    assert!(matches!(element("void f() { a = bc; }", 16), CompletionElement::Identifier(false)));
    assert!(matches!(element("void f() { ret; }", 13), CompletionElement::Statement));
    assert!(matches!(element("void f() { v.x; }", 13), CompletionElement::Member(_)));
    assert!(matches!(element("void f() { foo bar; }", 16), CompletionElement::Nothing));
    assert!(matches!(element("void f() { }", 2), CompletionElement::TopLevelKeyword));
}

#[test]
fn blocks_and_statements_on_their_own() {
    let mut stream = TokenStream::new("{ a; b; } c; ", None);
    match parse_block(&mut stream) {
        Ok(StatementNode::Block(b)) => {
            assert_eq!(b.statements.len(), 2);
            assert_eq!(b.range, range(0, 0, 0, 9));
        },
        _ => panic!("not a block"),
    }
    assert!(matches!(parse_statement(&mut stream), Ok(StatementNode::Expression(_))));
    assert!(matches!(parse_statement(&mut stream), Err(TokenError::EofError)));
    assert!(matches!(parse_top_level(&mut stream), Err(TokenError::EofError)));
}

#[test]
fn the_whole_input_is_read_whatever_it_holds() {
    let sources = [
        "void f() { int x = ; }",
        "((((",
        "struct { ;;; }",
        "}{)(",
        "void f() { if (a { b; } else",
        "uniform float x : hint_range(0,",
        "render_mode a, b",
        "",
    ];
    for source in sources {
        let mut stream = TokenStream::new(source, None);
        parse_tokens(&mut stream);
        assert_eq!(stream.current(), Err(TokenError::EofError));
        assert!(stream.current_idx() >= stream.tokens.len());
    }
}

use gdshader_lsp::completion::{
    get_completion_items, get_hover_description, is_expression_ok, shader_file_path,
    CompletionElement, CompletionItem, CompletionItemKind, HoverContents, InsertTextFormat,
    MarkupKind,
};
use gdshader_lsp::evaluate_tree;
use gdshader_lsp::lexer::{Token, TokenKind, TokenStream};
use gdshader_lsp::memory::{Memory, TypeInfo};
use gdshader_lsp::nodes::{BinaryNode, ExpressionNode};
use gdshader_lsp::parse_tokens;
use gdshader_lsp::position::{Position, Range};

fn environment(source: &str, cursor: Option<Position>) -> (Memory, CompletionElement) {
    let mut memory = Memory::new(source, Some("root".to_string()));
    let mut stream = TokenStream::new(source, cursor);
    let tree = parse_tokens(&mut stream);
    evaluate_tree(&mut memory, tree);
    (memory, stream.cursor_element)
}

fn complete(source: &str, line: u32, character: u32) -> Vec<CompletionItem> {
    let cursor = Position::new(line, character);
    let (mut memory, element) = environment(source, Some(cursor));
    get_completion_items(&mut memory, cursor, &element, &Vec::new())
}

fn labels(items: &Vec<CompletionItem>) -> Vec<String> {
    items.iter().map(|item| item.label.clone()).collect()
}

fn offered(element: CompletionElement) -> Vec<String> {
    let (mut memory, _) = environment("", None);
    labels(&get_completion_items(&mut memory, Position::new(0, 0), &element, &Vec::new()))
}

#[test]
fn kinds_of_shader() {
    let items = complete("shader_type spatial;", 0, 14);
    assert_eq!(labels(&items), vec!["spatial", "canvas_item", "particles", "sky", "fog"]);
    assert!(items.iter().all(|item| item.kind == Some(CompletionItemKind::Value)));
    assert!(items.iter().all(|item| item.insert_text.is_none()));
}

#[test]
fn at_top_level() {
    let items = complete("", 0, 0);
    assert_eq!(items.len(), 30);
    assert_eq!(items[0].label, "shader_type");
    assert_eq!(items[0].kind, Some(CompletionItemKind::Keyword));
    assert_eq!(items[9].label, "void");
    assert_eq!(items[10].label, "bool");
    assert_eq!(items[10].kind, Some(CompletionItemKind::TypeParameter));
    assert_eq!(items[28].label, "mat4");
    assert_eq!(items[29].label, "#include");
    assert_eq!(items[29].kind, Some(CompletionItemKind::Value));
    assert_eq!(items[29].insert_text, Some("include".to_string()));
}

#[test]
fn members_of_a_vector_and_of_a_struct() {
    let items = complete("void f() { vec3 v = vec3(1.0); v.x; }", 0, 33);
    assert_eq!(labels(&items), vec!["x", "y", "z"]);
    assert!(items.iter().all(|item| item.kind == Some(CompletionItemKind::Field)));
    let items = complete("void f() { ivec2 v = ivec2(1); v.x; }", 0, 33);
    assert_eq!(labels(&items), vec!["x", "y"]);
    let items = complete("void f() { uvec4 v = uvec4(1u); v.x; }", 0, 34);
    assert_eq!(labels(&items), vec!["x", "y", "z", "w"]);
    let items = complete("struct S { float a; vec3 b; };\nvoid f() { S s; s.a; }", 1, 18);
    assert_eq!(labels(&items), vec!["a", "b"]);
    let items = complete("void f() { float a[2]; a.x; }", 0, 25);
    assert_eq!(labels(&items), Vec::<String>::new());
    let items = complete("void f() { float a = 1.0; a.x; }", 0, 28);
    assert_eq!(labels(&items), Vec::<String>::new());
    let items = complete("void f() { nothing.x; }", 0, 19);
    assert_eq!(labels(&items), Vec::<String>::new());
}

#[test]
fn asking_for_members_evaluates_the_expression() {
    let source = "void f() { nothing.x; }";
    let cursor = Position::new(0, 19);
    let (mut memory, element) = environment(source, Some(cursor));
    assert_eq!(memory.get_source().get_diagnostics().len(), 1);
    assert_eq!(memory.scopes.current(), 0);
    let items = get_completion_items(&mut memory, cursor, &element, &Vec::new());
    assert!(items.is_empty());
    assert_eq!(memory.get_source().get_diagnostics().len(), 2);
    assert_eq!(memory.scopes.current(), 1);
}

#[test]
fn at_the_start_of_a_statement() {
    let items = complete("void f() { int local = 1; ret; }", 0, 27);
    let found = labels(&items);
    assert_eq!(found.len(), 141);
    assert_eq!(found[0], "for");
    assert_eq!(found[9], "false");
    assert_eq!(found[10], "bool");
    assert!(found.contains(&"sin()".to_string()));
    assert!(found.contains(&"f()".to_string()));
    assert!(!found.contains(&"vec3()".to_string()));
    assert!(found.contains(&"vec3".to_string()));
    assert!(!found.contains(&"void".to_string()));
    assert_eq!(found[136..], ["local", "TIME", "PI", "TAU", "E"]);
    let sin = items.iter().find(|item| item.label == "sin()").unwrap();
    assert_eq!(sin.kind, Some(CompletionItemKind::Function));
    assert_eq!(sin.insert_text, Some("sin($0)".to_string()));
    assert_eq!(sin.insert_text_format, Some(InsertTextFormat::Snippet));
    let local = items.iter().find(|item| item.label == "local").unwrap();
    assert_eq!(local.kind, Some(CompletionItemKind::Variable));
}

#[test]
fn inside_an_expression() {
    let items = complete("const float K = 1.0;\nstruct S { float a; };\nconst float L = K;", 2, 16);
    let found = labels(&items);
    assert_eq!(found.len(), 2 + 125 + 6 + 1);
    assert_eq!(found[..2], ["true", "false"]);
    assert_eq!(found[127..], ["TIME", "PI", "TAU", "E", "K", "L", "S"]);
    assert_eq!(items[133].kind, Some(CompletionItemKind::Struct));
    let found = offered(CompletionElement::Identifier(true));
    assert_eq!(found.len(), 2 + 19 + 4);
    assert!(found.contains(&"vec3()".to_string()));
    assert!(!found.contains(&"sin()".to_string()));
}

#[test]
fn hints_for_the_type_of_a_uniform() {
    let items = complete("uniform float x : hint_range(0, 1);", 0, 20);
    assert_eq!(labels(&items), vec!["hint_range"]);
    assert_eq!(items[0].kind, None);
    assert_eq!(items[0].insert_text, Some("hint_range($0)".to_string()));
    assert_eq!(items[0].insert_text_format, Some(InsertTextFormat::Snippet));
    let items = complete("uniform vec3 x : source_color;", 0, 20);
    assert_eq!(labels(&items), vec!["source_color"]);
    assert_eq!(items[0].insert_text, Some("source_color".to_string()));
    assert_eq!(offered(CompletionElement::Hint(TypeInfo::from_str("sampler2D"))).len(), 23);
    assert_eq!(offered(CompletionElement::Hint(TypeInfo::from_str("mat3"))).len(), 0);
}

#[test]
fn render_modes_and_entry_points_of_the_shader() {
    let items = complete("shader_type particles;\nrender_mode keep_data;", 1, 14);
    assert_eq!(
        labels(&items),
        vec!["keep_data", "disable_force", "disable_velocity", "collision_use_scale"]
    );
    assert!(items.iter().all(|item| item.kind == Some(CompletionItemKind::Value)));
    let items = complete("shader_type particles;\nvoid start() { }", 1, 7);
    assert_eq!(labels(&items), vec!["start", "process"]);
    assert_eq!(labels(&complete("shader_type sky;\nvoid fog() { }", 1, 7)), vec!["fog"]);
    assert_eq!(labels(&complete("shader_type fog;\nvoid sky() { }", 1, 7)), vec!["sky"]);
    assert_eq!(labels(&complete("void vertex() { }", 0, 7)), vec!["fragment", "vertex", "light"]);
    assert_eq!(offered(CompletionElement::RenderMode), Vec::<String>::new());
}

#[test]
fn fixed_lists() {
    assert_eq!(offered(CompletionElement::Nothing), Vec::<String>::new());
    assert_eq!(offered(CompletionElement::Uniform), vec!["uniform"]);
    assert_eq!(offered(CompletionElement::Include), vec!["#include"]);
    assert_eq!(offered(CompletionElement::SwitchCase), vec!["case", "default"]);
    assert_eq!(offered(CompletionElement::IncludeString), Vec::<String>::new());
    let found = offered(CompletionElement::Precision);
    assert_eq!(found.len(), 3 + 31);
    assert_eq!(found[..4], ["lowp", "mediump", "highp", "void"]);
    let found = offered(CompletionElement::Interpolation);
    assert_eq!(found[..6], ["smooth", "float", "lowp", "mediump", "highp", "void"]);
    let found = offered(CompletionElement::FunctionQualifier);
    assert_eq!(found[..4], ["in", "out", "inout", "void"]);
    let found = offered(CompletionElement::Type);
    assert_eq!(found.len(), 31);
}

#[test]
fn files_that_can_be_included() {
    let (mut memory, _) = environment("", None);
    let files = vec!["res://a.gdshaderinc".to_string(), "res://b/c.gdshaderinc".to_string()];
    let items = get_completion_items(
        &mut memory,
        Position::new(0, 0),
        &CompletionElement::IncludeString,
        &files,
    );
    assert_eq!(labels(&items), vec!["\"res://a.gdshaderinc\"", "\"res://b/c.gdshaderinc\""]);
    assert_eq!(items[0].kind, Some(CompletionItemKind::Text));
    assert_eq!(items[1].insert_text, Some("res://b/c.gdshaderinc".to_string()));
}

#[test]
fn lists_of_the_environment() {
    let (memory, _) = environment("struct S { float a; };\nconst int c = 1;\nfloat f() { return 1.0; }", None);
    assert_eq!(memory.get_builtin_types(0).len(), 31);
    assert_eq!(memory.get_builtin_types(1).len(), 19);
    assert_eq!(labels(&memory.get_structs()), vec!["S"]);
    assert_eq!(memory.get_functions(Position::new(0, 0), false).len(), 126);
    assert_eq!(memory.get_functions(Position::new(0, 0), true).len(), 19);
    assert_eq!(memory.list_functions(false, true).len(), 107);
    assert_eq!(labels(&memory.get_variables(0, false)), vec!["TIME", "PI", "TAU", "E", "c"]);
    assert_eq!(labels(&memory.get_variables(0, true)), vec!["TIME", "PI", "TAU", "E", "c"]);
    assert_eq!(labels(&memory.get_variables(1, true)), vec!["TIME", "PI", "TAU", "E", "c"]);
    assert_eq!(labels(&memory.get_hints(TypeInfo::from_str("int"))), vec!["hint_range"]);
}

fn hover(memory: &mut Memory, line: u32, character: u32, name: &str) -> Option<(MarkupKind, String)> {
    let found: Option<HoverContents> =
        get_hover_description(memory, Position::new(line, character), &name.to_string());
    found.map(|contents| (contents.kind, contents.value))
}

fn markdown(text: &str) -> Option<(MarkupKind, String)> {
    Some((MarkupKind::Markdown, text.to_string()))
}

#[test]
fn hovering() {
    let source = "const float K = 1.0;\nstruct S { float a; vec3 b[2]; };\nvoid f(in vec3 n, S s) { float local = K; }";
    let (mut memory, _) = environment(source, None);
    assert_eq!(memory.get_source().get_diagnostics().len(), 0);
    assert_eq!(
        hover(&mut memory, 0, 0, "vec3"),
        Some((
            MarkupKind::PlainText,
            "vec3\n\nThree-component vector of floating-point values.".to_string()
        ))
    );
    assert_eq!(
        hover(&mut memory, 0, 0, "float"),
        Some((MarkupKind::PlainText, "float\n\nFloating-point scalar.".to_string()))
    );
    assert_eq!(hover(&mut memory, 0, 0, "K"), markdown("float K"));
    assert_eq!(hover(&mut memory, 2, 30, "K"), markdown("float K"));
    assert_eq!(hover(&mut memory, 2, 30, "local"), markdown("float local"));
    assert_eq!(hover(&mut memory, 2, 30, "n"), markdown("vec3 n"));
    assert_eq!(hover(&mut memory, 0, 0, "local"), None);
    assert_eq!(
        hover(&mut memory, 0, 0, "TAU"),
        markdown("float TAU\n\nA TAU constant (6.283185). An equivalent of PI * 2 and amount of radians in full turn.")
    );
    assert_eq!(hover(&mut memory, 0, 0, "S"), markdown("struct S {\n  float a;\n  vec3[2] b;\n}"));
    assert_eq!(hover(&mut memory, 0, 0, "f"), markdown("void f (in vec3 n, S s)\n\n"));
    assert_eq!(
        hover(&mut memory, 0, 0, "atan"),
        markdown("vec_type atan (vec_type y_over_x)\nvec_type atan (vec_type y, vec_type x)\n\nArctangent.")
    );
    assert_eq!(
        hover(&mut memory, 0, 0, "modf"),
        markdown("vec_type modf (vec_type x, out float y)\n\nFractional of x, with i as integer part.")
    );
    assert_eq!(
        hover(&mut memory, 0, 0, "hint_range"),
        markdown("(float,int) hint_range(...)\n\nRestricted to values in a range (with min/max/step).")
    );
    assert_eq!(
        hover(&mut memory, 0, 0, "source_color"),
        markdown("(vec3,vec4,sampler2D) source_color\n\nUsed as color.")
    );
    assert_eq!(hover(&mut memory, 0, 0, "nothing"), None);
    assert_eq!(hover(&mut memory, 0, 0, ""), None);
}

#[test]
fn an_empty_struct_and_a_function_without_parameters() {
    let (mut memory, _) = environment("struct S { };\nfloat g() { return 1.0; }", None);
    assert_eq!(hover(&mut memory, 9, 9, "S"), markdown("struct S {\n\n}"));
    assert_eq!(hover(&mut memory, 9, 9, "g"), markdown("float g ()\n\n"));
}

fn token(kind: TokenKind) -> Token {
    Token { kind, range: Range::new(Position::new(0, 0), Position::new(0, 1)) }
}

#[test]
fn expressions_that_cannot_be_evaluated_are_told_apart() {
    let literal = || ExpressionNode::Primitive(token(TokenKind::IntConstant));
    let binary = |kind| {
        ExpressionNode::Binary(BinaryNode {
            op: token(kind),
            left: Box::new(literal()),
            right: Box::new(literal()),
        })
    };
    assert!(is_expression_ok(&literal()));
    assert!(is_expression_ok(&ExpressionNode::Identifier(token(TokenKind::Semicolon))));
    assert!(!is_expression_ok(&ExpressionNode::Primitive(token(TokenKind::Identifier))));
    assert!(is_expression_ok(&binary(TokenKind::Plus)));
    assert!(!is_expression_ok(&binary(TokenKind::Equal)));
    assert!(!is_expression_ok(&ExpressionNode::ArrayLiteral(vec![literal(), binary(TokenKind::Dot)])));
    assert!(is_expression_ok(&ExpressionNode::ArrayLiteral(vec![])));
    let (mut memory, _) = environment("", None);
    let broken = CompletionElement::Member(Box::new(binary(TokenKind::Equal)));
    let items = get_completion_items(&mut memory, Position::new(0, 0), &broken, &Vec::new());
    assert!(items.is_empty());
    assert_eq!(memory.get_source().get_diagnostics().len(), 0);
}

#[test]
fn shader_files_are_named_from_the_root_of_the_project() {
    let named = |path: &str, root: &str| shader_file_path(path, root);
    assert_eq!(
        named("/proj/a/b.gdshaderinc", "/proj/"),
        Some("res://a/b.gdshaderinc".to_string())
    );
    assert_eq!(named("/proj/x.gdshader", "/proj/"), None);
    assert_eq!(named("/proj/.gdshaderinc", "/proj/"), None);
    assert_eq!(named(".gdshaderinc", ""), None);
    assert_eq!(named("gdshaderinc", ""), None);
    assert_eq!(named("a.gdshaderinc", ""), Some("a.gdshaderinc".to_string()));
    assert_eq!(named("a.gdshaderinc", "zzz"), Some("a.gdshaderinc".to_string()));
    assert_eq!(
        named("aXbX.gdshaderinc", "X"),
        Some("ares://bres://.gdshaderinc".to_string())
    );
    assert_eq!(named("aaa.gdshaderinc", "aa"), Some("res://a.gdshaderinc".to_string()));
}

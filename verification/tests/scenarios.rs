use gdshader_lsp::interpreter::eval_swizzle;
use gdshader_lsp::lexer::{TokenKind, TokenStream};
use gdshader_lsp::memory::{
    FunctionInfo, FunctionParam, FunctionSignature, Memory, Primitive, TypeInfo,
};
use gdshader_lsp::nodes::TopLevelNode;
use gdshader_lsp::parse_tokens;
use gdshader_lsp::source_code::Diagnostic;

fn analyse(source: &str) -> Vec<Diagnostic> {
    let mut memory = Memory::new(source, Some("root".to_string()));
    memory.evaluate_new(None).clone()
}

fn messages(source: &str) -> Vec<String> {
    analyse(source).iter().map(|d| d.message.clone()).collect()
}

#[test]
fn spatial_vertex_shader_has_no_diagnostics() {
    let found = messages("shader_type spatial;\nvoid vertex() { VERTEX.x = 1.0; }");
    assert_eq!(found, Vec::<String>::new());
}

#[test]
fn missing_initializer_keeps_the_function() {
    let mut stream = TokenStream::new("void f() { int x = ; }", None);
    let nodes = parse_tokens(&mut stream);
    assert_eq!(nodes.len(), 1);
    assert!(matches!(nodes[0], TopLevelNode::Function(_)));
    let (_, source) = stream.destroy();
    assert_eq!(source.get_diagnostics().len(), 1);
    assert_eq!(source.get_diagnostics()[0].message, "Expected Expression");
}

#[test]
fn function_that_never_returns_is_reported_once() {
    let found = messages("float f() { }");
    assert_eq!(found, vec!["Expected return type 'float'".to_string()]);
}

#[test]
fn void_function_with_empty_return_is_fine() {
    assert_eq!(messages("void f() { return; }"), Vec::<String>::new());
}

#[test]
fn void_function_that_returns_a_value_is_reported_once() {
    let found = messages("void f() { return 1; }");
    assert_eq!(found, vec!["Expected return type 'void'".to_string()]);
}

fn cast_to_float() -> FunctionInfo {
    let signature = |ty: &str| FunctionSignature {
        return_type: TypeInfo::from_str("float"),
        params: vec![FunctionParam {
            name: "x".to_string(),
            ty: TypeInfo::from_str(ty),
            qualifier: None,
        }],
    };
    FunctionInfo {
        signatures: vec![signature("float"), signature("bool")],
        range: None,
        description: Some("Cast to a float.".to_string()),
        is_const: true,
    }
}

fn with_cast(source: &str) -> Vec<String> {
    let mut memory = Memory::new(source, None);
    memory.builtins.functions = vec![("to_float".to_string(), cast_to_float())];
    memory.root_dir = Some("root".to_string());
    memory.evaluate_new(None).iter().map(|d| d.message.clone()).collect()
}

#[test]
fn overload_with_matching_argument_is_constant() {
    assert_eq!(with_cast("const float a = to_float(1.5);"), Vec::<String>::new());
}

#[test]
fn overload_without_matching_signature_fails() {
    assert_eq!(
        with_cast("const float a = to_float(1);"),
        vec!["Invalid arguments for function 'to_float'".to_string()]
    );
}

#[test]
fn swizzles_of_a_vec4() {
    let arity = |member: &str| eval_swizzle(member, Primitive::Float, 4).map(|t| t.base);
    assert_eq!(arity("xyzw"), Some("vec4".to_string()));
    assert_eq!(arity("rgba"), Some("vec4".to_string()));
    assert_eq!(arity("rg"), Some("vec2".to_string()));
    assert_eq!(arity("x"), Some("float".to_string()));
    assert_eq!(arity("xr"), None);
    assert_eq!(arity("xyzwx"), None);
}

#[test]
fn tokens_of_a_declaration() {
    let stream = TokenStream::new("uniform float speed = 1.0;", None);
    let kinds: Vec<TokenKind> = stream.tokens.iter().map(|t| t.kind).collect();
    assert_eq!(
        kinds,
        vec![
            TokenKind::Uniform,
            TokenKind::Identifier,
            TokenKind::Identifier,
            TokenKind::Equal,
            TokenKind::FloatConstant,
            TokenKind::Semicolon,
        ]
    );
}

use gdshader_lsp::evaluate_tree;
use gdshader_lsp::interpreter::{
    ensure_valid_id, ensure_valid_type, eval_operation, eval_swizzle, evaluate_expression,
    swizzle_result, EvaluateError, ExpressionEvaluation,
};
use gdshader_lsp::lexer::{OperationType, TokenStream};
use gdshader_lsp::memory::{Memory, Primitive, ShaderType, TypeInfo};
use gdshader_lsp::nodes::TypeNode;
use gdshader_lsp::parse_tokens;
use gdshader_lsp::parser::parse_expression;
use gdshader_lsp::position::{Position, Range};
use gdshader_lsp::source_code::{Diagnostic, Severity};

fn range(a: u32, b: u32, c: u32, d: u32) -> Range {
    Range::new(Position::new(a, b), Position::new(c, d))
}

fn analyse(source: &str) -> Vec<Diagnostic> {
    let mut memory = Memory::new(source, Some("root".to_string()));
    memory.evaluate_new(None).clone()
}

fn messages(source: &str) -> Vec<String> {
    analyse(source).iter().map(|d| d.message.clone()).collect()
}

fn inside(statements: &str) -> Vec<String> {
    messages(&format!("void f() {{ {} }}", statements))
}

fn none() -> Vec<String> {
    Vec::new()
}

fn one(message: &str) -> Vec<String> {
    vec![message.to_string()]
}

#[test]
fn diagnostics_are_errors_at_the_place_of_the_fault() {
    let found = analyse("void f() { x = 1; }");
    assert_eq!(found.len(), 1);
    assert_eq!(found[0].message, "Identifier 'x' is undefined.");
    assert_eq!(found[0].severity, Severity::Error);
    assert_eq!(found[0].range, range(0, 11, 0, 12));
}

#[test]
fn findings_of_the_parser_come_first() {
    assert_eq!(
        messages("void f() { x = 1; }\nvoid g() { int y = ; }"),
        vec!["Expected Expression", "Identifier 'x' is undefined."]
    );
}

#[test]
fn declarations() {
    assert_eq!(inside("int a = 1;"), none());
    assert_eq!(inside("int a = 1.0;"), one("Type mismatch: 'int' and 'float'."));
    assert_eq!(inside("int a = 1; int a = 2;"), one("Identifier 'a' is in use."));
    assert_eq!(inside("int sin = 1;"), one("Identifier 'sin' is in use."));
    assert_eq!(inside("int vec3 = 1;"), one("Identifier 'vec3' is in use."));
    assert_eq!(inside("float TIME = 1.0;"), one("Identifier 'TIME' is in use."));
    assert_eq!(inside("foo a;"), one("Invalid type 'foo'."));
    assert_eq!(inside("foo[3] a;"), one("Invalid type 'foo[3]'."));
    assert_eq!(inside("int a = 1; const int b = a;"), one("Invalid constant expression."));
    assert_eq!(inside("const int a = 1; const int b = a;"), none());
    assert_eq!(inside("int a = b;"), one("Identifier 'b' is undefined."));
    assert_eq!(inside("int a = b; a = 1;"), one("Identifier 'b' is undefined."));
}

#[test]
fn binary_operators() {
    assert_eq!(inside("int a = 1; a + 1.0;"), one("Type mismatch: int & float"));
    assert_eq!(inside("int a = 1; a + 1;"), none());
    assert_eq!(inside("int a = 1; a % 2;"), none());
    assert_eq!(inside("float a = 1.0; a % 2.0;"), one("Invalid type for operation: float"));
    assert_eq!(inside("float a = 1.0; a < 2.0;"), none());
    assert_eq!(inside("bool a = true; a == false;"), one("Type mismatch: bool & bool"));
    assert_eq!(inside("int a = 1; a == 2;"), none());
    assert_eq!(inside("mat3 m; m * m;"), one("Type mismatch: mat3 & mat3"));
    assert_eq!(
        inside("vec3 v = vec3(1.0); v < v;"),
        one("Invalid type for operation: vec3")
    );
}

#[test]
fn a_scalar_spreads_over_a_vector() {
    assert_eq!(
        inside("float s = 2.0; vec3 v = vec3(1.0); vec3 r = s * v; vec3 q = v * s;"),
        none()
    );
    assert_eq!(inside("int s = 2; ivec2 v = ivec2(1); ivec2 r = s + v;"), none());
    assert_eq!(
        inside("float s = 2.0; vec3 v = vec3(1.0); float r = s * v;"),
        one("Type mismatch: 'float' and 'vec3'.")
    );
    assert_eq!(
        inside("vec2 a = vec2(1.0); vec3 b = vec3(1.0); a + b;"),
        one("Type mismatch: vec2 & vec3")
    );
    assert_eq!(
        inside("ivec2 a = ivec2(1); vec3 b = vec3(1.0); a + b;"),
        one("Type mismatch: ivec2 & vec3")
    );
    assert_eq!(
        inside("int s = 2; vec3 v = vec3(1.0); s * v;"),
        one("Type mismatch: int & vec3")
    );
}

#[test]
fn unary_operators_and_increments() {
    assert_eq!(inside("float x = 1.0; -x;"), none());
    assert_eq!(inside("float x = 1.0; ~x;"), one("Invalid type for operation: float"));
    assert_eq!(inside("int x = 1; ~x;"), none());
    assert_eq!(inside("bool x = true; !x;"), none());
    assert_eq!(inside("int x = 1; !x;"), one("Invalid type for operation: int"));
    assert_eq!(inside("int x = 1; x++; --x;"), none());
    assert_eq!(inside("const int c = 1; c++;"), one("Cannot change a constant value."));
    assert_eq!(inside("int x = 1; (x + 1)++;"), one("Cannot change a constant value."));
    assert_eq!(inside("bool[2] b; b++;"), one("Invalid type for operation: bool[2]"));
}

#[test]
fn assignments() {
    assert_eq!(inside("int a = 1; a = 2; a += 3;"), none());
    assert_eq!(inside("const int c = 1; c = 2;"), one("Cannot assign to a constant value."));
    assert_eq!(inside("int a = 1; 1 = a;"), one("Cannot assign to a constant value."));
    assert_eq!(inside("int a = 1; a = 2.0;"), one("Type mismatch: 'int' and 'float'."));
    assert_eq!(inside("bool a = true; a = false;"), none());
    assert_eq!(inside("mat3 a; a += a;"), none());
    assert_eq!(
        inside("sampler2D a; sampler2D b; a += b;"),
        one("Invalid type for operation: sampler2D")
    );
}

#[test]
fn array_literals() {
    assert_eq!(inside("float a[2] = {1.0, 2.0};"), none());
    assert_eq!(inside("float a[2] = {};"), one("Empty array literal."));
    assert_eq!(inside("float a[2] = {1.0, 2};"), one("Mismatched types: float and int"));
    assert_eq!(inside("float a[1] = {{1.0}};"), one("Nested array types are not allowed."));
    assert_eq!(
        inside("float a[3] = {1.0, 2.0};"),
        one("Type mismatch: 'float[3]' and 'float[2]'.")
    );
    assert_eq!(inside("float x = 1.0; const float a[2] = {1.0, x};"), one("Invalid constant expression."));
}

#[test]
fn indexing() {
    assert_eq!(inside("vec3 v = vec3(1.0); float x = v[0];"), none());
    assert_eq!(inside("ivec3 v = ivec3(1); int x = v[0u];"), none());
    assert_eq!(inside("mat3 m; vec3 c = m[1];"), none());
    assert_eq!(inside("vec3 a[2]; vec3 c = a[1];"), none());
    assert_eq!(inside("vec3 v = vec3(1.0); v[1.0];"), one("Cannot index with type float"));
    assert_eq!(inside("float x = 1.0; x[0];"), one("Type float cannot be indexed."));
    assert_eq!(inside("vec3 v = vec3(1.0); v[0] = 2.0;"), none());
}

#[test]
fn members() {
    assert_eq!(inside("vec3 v = vec3(1.0); vec2 a = v.xy; float b = v.z; vec4 c = v.rgbb;"), none());
    assert_eq!(inside("ivec2 v = ivec2(1); ivec3 a = v.xxy;"), none());
    assert_eq!(inside("vec3 v = vec3(1.0); v.q;"), one("Type vec3 has no member q"));
    assert_eq!(inside("vec3 v = vec3(1.0); v.xr;"), one("Type vec3 has no member xr"));
    assert_eq!(inside("vec3 v = vec3(1.0); v.w;"), one("Type vec3 has no member w"));
    assert_eq!(inside("float a[2]; a.x;"), one("Cannot access member of array type float[2]"));
    assert_eq!(inside("float a = 1.0; a.x;"), one("Type float has no member x"));
    assert_eq!(
        messages("struct S { float a; vec3 b; };\nvoid f() { S s; float x = s.a; s.b.x = 1.0; s.c; }"),
        one("Type S has no member c")
    );
    assert_eq!(inside("vec3 v = vec3(1.0); v.x = 1.0;"), none());
}

#[test]
fn calls() {
    assert_eq!(inside("foo(1);"), one("Function 'foo' does not exist."));
    assert_eq!(inside("sin(1);"), one("Invalid arguments for function 'sin'"));
    assert_eq!(inside("sin(1.0, 2.0);"), one("Invalid arguments for function 'sin'"));
    assert_eq!(inside("float a = sin(1.0); vec3 b = sin(vec3(1.0));"), none());
    assert_eq!(inside("vec3 b = pow(vec3(1.0), vec3(2.0));"), none());
    assert_eq!(inside("pow(vec3(1.0), vec2(2.0));"), one("Invalid arguments for function 'pow'"));
    assert_eq!(inside("bvec3 b = isnan(vec3(1.0)); bool c = isnan(1.0);"), none());
    assert_eq!(inside("float a = length(vec2(1.0));"), none());
    assert_eq!(inside("const float a = sin(1.0);"), one("Invalid constant expression."));
    assert_eq!(inside("const vec3 a = vec3(1.0, 2.0, 3.0);"), none());
    assert_eq!(inside("foo(bar);"), one("Identifier 'bar' is undefined."));
    assert_eq!(
        messages("struct S { float a; };\nvoid f() { S s = S(1.0); S t = S(1); S u = S(1.0, 2.0); }"),
        vec!["Invalid arguments for function 'S'", "Invalid arguments for function 'S'"]
    );
}

#[test]
fn conditionals() {
    assert_eq!(inside("int a = true ? 2 : 3;"), none());
    assert_eq!(inside("int a = 1 ? 2 : 3;"), one("Condition type must be bool, not int"));
    assert_eq!(inside("int a = true ? 2 : 3.0;"), one("Type mismatch: int & float"));
    assert_eq!(inside("bool c = true; const int a = c ? 2 : 3;"), one("Invalid constant expression."));
}

#[test]
fn jumps_need_a_loop() {
    assert_eq!(inside("break;"), one("Cannot use 'break' outside a loop."));
    assert_eq!(inside("continue;"), one("Cannot use 'continue' outside a loop."));
    assert_eq!(inside("while (true) { break; continue; }"), none());
    assert_eq!(inside("if (true) { break; }"), none());
    assert_eq!(inside("while (true) break;"), one("Cannot use 'break' outside a loop."));
}

#[test]
fn conditions() {
    assert_eq!(inside("if (1) { }"), one("If statement condition must be a boolean expression."));
    assert_eq!(inside("if (true) { } else { }"), none());
    assert_eq!(
        inside("while (1) { }"),
        one("While loop condition must be a boolean expression.")
    );
    assert_eq!(inside("switch (1.0) { default: }"), one("Switch condition must be an integer."));
    assert_eq!(inside("switch (1u) { case 0: default: }"), none());
    assert_eq!(inside("if (x) { y; }"), one("Identifier 'x' is undefined."));
    assert_eq!(
        inside("switch (x) { default: y; }"),
        vec!["Identifier 'x' is undefined.", "Identifier 'y' is undefined."]
    );
}

#[test]
fn for_statements() {
    assert_eq!(inside("for (int i = 0; i < 10; i++) { }"), none());
    assert_eq!(
        inside("int i = 0; for (i = 0; i < 1; i++) { }"),
        one("Left expression of a for loop must be a variable declaration.")
    );
    assert_eq!(
        inside("for (int i = 0; i; i++) { }"),
        one("For loop condition must be a boolean expression.")
    );
    assert_eq!(
        inside("for (int i = 0; i < 1; j++) { k; }"),
        one("Identifier 'j' is undefined.")
    );
    assert_eq!(
        inside("for (int i = 0; j < 1; i++) { k; }"),
        vec!["Identifier 'j' is undefined.", "Identifier 'k' is undefined."]
    );
}

#[test]
fn what_a_body_declares_ends_with_the_body() {
    assert_eq!(
        inside("for (int i = 0; i < 2; i++) { int t = 1; t = 2; } t = 3;"),
        one("Identifier 't' is undefined.")
    );
    assert_eq!(
        inside("for (int i = 0; i < 2; i++) { } i = 3;"),
        one("Identifier 'i' is undefined.")
    );
    assert_eq!(
        inside("while (true) { int t = 1; } if (true) { int t = 2; } else { int t = 3; } int t = 4;"),
        none()
    );
    assert_eq!(
        inside("for (int i = 0; i < 2; j) { } int after = 1; after = 2; i = 1;"),
        vec!["Identifier 'j' is undefined.", "Identifier 'i' is undefined."]
    );
}

#[test]
fn what_the_top_level_declares_is_seen_in_every_function() {
    assert_eq!(
        messages("const float K = 1.0;\nvoid f() { float a = K; }\nvoid g() { float b = K; }"),
        none()
    );
    assert_eq!(
        messages("uniform float u;\nvarying vec2 uv;\nvoid f() { float a = u; vec2 b = uv; uv = b; }"),
        none()
    );
    assert_eq!(
        messages("void f() { float a = K; }\nconst float K = 1.0;"),
        one("Identifier 'K' is undefined.")
    );
    assert_eq!(messages("void f() { float a = PI * TIME; }"), none());
}

#[test]
fn functions_are_known_once_they_are_read() {
    assert_eq!(
        messages("float g(float x) { return x; }\nvoid f() { float a = g(1.0); }"),
        none()
    );
    assert_eq!(
        messages("void f() { float a = g(1.0); }\nfloat g(float x) { return x; }"),
        one("Function 'g' does not exist.")
    );
    assert_eq!(
        messages("float g(float x) { return g(x); }"),
        vec!["Function 'g' does not exist.", "Expected return type 'float'"]
    );
    assert_eq!(
        messages("float g(float x) { return x; }\nvoid f() { g(1); }"),
        one("Invalid arguments for function 'g'")
    );
    assert_eq!(messages("void f() { }\nvoid f() { }"), one("Identifier 'f' is in use."));
    assert_eq!(messages("void f(float a, float a) { }"), one("Duplicate param: 'a'"));
    assert_eq!(messages("void f(foo a) { }"), one("Invalid type 'foo'."));
    assert_eq!(messages("void f(float a) { float a = 1.0; }"), one("Identifier 'a' is in use."));
}

#[test]
fn return_contracts() {
    assert_eq!(messages("float f() { return 1.0; }"), none());
    assert_eq!(messages("void f() { }"), none());
    assert_eq!(messages("float f() { if (true) { return 1.0; } }"), none());
    assert_eq!(messages("float f() { return; }"), one("Expected return type 'float'"));
    assert_eq!(messages("float f() { return 1.0; return; }"), one("Expected return type 'float'"));
    assert_eq!(
        messages("float f() { return 1; }"),
        vec!["Invalid return type, expected 'float'", "Expected return type 'float'"]
    );
    assert_eq!(messages("vec3[2] f() { }"), one("Expected return type 'vec3[2]'"));
    assert_eq!(messages("void f() { return x; }"), one("Identifier 'x' is undefined."));
}

#[test]
fn shader_types_and_render_modes() {
    assert_eq!(messages("shader_type foo;"), one("Invalid Shader Type."));
    for kind in ["spatial", "canvas_item", "particles", "sky", "fog"] {
        assert_eq!(messages(&format!("shader_type {};", kind)), none());
    }
    assert_eq!(messages("shader_type spatial;\nrender_mode unshaded, cull_back;"), none());
    assert_eq!(messages("shader_type spatial;\nrender_mode foo;"), one("Invalid Render Mode."));
    assert_eq!(messages("shader_type spatial;\nrender_mode foo, bar;"), one("Invalid Render Mode."));
    assert_eq!(messages("render_mode unshaded;"), one("Invalid Render Mode."));
    assert_eq!(messages("shader_type sky;\nrender_mode unshaded;"), one("Invalid Render Mode."));
    assert_eq!(messages("shader_type sky;\nrender_mode disable_fog;"), none());
    assert_eq!(messages("shader_type spatial;\nshader_type fog;\nrender_mode unshaded;"), none());
}

#[test]
fn entry_points_see_their_builtins() {
    assert_eq!(messages("shader_type spatial;\nvoid vertex() { VERTEX.x = 1.0; }"), none());
    assert_eq!(
        messages("shader_type spatial;\nvoid other() { VERTEX.x = 1.0; }"),
        one("Identifier 'VERTEX' is undefined.")
    );
    assert_eq!(
        messages("shader_type canvas_item;\nvoid vertex() { VERTEX.x = 1.0; VERTEX.z; }"),
        one("Type vec2 has no member z")
    );
    assert_eq!(
        messages("shader_type spatial;\nvoid fragment() { ALBEDO = vec3(1.0); FRAGCOORD = vec4(1.0); }"),
        one("Cannot assign to a constant value.")
    );
    assert_eq!(
        messages("shader_type particles;\nvoid start() { VELOCITY = vec3(1.0); }\nvoid process() { VELOCITY = vec3(1.0); }"),
        none()
    );
    assert_eq!(messages("void vertex() { VERTEX.x = 1.0; }"), none());
}

#[test]
fn uniforms_and_their_hints() {
    assert_eq!(messages("uniform float x : hint_range(0, 1);"), none());
    assert_eq!(messages("uniform float x : hint_range(0, 1, 2) = 0.5;"), none());
    assert_eq!(messages("uniform float x : hint_range(0);"), one("Invalid number of hint args."));
    assert_eq!(messages("uniform float x : hint_range;"), one("Invalid number of hint args."));
    assert_eq!(
        messages("uniform vec2 x : hint_range(0, 1);"),
        one("Hint expects type 'float' or 'int'.")
    );
    assert_eq!(
        messages("uniform float x : source_color;"),
        one("Hint expects type 'vec3' or 'vec4' or 'sampler2D'.")
    );
    assert_eq!(messages("uniform sampler2D x : hint_normal;"), none());
    assert_eq!(
        messages("uniform float x : hint_normal(1);"),
        vec!["Invalid number of hint args.", "Hint expects type 'sampler2D'."]
    );
    assert_eq!(messages("uniform float x : nonsense;"), one("Invalid hint."));
    assert_eq!(messages("uniform float x = 1;"), one("Type mismatch: 'float' and 'int'."));
    assert_eq!(messages("uniform float x;\nvoid f() { x = 1.0; }"), none());
}

#[test]
fn structs() {
    assert_eq!(messages("struct S { float a; vec3 b; };"), none());
    assert_eq!(messages("struct S { float a; float a; };"), one("Duplicate field: 'a'"));
    assert_eq!(messages("struct S { foo a; };"), one("Invalid type 'foo'."));
    assert_eq!(messages("struct S { float a; };\nstruct S { float b; };"), one("Identifier 'S' is in use."));
    assert_eq!(messages("struct S { float a; };\nstruct T { S s; };\nvoid f() { T t; t.s.a; }"), none());
}

#[test]
fn constants_at_top_level() {
    assert_eq!(messages("const float K = 1.0;"), none());
    assert_eq!(messages("const float K = sin(1.0);"), one("Invalid constant expression."));
    assert_eq!(messages("const float K = 1;"), one("Type mismatch: 'float' and 'int'."));
    assert_eq!(messages("const float K = 1.0;\nvoid f() { K = 2.0; }"), one("Cannot assign to a constant value."));
    assert_eq!(messages("varying vec2 uv;\nvarying vec2 uv;"), one("Identifier 'uv' is in use."));
}

#[test]
fn without_a_root_directory_nothing_is_built_in() {
    let mut memory = Memory::new("void f() { float a = PI; sin(a); }", None);
    let found: Vec<String> = memory.evaluate_new(None).iter().map(|d| d.message.clone()).collect();
    assert_eq!(
        found,
        vec!["Identifier 'PI' is undefined.", "Function 'sin' does not exist."]
    );
    assert!(memory.hints.is_empty());
    assert!(memory.is_id_valid_type("vec3"));
    assert!(!memory.is_id_valid_type("sin"));
    assert!(memory.is_id_in_use("f"));
    assert!(!memory.is_id_in_use("a"));
}

#[test]
fn analysing_twice_gives_the_same() {
    let source = "shader_type spatial;\nuniform float x : nonsense;\nvoid vertex() { VERTEX.q = 1; y; }";
    let first = analyse(source);
    let second = analyse(source);
    assert_eq!(first.len(), 3);
    assert_eq!(first.len(), second.len());
    for (a, b) in first.iter().zip(second.iter()) {
        assert_eq!(a.message, b.message);
        assert_eq!(a.range, b.range);
        assert_eq!(a.severity, b.severity);
    }
    let mut memory = Memory::new(source, Some("root".to_string()));
    let mut stream = TokenStream::new(source, None);
    let tree = parse_tokens(&mut stream);
    let once = memory.evaluate(tree).clone();
    let mut stream = TokenStream::new(source, None);
    let tree = parse_tokens(&mut stream);
    let twice = memory.evaluate(tree).clone();
    assert_eq!(once.len(), 3);
    assert_eq!(twice.len(), 3);
    for (a, b) in once.iter().zip(twice.iter()) {
        assert_eq!(a.message, b.message);
        assert_eq!(a.range, b.range);
    }
    assert_eq!(memory.scopes.len(), 2);
}

#[test]
fn analysing_again_in_the_same_environment_gives_the_same() {
    let source = "shader_type canvas_item;\nrender_mode blend_mix, nonsense;\nstruct S { float a; };\nuniform float x : nonsense;\nconst int K = 1;\nvoid vertex() { S s; s.b; y; (; }";
    let mut memory = Memory::new(source, Some("root".to_string()));
    let first = memory.evaluate_new(None).clone();
    let structs = memory.structs.len();
    let functions = memory.functions.len();
    let hints = memory.hints.len();
    let modes = memory.valid_render_modes.len();
    let scopes = memory.scopes.len();
    for _ in 0..3 {
        let again = memory.evaluate_new(None).clone();
        assert_eq!(again.len(), first.len());
        for (a, b) in first.iter().zip(again.iter()) {
            assert_eq!(a.message, b.message);
            assert_eq!(a.range, b.range);
            assert_eq!(a.severity, b.severity);
        }
        assert_eq!(memory.structs.len(), structs);
        assert_eq!(memory.functions.len(), functions);
        assert_eq!(memory.hints.len(), hints);
        assert_eq!(memory.valid_render_modes.len(), modes);
        assert_eq!(memory.scopes.len(), scopes);
        assert!(matches!(memory.shader_type, ShaderType::CanvasItem));
    }
    let messages: Vec<String> = first.iter().map(|d| d.message.clone()).collect();
    assert!(messages.contains(&"Invalid Render Mode.".to_string()));
    assert!(messages.contains(&"Invalid hint.".to_string()));
    assert!(messages.contains(&"Identifier 'y' is undefined.".to_string()));
    assert!(!messages.contains(&"Identifier 'S' is in use.".to_string()));
    assert_eq!(structs, 1);
    let fresh = analyse(source);
    assert_eq!(fresh.len(), first.len());
}

#[test]
fn an_evaluation_forgets_the_one_before_it() {
    let first = "shader_type sky;\nstruct S { float a; };\nvoid sky() { y; }";
    let mut memory = Memory::new(first, Some("root".to_string()));
    let mut stream = TokenStream::new(first, None);
    let tree = parse_tokens(&mut stream);
    assert_eq!(memory.evaluate(tree).len(), 1);
    assert!(matches!(memory.shader_type, ShaderType::Sky));
    assert_eq!(memory.structs.len(), 1);
    assert!(memory.is_id_in_use("sky"));
    let mut stream = TokenStream::new("", None);
    let tree = parse_tokens(&mut stream);
    assert_eq!(memory.evaluate(tree).len(), 0);
    assert!(matches!(memory.shader_type, ShaderType::Spatial));
    assert!(memory.structs.is_empty());
    assert!(memory.valid_render_modes.is_empty());
    assert!(!memory.is_id_in_use("sky"));
    assert!(memory.is_id_in_use("PI"));
    assert_eq!(memory.scopes.len(), 1);
}

fn evaluated(source: &str) -> (Result<ExpressionEvaluation, EvaluateError>, usize) {
    let mut memory = Memory::new(source, Some("root".to_string()));
    let mut stream = TokenStream::new(source, None);
    let expression = parse_expression(&mut stream).unwrap();
    let result = evaluate_expression(&mut memory, expression);
    let found = memory.get_source().get_diagnostics().len();
    (result, found)
}

#[test]
fn what_is_known_of_an_expression() {
    let known = |source: &str| {
        let (result, found) = evaluated(source);
        let e = result.unwrap();
        assert_eq!(found, 0);
        (e.type_info.to_string(), e.is_const, e.is_assignable)
    };
    assert_eq!(known("1.5;"), ("float".to_string(), true, false));
    assert_eq!(known("2u;"), ("uint".to_string(), true, false));
    assert_eq!(known("true;"), ("bool".to_string(), true, false));
    assert_eq!(known("(1 + 2);"), ("int".to_string(), true, false));
    assert_eq!(known("1 < 2;"), ("bool".to_string(), true, false));
    assert_eq!(known("vec3(1.0);"), ("vec3".to_string(), true, false));
    assert_eq!(known("vec3(1.0).xy;"), ("vec2".to_string(), true, false));
    assert_eq!(known("sin(1.0);"), ("float".to_string(), false, false));
    assert_eq!(known("{1, 2, 3};"), ("int[3]".to_string(), true, false));
    assert_eq!(known("{1, 2, 3}[0];"), ("int".to_string(), true, false));
    assert_eq!(known("PI;"), ("float".to_string(), true, true));
    assert_eq!(known("true ? PI : TIME;"), ("float".to_string(), true, false));
    let (result, found) = evaluated("nothing;");
    assert!(matches!(result, Err(EvaluateError::SemanticsError)));
    assert_eq!(found, 1);
}

#[test]
fn declarations_one_by_one() {
    let source = "const int c = 1; uniform vec3 v;";
    let mut memory = Memory::new(source, Some("root".to_string()));
    let mut stream = TokenStream::new(source, None);
    let tree = parse_tokens(&mut stream);
    evaluate_tree(&mut memory, tree);
    assert!(memory.is_id_in_use("c"));
    assert!(memory.is_id_in_use("v"));
    assert!(!memory.is_id_in_use("w"));
    assert_eq!(memory.get_source().get_diagnostics().len(), 0);
}

#[test]
fn operator_classes_on_types() {
    let mut memory = Memory::new("", None);
    let at = range(1, 2, 3, 4);
    let mut apply = |op: OperationType, ty: &str| {
        eval_operation(&mut memory, op, TypeInfo::from_str(ty), at).map(|t| t.to_string())
    };
    assert_eq!(apply(OperationType::Number, "vec3"), Ok("vec3".to_string()));
    assert_eq!(apply(OperationType::Number, "mat4"), Ok("mat4".to_string()));
    assert_eq!(apply(OperationType::Number, "bool"), Ok("bool".to_string()));
    assert_eq!(apply(OperationType::Number, "sampler2D"), Err(EvaluateError::SemanticsError));
    assert_eq!(apply(OperationType::Int, "uvec2"), Ok("uvec2".to_string()));
    assert_eq!(apply(OperationType::Int, "float"), Err(EvaluateError::SemanticsError));
    assert_eq!(apply(OperationType::Bool, "bool"), Ok("bool".to_string()));
    assert_eq!(apply(OperationType::Bool, "bvec2"), Err(EvaluateError::SemanticsError));
    assert_eq!(apply(OperationType::Comparison, "uint"), Ok("bool".to_string()));
    assert_eq!(apply(OperationType::Comparison, "vec2"), Err(EvaluateError::SemanticsError));
    assert_eq!(apply(OperationType::Equal, "anything"), Ok("bool".to_string()));
    let found = memory.get_source().get_diagnostics();
    assert_eq!(found.len(), 4);
    assert_eq!(found[0].message, "Invalid type for operation: sampler2D");
    assert_eq!(found[0].range, at);
}

#[test]
fn names_and_types_are_checked_before_they_are_declared() {
    let mut memory = Memory::new("abc vec3", Some("root".to_string()));
    let stream = TokenStream::new("abc vec3", None);
    assert_eq!(ensure_valid_id(&mut memory, stream.tokens[0]), Ok(()));
    assert_eq!(ensure_valid_id(&mut memory, stream.tokens[1]), Err(EvaluateError::SemanticsError));
    assert_eq!(memory.get_token_text(stream.tokens[1]), "vec3");
    let node = |base: &str| TypeNode { info: TypeInfo::from_str(base), range: range(0, 0, 0, 3) };
    assert_eq!(ensure_valid_type(&mut memory, &node("vec3")), Ok(()));
    assert_eq!(ensure_valid_type(&mut memory, &node("abc")), Err(EvaluateError::SemanticsError));
    assert_eq!(memory.alert_error("told", range(0, 0, 0, 1)), EvaluateError::SemanticsError);
    let found: Vec<String> =
        memory.get_source().get_diagnostics().iter().map(|d| d.message.clone()).collect();
    assert_eq!(found, vec!["Identifier 'vec3' is in use.", "Invalid type 'abc'.", "told"]);
    assert_eq!(memory.shader_type, ShaderType::Spatial);
}

#[test]
fn swizzles() {
    let of = |member: &str, element: Primitive, length: usize| {
        eval_swizzle(member, element, length).map(|t| t.to_string())
    };
    assert_eq!(of("xy", Primitive::Float, 2), Some("vec2".to_string()));
    assert_eq!(of("xyz", Primitive::Float, 2), None);
    assert_eq!(of("stp", Primitive::Int, 3), Some("ivec3".to_string()));
    assert_eq!(of("q", Primitive::Int, 3), None);
    assert_eq!(of("bgra", Primitive::Uint, 4), Some("uvec4".to_string()));
    assert_eq!(of("x", Primitive::Bool, 4), Some("bool".to_string()));
    assert_eq!(of("yy", Primitive::Bool, 2), Some("bvec2".to_string()));
    assert_eq!(of("", Primitive::Float, 4), None);
    assert_eq!(of("xyzw\n", Primitive::Float, 4), None);
    assert_eq!(of("xs", Primitive::Float, 4), None);
    let result = |matched, length| swizzle_result(matched, length, Primitive::Float).map(|t| t.base);
    assert_eq!(result(Some(true), 3), Some("vec3".to_string()));
    assert_eq!(result(Some(true), 1), Some("float".to_string()));
    assert_eq!(result(Some(true), 5), None);
    assert_eq!(result(Some(true), 0), None);
    assert_eq!(result(Some(false), 3), None);
    assert_eq!(result(None, 3), None);
}

#[test]
fn what_a_body_declares_ends_with_it() {
    let undefined = |name: &str| format!("Identifier '{}' is undefined.", name);
    assert_eq!(
        inside("for (int i = 0; i < 3; i++) { int k = i; k; } i; k;"),
        vec![undefined("i"), undefined("k")]
    );
    assert_eq!(inside("while (true) { int w = 1; w; } w;"), vec![undefined("w")]);
    assert_eq!(
        inside("if (true) { int a = 1; a; } else { int b = 2; b; a; } a; b;"),
        vec![undefined("a"), undefined("a"), undefined("b")]
    );
    assert_eq!(
        inside("int outer = 1; while (true) { if (true) { int deep = outer; } deep; } outer;"),
        vec![undefined("deep")]
    );
    assert_eq!(
        messages("void f(int p) { int local = p; }\nvoid g() { p; local; f(1); }"),
        vec![undefined("p"), undefined("local")]
    );
}

#[test]
fn a_statement_leaves_the_scope_that_it_was_evaluated_in() {
    let source = "void f() { int a = 1; for (int i = 0; i < 3; i++) { int k = i; while (true) { int w = k; } } }";
    let mut memory = Memory::new(source, Some("root".to_string()));
    let before: Vec<String> =
        memory.scopes.collect_scopes().iter().flat_map(|t| t.iter().map(|e| e.0.clone())).collect();
    memory.evaluate_new(None);
    assert_eq!(memory.get_source().get_diagnostics().len(), 0);
    assert_eq!(memory.scopes.current(), 0);
    assert_eq!(memory.scopes.len(), 4);
    let after: Vec<String> =
        memory.scopes.collect_scopes().iter().flat_map(|t| t.iter().map(|e| e.0.clone())).collect();
    assert_eq!(before, after);
    assert!(memory.is_id_in_use("f"));
    assert!(!memory.is_id_in_use("a"));
    assert!(!memory.is_id_in_use("i"));
}

#[test]
fn swizzle_names_letter_by_letter() {
    let of = |member: &str, length: usize| {
        eval_swizzle(member, Primitive::Float, length).map(|t| t.to_string())
    };
    let alphabets = ["xyzw", "rgba", "stpq"];
    let all: Vec<char> = "xyzwrgbastpqXu1 \n".chars().collect();
    for length in 2..=4usize {
        for &a in all.iter() {
            let one = a.to_string();
            let expected = alphabets.iter().any(|l| l[..length].contains(a));
            assert_eq!(of(&one, length).is_some(), expected, "{:?} of {}", one, length);
            for &b in all.iter() {
                let two: String = [a, b].iter().collect();
                let expected = alphabets
                    .iter()
                    .any(|l| l[..length].contains(a) && l[..length].contains(b));
                assert_eq!(of(&two, length), if expected { Some("vec2".to_string()) } else { None });
            }
        }
    }
    assert_eq!(of("wzyx", 4), Some("vec4".to_string()));
    assert_eq!(of("aaaa", 4), Some("vec4".to_string()));
    assert_eq!(of("aaaaa", 4), None);
    assert_eq!(of("xyzwx", 4), None);
    assert_eq!(of("xyw", 3), None);
    assert_eq!(of("xyz", 3), Some("vec3".to_string()));
    assert_eq!(of("x\n", 4), None);
    assert_eq!(of("\nx", 4), None);
    assert_eq!(of("x y", 4), None);
    assert_eq!(of("\u{e9}", 4), None);
    assert_eq!(of("x\u{e9}", 4), None);
}

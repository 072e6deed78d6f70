use gdshader_lsp::lexer::{Token, TokenKind};
use gdshader_lsp::memory::functions::{
    make_builtin_functions, FunctionParamQualifier,
};
use gdshader_lsp::memory::hint::make_builtin_hints;
use gdshader_lsp::memory::render_modes::{
    canvas_item_render_modes, particle_render_modes, sky_render_modes, spatial_render_modes,
};
use gdshader_lsp::memory::types::make_builtin_types;
use gdshader_lsp::memory::variables::{spatial_vertex_vars, variable_builtins};
use gdshader_lsp::memory::{GenericSize, Primitive, TypeInfo};
use gdshader_lsp::position::{Position, Range};

fn ty(base: &str) -> TypeInfo {
    TypeInfo::from_str(base)
}

fn array(base: &str, size: u32) -> TypeInfo {
    TypeInfo { base: base.to_string(), size }
}

#[test]
fn a_member_matches_its_family_from_either_side() {
    assert!(ty("vec3") == ty("gvec3_type"));
    assert!(ty("gvec3_type") == ty("vec3"));
    assert!(ty("uvec4") == ty("gvec4_type"));
    assert!(ty("gvec4_type") == ty("uvec4"));
    assert!(ty("float") == ty("vec_type"));
    assert!(ty("vec_type") == ty("float"));
    assert!(ty("mat3") == ty("mat_type"));
    assert!(ty("isampler2D") == ty("gsampler2D"));
}

#[test]
fn different_concrete_types_never_match() {
    assert!(ty("vec3") != ty("vec2"));
    assert!(ty("vec3") != ty("ivec3"));
    assert!(ty("float") != ty("int"));
    assert!(ty("vec2") != ty("gvec3_type"));
    assert!(ty("bool") != ty("number"));
}

#[test]
fn array_sizes_must_agree() {
    assert!(ty("vec3") != array("vec3", 2));
    assert!(array("vec3", 2) == array("vec3", 2));
    assert!(array("vec3", 2) != array("vec3", 3));
    assert!(array("vec3", 2) != ty("gvec3_type"));
    assert!(array("vec3", 2) == array("gvec3_type", 2));
}

#[test]
fn every_type_matches_itself() {
    for name in ["float", "vec_type", "sampler2D", "Light", "void"] {
        assert!(ty(name) == ty(name));
    }
}

#[test]
fn a_type_is_written_with_its_array_size() {
    assert_eq!(ty("vec3").to_string(), "vec3");
    assert_eq!(array("vec3", 2).to_string(), "vec3[2]");
    assert_eq!(array("float", 120).to_string(), "float[120]");
    assert_eq!(array("float", 4294967295).to_string(), "float[4294967295]");
    assert_eq!(TypeInfo::void().to_string(), "void");
}

#[test]
fn element_types() {
    assert_eq!(ty("vec3").get_generic_type(), Some(Primitive::Float));
    assert_eq!(ty("ivec2").get_generic_type(), Some(Primitive::Int));
    assert_eq!(ty("uint").get_generic_type(), Some(Primitive::Uint));
    assert_eq!(ty("bvec4").get_generic_type(), Some(Primitive::Bool));
    assert_eq!(ty("bvec_type").get_generic_type(), Some(Primitive::Bool));
    assert_eq!(ty("usampler3D").get_generic_type(), Some(Primitive::Uint));
    assert_eq!(ty("mat4").get_generic_type(), None);
    assert_eq!(ty("Light").get_generic_type(), None);
}

#[test]
fn shapes() {
    assert_eq!(ty("float").get_generic_size(), Some(GenericSize::Number));
    assert_eq!(ty("uvec2").get_generic_size(), Some(GenericSize::GVec2Type));
    assert_eq!(ty("vec3").get_generic_size(), Some(GenericSize::GVec3Type));
    assert_eq!(ty("gvec4_type").get_generic_size(), Some(GenericSize::GVec4Type));
    assert_eq!(ty("isampler2DArray").get_generic_size(), Some(GenericSize::GSampler2DArray));
    assert_eq!(ty("bool").get_generic_size(), None);
    assert_eq!(ty("mat2").get_generic_size(), None);
}

#[test]
fn component_counts() {
    assert_eq!(GenericSize::Number.as_size(), Some(1));
    assert_eq!(GenericSize::GVec2Type.as_size(), Some(2));
    assert_eq!(GenericSize::GVec3Type.as_size(), Some(3));
    assert_eq!(GenericSize::GVec4Type.as_size(), Some(4));
    assert_eq!(GenericSize::GSampler2D.as_size(), None);
    assert_eq!(GenericSize::GSampler2DArray.as_size(), None);
    assert_eq!(GenericSize::GSampler3D.as_size(), None);
}

#[test]
fn families() {
    assert_eq!(ty("number").is_generically_typed(), Some(GenericSize::Number));
    assert_eq!(ty("gvec4_type").is_generically_typed(), Some(GenericSize::GVec4Type));
    assert_eq!(ty("gsampler3D").is_generically_typed(), Some(GenericSize::GSampler3D));
    assert_eq!(ty("vec4").is_generically_typed(), None);
    assert_eq!(ty("vec_type").is_generically_sized(), Some(Primitive::Float));
    assert_eq!(ty("ivec_type").is_generically_sized(), Some(Primitive::Int));
    assert_eq!(ty("uvec_type").is_generically_sized(), Some(Primitive::Uint));
    assert_eq!(ty("bvec_type").is_generically_sized(), Some(Primitive::Bool));
    assert_eq!(ty("mat_type").is_generically_sized(), Some(Primitive::Float));
    assert_eq!(ty("vec3").is_generically_sized(), None);
}

#[test]
fn types_from_pieces() {
    let made = |p, s| TypeInfo::from_pieces(p, s).to_string();
    assert_eq!(made(Primitive::Float, GenericSize::Number), "float");
    assert_eq!(made(Primitive::Float, GenericSize::GVec3Type), "vec3");
    assert_eq!(made(Primitive::Int, GenericSize::GVec2Type), "ivec2");
    assert_eq!(made(Primitive::Uint, GenericSize::GVec4Type), "uvec4");
    assert_eq!(made(Primitive::Bool, GenericSize::Number), "bool");
    assert_eq!(made(Primitive::Bool, GenericSize::GVec4Type), "bvec4");
    assert_eq!(made(Primitive::Uint, GenericSize::GSampler2DArray), "usampler2DArray");
    assert_eq!(made(Primitive::Int, GenericSize::GSampler3D), "isampler3D");
}

#[test]
fn pieces_round_trip() {
    let shapes = [
        GenericSize::Number,
        GenericSize::GVec2Type,
        GenericSize::GVec3Type,
        GenericSize::GVec4Type,
    ];
    for primitive in [Primitive::Float, Primitive::Int, Primitive::Uint] {
        for shape in shapes {
            let made = TypeInfo::from_pieces(primitive, shape);
            assert_eq!(made.get_generic_type(), Some(primitive));
            assert_eq!(made.get_generic_size(), Some(shape));
        }
    }
}

fn token(kind: TokenKind) -> Token {
    Token { kind, range: Range::new(Position::new(0, 0), Position::new(0, 1)) }
}

#[test]
fn types_of_literals() {
    assert_eq!(TypeInfo::from_primitive(token(TokenKind::IntConstant)).to_string(), "int");
    assert_eq!(TypeInfo::from_primitive(token(TokenKind::UintConstant)).to_string(), "uint");
    assert_eq!(TypeInfo::from_primitive(token(TokenKind::FloatConstant)).to_string(), "float");
    assert_eq!(TypeInfo::from_primitive(token(TokenKind::BoolConstant)).to_string(), "bool");
}

#[test]
fn qualifiers_and_their_keywords() {
    assert_eq!(FunctionParamQualifier::In.kind(), TokenKind::In);
    assert_eq!(FunctionParamQualifier::Out.kind(), TokenKind::Out);
    assert_eq!(FunctionParamQualifier::InOut.kind(), TokenKind::InOut);
    assert_eq!(FunctionParamQualifier::from(token(TokenKind::In)), FunctionParamQualifier::In);
    assert_eq!(FunctionParamQualifier::from(token(TokenKind::Out)), FunctionParamQualifier::Out);
    assert_eq!(
        FunctionParamQualifier::from(token(TokenKind::InOut)),
        FunctionParamQualifier::InOut
    );
}

#[test]
fn sizes_of_the_builtin_tables() {
    assert_eq!(make_builtin_types().len(), 31);
    assert_eq!(make_builtin_hints().len(), 24);
    assert_eq!(make_builtin_functions().len(), 125);
    assert_eq!(variable_builtins().len(), 4);
    assert_eq!(spatial_vertex_vars().len(), 31);
    assert_eq!(spatial_render_modes().len(), 33);
    assert_eq!(canvas_item_render_modes().len(), 10);
    assert_eq!(particle_render_modes().len(), 4);
    assert_eq!(sky_render_modes().len(), 3);
}

#[test]
fn entries_of_the_builtin_tables() {
    let types = make_builtin_types();
    assert_eq!(types[0].0, "void");
    assert!(!types[0].1.used_anywhere);
    assert_eq!(types[16].0, "vec4");
    assert!(types[16].1.used_anywhere);
    let globals = variable_builtins();
    assert_eq!(globals[1].0, "PI");
    assert_eq!(globals[1].1.ty.to_string(), "float");
    assert!(globals[1].1.is_const);
    assert!(!globals[1].1.editable);
    let vertex = spatial_vertex_vars();
    let found = vertex.iter().find(|v| v.0 == "VERTEX").unwrap();
    assert_eq!(found.1.ty.to_string(), "vec3");
    assert!(found.1.editable);
    assert_eq!(found.1.description, Some("Vertex in local coordinates.".to_string()));
    let hints = make_builtin_hints();
    assert_eq!(hints[1].0, "hint_range");
    assert_eq!(hints[1].1.num_arguments, vec![2, 3]);
    let functions = make_builtin_functions();
    let modf = functions.iter().find(|f| f.0 == "modf").unwrap();
    assert_eq!(modf.1.signatures[0].params[1].qualifier, Some(FunctionParamQualifier::Out));
    assert_eq!(modf.1.signatures[0].return_type.to_string(), "vec_type");
}

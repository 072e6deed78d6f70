//! Type descriptors and the generic-family matching relation between them.

use vstd::prelude::*;
use vstd::string::*;
use vstd::std_specs::cmp::PartialEqSpecImpl;
use crate::lexer::token::{Token, TokenKind};
use crate::text::{decimal, str_eq, u32_to_string};

verus! {

/// The element type of a scalar, vector or sampler.
#[derive(Clone, Copy, Debug, PartialEq, Eq, Structural)]
pub enum Primitive {
    Float,
    Int,
    Uint,
    Bool,
}

/// The shape of a type, whatever its element type: a scalar, a vector of
/// two to four components, or one of the sampler shapes.
#[derive(Clone, Copy, Debug, PartialEq, Eq, Structural)]
pub enum GenericSize {
    Number,
    GVec2Type,
    GVec3Type,
    GVec4Type,
    GSampler2D,
    GSampler2DArray,
    GSampler3D,
}

/// The component count of a shape; samplers have none.
pub open spec fn size_of_shape(shape: GenericSize) -> Option<u32> {
    match shape {
        GenericSize::Number => Some(1u32),
        GenericSize::GVec2Type => Some(2u32),
        GenericSize::GVec3Type => Some(3u32),
        GenericSize::GVec4Type => Some(4u32),
        GenericSize::GSampler2D => None,
        GenericSize::GSampler2DArray => None,
        GenericSize::GSampler3D => None,
    }
}

impl GenericSize {
    /// The component count of the shape; samplers have none.
    pub fn as_size(&self) -> (r: Option<u32>)
        ensures
            r == size_of_shape(*self),
    {
        match self {
            GenericSize::Number => Some(1),
            GenericSize::GVec2Type => Some(2),
            GenericSize::GVec3Type => Some(3),
            GenericSize::GVec4Type => Some(4),
            GenericSize::GSampler2D => None,
            GenericSize::GSampler2DArray => None,
            GenericSize::GSampler3D => None,
        }
    }
}

/// A type: a base name and an array size, where size 0 means "not an
/// array".
#[derive(Debug)]
pub struct TypeInfo {
    pub base: String,
    /// A size of 0 means that this is not an array.
    pub size: u32,
}

/// The mathematical value of a [`TypeInfo`].
pub struct SpecTypeInfo {
    pub base: Seq<char>,
    pub size: u32,
}

impl View for TypeInfo {
    type V = SpecTypeInfo;

    open spec fn view(&self) -> SpecTypeInfo {
        SpecTypeInfo { base: self.base@, size: self.size }
    }
}

impl DeepView for TypeInfo {
    type V = SpecTypeInfo;

    open spec fn deep_view(&self) -> SpecTypeInfo {
        self@
    }
}

/// What is known of a built-in type.
#[derive(Debug)]
pub struct BuiltinTypeInfo {
    pub description: String,
    /// Whether the type may be used inside functions, not only at top level.
    pub used_anywhere: bool,
}

/// The mathematical value of a [`BuiltinTypeInfo`].
pub struct SpecBuiltinTypeInfo {
    pub description: Seq<char>,
    pub used_anywhere: bool,
}

impl DeepView for BuiltinTypeInfo {
    type V = SpecBuiltinTypeInfo;

    open spec fn deep_view(&self) -> SpecBuiltinTypeInfo {
        SpecBuiltinTypeInfo { description: self.description@, used_anywhere: self.used_anywhere }
    }
}

/// A scalar (non-array) type of the given base name.
pub open spec fn plain_type(base: Seq<char>) -> SpecTypeInfo {
    SpecTypeInfo { base, size: 0 }
}

/// Whether a token kind is that of a literal constant.
pub open spec fn is_constant_kind(kind: TokenKind) -> bool {
    kind == TokenKind::IntConstant || kind == TokenKind::UintConstant || kind
        == TokenKind::FloatConstant || kind == TokenKind::BoolConstant
}

/// The type of a literal constant of the given kind.
pub open spec fn primitive_type(kind: TokenKind) -> SpecTypeInfo {
    match kind {
        TokenKind::IntConstant => plain_type("int"@),
        TokenKind::UintConstant => plain_type("uint"@),
        TokenKind::FloatConstant => plain_type("float"@),
        _ => plain_type("bool"@),
    }
}

/// Whether `name` is the name of a generic family: a placeholder that
/// stands for any of several concrete types.
pub open spec fn is_family(name: Seq<char>) -> bool {
    name == "vec_type"@
    || name == "ivec_type"@
    || name == "uvec_type"@
    || name == "bvec_type"@
    || name == "mat_type"@
    || name == "number"@
    || name == "gvec2_type"@
    || name == "gvec3_type"@
    || name == "gvec4_type"@
    || name == "gsampler2D"@
    || name == "gsampler3D"@
    || name == "gsampler2DArray"@
}

/// Whether the concrete type `name` belongs to the generic family `family`.
pub open spec fn in_family(family: Seq<char>, name: Seq<char>) -> bool {
    if family == "vec_type"@ {
        name == "float"@ || name == "vec2"@ || name == "vec3"@ || name == "vec4"@
    } else if family == "ivec_type"@ {
        name == "int"@ || name == "ivec2"@ || name == "ivec3"@ || name == "ivec4"@
    } else if family == "uvec_type"@ {
        name == "uint"@ || name == "uvec2"@ || name == "uvec3"@ || name == "uvec4"@
    } else if family == "bvec_type"@ {
        name == "bool"@ || name == "bvec2"@ || name == "bvec3"@ || name == "bvec4"@
    } else if family == "mat_type"@ {
        name == "mat2"@ || name == "mat3"@ || name == "mat4"@
    } else if family == "number"@ {
        name == "float"@ || name == "int"@ || name == "uint"@
    } else if family == "gvec2_type"@ {
        name == "vec2"@ || name == "ivec2"@ || name == "uvec2"@
    } else if family == "gvec3_type"@ {
        name == "vec3"@ || name == "ivec3"@ || name == "uvec3"@
    } else if family == "gvec4_type"@ {
        name == "vec4"@ || name == "ivec4"@ || name == "uvec4"@
    } else if family == "gsampler2D"@ {
        name == "sampler2D"@ || name == "isampler2D"@ || name == "usampler2D"@
    } else if family == "gsampler3D"@ {
        name == "sampler3D"@ || name == "isampler3D"@ || name == "usampler3D"@
    } else if family == "gsampler2DArray"@ {
        name == "sampler2DArray"@ || name == "isampler2DArray"@ || name == "usampler2DArray"@
    } else {
        false
    }
}

/// The matching relation between two types: the array sizes agree, and the
/// base names are the same or one names a family that the other belongs to.
pub open spec fn type_eq(a: SpecTypeInfo, b: SpecTypeInfo) -> bool {
    a.size == b.size && (a.base == b.base || in_family(a.base, b.base) || in_family(
        b.base,
        a.base,
    ))
}

/// The element type of a named type, if it has one.
pub open spec fn generic_type_of(base: Seq<char>) -> Option<Primitive> {
    if base == "float"@ || base == "vec2"@ || base == "vec3"@ || base == "vec4"@ || base == "vec_type"@ {
        Some(Primitive::Float)
    } else if base == "int"@ || base == "ivec2"@ || base == "ivec3"@ || base == "ivec4"@ || base == "ivec_type"@ {
        Some(Primitive::Int)
    } else if base == "uint"@ || base == "uvec2"@ || base == "uvec3"@ || base == "uvec4"@ || base == "uvec_type"@ {
        Some(Primitive::Uint)
    } else if base == "bool"@ || base == "bvec2"@ || base == "bvec3"@ || base == "bvec4"@ || base == "bvec_type"@ {
        Some(Primitive::Bool)
    } else if base == "sampler2D"@ || base == "sampler2DArray"@ || base == "sampler3D"@ || base == "samplerCube"@ || base == "samplerCubeArray"@ {
        Some(Primitive::Float)
    } else if base == "isampler2D"@ || base == "isampler2DArray"@ || base == "isampler3D"@ {
        Some(Primitive::Int)
    } else if base == "usampler2D"@ || base == "usampler2DArray"@ || base == "usampler3D"@ {
        Some(Primitive::Uint)
    } else {
        None
    }
}

/// The shape of a named type, if it has one. Boolean types have none: no
/// shape family holds them.
pub open spec fn generic_size_of(base: Seq<char>) -> Option<GenericSize> {
    if base == "float"@ || base == "int"@ || base == "uint"@ || base == "number"@ {
        Some(GenericSize::Number)
    } else if base == "vec2"@ || base == "ivec2"@ || base == "uvec2"@ || base == "gvec2_type"@ {
        Some(GenericSize::GVec2Type)
    } else if base == "vec3"@ || base == "ivec3"@ || base == "uvec3"@ || base == "gvec3_type"@ {
        Some(GenericSize::GVec3Type)
    } else if base == "vec4"@ || base == "ivec4"@ || base == "uvec4"@ || base == "gvec4_type"@ {
        Some(GenericSize::GVec4Type)
    } else if base == "sampler2D"@ || base == "isampler2D"@ || base == "usampler2D"@ || base == "gsampler2D"@ {
        Some(GenericSize::GSampler2D)
    } else if base == "sampler2DArray"@ || base == "isampler2DArray"@ || base == "usampler2DArray"@ || base == "gsampler2DArray"@ {
        Some(GenericSize::GSampler2DArray)
    } else if base == "sampler3D"@ || base == "isampler3D"@ || base == "usampler3D"@ || base == "gsampler3D"@ {
        Some(GenericSize::GSampler3D)
    } else {
        None
    }
}

/// For a family that fixes the shape and leaves the element type open: that
/// shape.
pub open spec fn generically_typed(base: Seq<char>) -> Option<GenericSize> {
    if base == "number"@ {
        Some(GenericSize::Number)
    } else if base == "gvec2_type"@ {
        Some(GenericSize::GVec2Type)
    } else if base == "gvec3_type"@ {
        Some(GenericSize::GVec3Type)
    } else if base == "gvec4_type"@ {
        Some(GenericSize::GVec4Type)
    } else if base == "gsampler2D"@ {
        Some(GenericSize::GSampler2D)
    } else if base == "gsampler2DArray"@ {
        Some(GenericSize::GSampler2DArray)
    } else if base == "gsampler3D"@ {
        Some(GenericSize::GSampler3D)
    } else {
        None
    }
}

/// For a family that fixes the element type and leaves the size open: that
/// element type.
pub open spec fn generically_sized(base: Seq<char>) -> Option<Primitive> {
    if base == "vec_type"@ {
        Some(Primitive::Float)
    } else if base == "ivec_type"@ {
        Some(Primitive::Int)
    } else if base == "uvec_type"@ {
        Some(Primitive::Uint)
    } else if base == "bvec_type"@ {
        Some(Primitive::Bool)
    } else if base == "mat_type"@ {
        Some(Primitive::Float)
    } else {
        None
    }
}

/// Whether a concrete type exists with this element type and shape: there
/// are no boolean samplers.
pub open spec fn pieces_exist(primitive: Primitive, shape: GenericSize) -> bool {
    primitive != Primitive::Bool || size_of_shape(shape) is Some
}

/// The name of the concrete type with the given element type and shape.
pub open spec fn name_of_pieces(primitive: Primitive, shape: GenericSize) -> Seq<char> {
    match (primitive, shape) {
        (Primitive::Float, GenericSize::Number) => "float"@,
        (Primitive::Float, GenericSize::GVec2Type) => "vec2"@,
        (Primitive::Float, GenericSize::GVec3Type) => "vec3"@,
        (Primitive::Float, GenericSize::GVec4Type) => "vec4"@,
        (Primitive::Float, GenericSize::GSampler2D) => "sampler2D"@,
        (Primitive::Float, GenericSize::GSampler2DArray) => "sampler2DArray"@,
        (Primitive::Float, GenericSize::GSampler3D) => "sampler3D"@,
        (Primitive::Int, GenericSize::Number) => "int"@,
        (Primitive::Int, GenericSize::GVec2Type) => "ivec2"@,
        (Primitive::Int, GenericSize::GVec3Type) => "ivec3"@,
        (Primitive::Int, GenericSize::GVec4Type) => "ivec4"@,
        (Primitive::Int, GenericSize::GSampler2D) => "isampler2D"@,
        (Primitive::Int, GenericSize::GSampler2DArray) => "isampler2DArray"@,
        (Primitive::Int, GenericSize::GSampler3D) => "isampler3D"@,
        (Primitive::Uint, GenericSize::Number) => "uint"@,
        (Primitive::Uint, GenericSize::GVec2Type) => "uvec2"@,
        (Primitive::Uint, GenericSize::GVec3Type) => "uvec3"@,
        (Primitive::Uint, GenericSize::GVec4Type) => "uvec4"@,
        (Primitive::Uint, GenericSize::GSampler2D) => "usampler2D"@,
        (Primitive::Uint, GenericSize::GSampler2DArray) => "usampler2DArray"@,
        (Primitive::Uint, GenericSize::GSampler3D) => "usampler3D"@,
        (Primitive::Bool, GenericSize::Number) => "bool"@,
        (Primitive::Bool, GenericSize::GVec2Type) => "bvec2"@,
        (Primitive::Bool, GenericSize::GVec3Type) => "bvec3"@,
        (Primitive::Bool, GenericSize::GVec4Type) => "bvec4"@,
        _ => Seq::empty(),
    }
}

/// How a type is written: the base name, followed for an array by its size
/// in square brackets.
pub open spec fn type_text(ty: SpecTypeInfo) -> Seq<char> {
    if ty.size != 0 {
        ty.base + "["@ + decimal(ty.size as nat) + "]"@
    } else {
        ty.base
    }
}

fn family_has(family: &str, name: &str) -> (r: bool)
    ensures
        r == in_family(family@, name@),
{
    if str_eq(family, "vec_type") {
        str_eq(name, "float") || str_eq(name, "vec2") || str_eq(name, "vec3") || str_eq(name, "vec4")
    } else if str_eq(family, "ivec_type") {
        str_eq(name, "int") || str_eq(name, "ivec2") || str_eq(name, "ivec3") || str_eq(name, "ivec4")
    } else if str_eq(family, "uvec_type") {
        str_eq(name, "uint") || str_eq(name, "uvec2") || str_eq(name, "uvec3") || str_eq(name, "uvec4")
    } else if str_eq(family, "bvec_type") {
        str_eq(name, "bool") || str_eq(name, "bvec2") || str_eq(name, "bvec3") || str_eq(name, "bvec4")
    } else if str_eq(family, "mat_type") {
        str_eq(name, "mat2") || str_eq(name, "mat3") || str_eq(name, "mat4")
    } else if str_eq(family, "number") {
        str_eq(name, "float") || str_eq(name, "int") || str_eq(name, "uint")
    } else if str_eq(family, "gvec2_type") {
        str_eq(name, "vec2") || str_eq(name, "ivec2") || str_eq(name, "uvec2")
    } else if str_eq(family, "gvec3_type") {
        str_eq(name, "vec3") || str_eq(name, "ivec3") || str_eq(name, "uvec3")
    } else if str_eq(family, "gvec4_type") {
        str_eq(name, "vec4") || str_eq(name, "ivec4") || str_eq(name, "uvec4")
    } else if str_eq(family, "gsampler2D") {
        str_eq(name, "sampler2D") || str_eq(name, "isampler2D") || str_eq(name, "usampler2D")
    } else if str_eq(family, "gsampler3D") {
        str_eq(name, "sampler3D") || str_eq(name, "isampler3D") || str_eq(name, "usampler3D")
    } else if str_eq(family, "gsampler2DArray") {
        str_eq(name, "sampler2DArray") || str_eq(name, "isampler2DArray") || str_eq(name, "usampler2DArray")
    } else {
        false
    }
}

impl TypeInfo {
    /// The type `void`.
    pub fn void() -> (r: Self)
        ensures
            r@ == plain_type("void"@),
    {
        Self { base: String::from_str("void"), size: 0 }
    }

    /// The scalar type of the given base name.
    pub fn from_str(base: &str) -> (r: Self)
        ensures
            r@ == plain_type(base@),
    {
        Self { base: String::from_str(base), size: 0 }
    }

    /// The type of a literal constant.
    pub fn from_primitive(token: Token) -> (r: Self)
        requires
            is_constant_kind(token.kind),
        ensures
            r@ == primitive_type(token.kind),
    {
        match token.kind {
            TokenKind::IntConstant => Self { base: String::from_str("int"), size: 0 },
            TokenKind::UintConstant => Self { base: String::from_str("uint"), size: 0 },
            TokenKind::FloatConstant => Self { base: String::from_str("float"), size: 0 },
            _ => Self { base: String::from_str("bool"), size: 0 },
        }
    }

    /// How the type is written.
    pub fn to_string(&self) -> (r: String)
        ensures
            r@ == type_text(self@),
    {
        if self.size != 0 {
            let mut r = self.base.clone();
            r.append("[");
            let digits = u32_to_string(self.size);
            r.append(digits.as_str());
            r.append("]");
            r
        } else {
            self.base.clone()
        }
    }

    /// The concrete type with the given element type and shape.
    pub fn from_pieces(primitive_type: Primitive, generic_size: GenericSize) -> (r: Self)
        requires
            pieces_exist(primitive_type, generic_size),
        ensures
            r@ == plain_type(name_of_pieces(primitive_type, generic_size)),
    {
        let name = match (primitive_type, generic_size) {
            (Primitive::Float, GenericSize::Number) => "float",
            (Primitive::Float, GenericSize::GVec2Type) => "vec2",
            (Primitive::Float, GenericSize::GVec3Type) => "vec3",
            (Primitive::Float, GenericSize::GVec4Type) => "vec4",
            (Primitive::Float, GenericSize::GSampler2D) => "sampler2D",
            (Primitive::Float, GenericSize::GSampler2DArray) => "sampler2DArray",
            (Primitive::Float, GenericSize::GSampler3D) => "sampler3D",
            (Primitive::Int, GenericSize::Number) => "int",
            (Primitive::Int, GenericSize::GVec2Type) => "ivec2",
            (Primitive::Int, GenericSize::GVec3Type) => "ivec3",
            (Primitive::Int, GenericSize::GVec4Type) => "ivec4",
            (Primitive::Int, GenericSize::GSampler2D) => "isampler2D",
            (Primitive::Int, GenericSize::GSampler2DArray) => "isampler2DArray",
            (Primitive::Int, GenericSize::GSampler3D) => "isampler3D",
            (Primitive::Uint, GenericSize::Number) => "uint",
            (Primitive::Uint, GenericSize::GVec2Type) => "uvec2",
            (Primitive::Uint, GenericSize::GVec3Type) => "uvec3",
            (Primitive::Uint, GenericSize::GVec4Type) => "uvec4",
            (Primitive::Uint, GenericSize::GSampler2D) => "usampler2D",
            (Primitive::Uint, GenericSize::GSampler2DArray) => "usampler2DArray",
            (Primitive::Uint, GenericSize::GSampler3D) => "usampler3D",
            (Primitive::Bool, GenericSize::Number) => "bool",
            (Primitive::Bool, GenericSize::GVec2Type) => "bvec2",
            (Primitive::Bool, GenericSize::GVec3Type) => "bvec3",
            (Primitive::Bool, GenericSize::GVec4Type) => "bvec4",
            _ => "",
        };
        Self { base: String::from_str(name), size: 0 }
    }

    /// The element type of the type, if it has one.
    pub fn get_generic_type(&self) -> (r: Option<Primitive>)
        ensures
            r == generic_type_of(self@.base),
    {
        let base = self.base.as_str();
        if str_eq(base, "float") || str_eq(base, "vec2") || str_eq(base, "vec3") || str_eq(base, "vec4") || str_eq(base, "vec_type") {
            Some(Primitive::Float)
        } else if str_eq(base, "int") || str_eq(base, "ivec2") || str_eq(base, "ivec3") || str_eq(base, "ivec4") || str_eq(base, "ivec_type") {
            Some(Primitive::Int)
        } else if str_eq(base, "uint") || str_eq(base, "uvec2") || str_eq(base, "uvec3") || str_eq(base, "uvec4") || str_eq(base, "uvec_type") {
            Some(Primitive::Uint)
        } else if str_eq(base, "bool") || str_eq(base, "bvec2") || str_eq(base, "bvec3") || str_eq(base, "bvec4") || str_eq(base, "bvec_type") {
            Some(Primitive::Bool)
        } else if str_eq(base, "sampler2D") || str_eq(base, "sampler2DArray") || str_eq(base, "sampler3D") || str_eq(base, "samplerCube") || str_eq(base, "samplerCubeArray") {
            Some(Primitive::Float)
        } else if str_eq(base, "isampler2D") || str_eq(base, "isampler2DArray") || str_eq(base, "isampler3D") {
            Some(Primitive::Int)
        } else if str_eq(base, "usampler2D") || str_eq(base, "usampler2DArray") || str_eq(base, "usampler3D") {
            Some(Primitive::Uint)
        } else {
            None
        }
    }

    /// The shape of the type, if it has one.
    pub fn get_generic_size(&self) -> (r: Option<GenericSize>)
        ensures
            r == generic_size_of(self@.base),
    {
        let base = self.base.as_str();
        if str_eq(base, "float") || str_eq(base, "int") || str_eq(base, "uint") || str_eq(base, "number") {
            Some(GenericSize::Number)
        } else if str_eq(base, "vec2") || str_eq(base, "ivec2") || str_eq(base, "uvec2") || str_eq(base, "gvec2_type") {
            Some(GenericSize::GVec2Type)
        } else if str_eq(base, "vec3") || str_eq(base, "ivec3") || str_eq(base, "uvec3") || str_eq(base, "gvec3_type") {
            Some(GenericSize::GVec3Type)
        } else if str_eq(base, "vec4") || str_eq(base, "ivec4") || str_eq(base, "uvec4") || str_eq(base, "gvec4_type") {
            Some(GenericSize::GVec4Type)
        } else if str_eq(base, "sampler2D") || str_eq(base, "isampler2D") || str_eq(base, "usampler2D") || str_eq(base, "gsampler2D") {
            Some(GenericSize::GSampler2D)
        } else if str_eq(base, "sampler2DArray") || str_eq(base, "isampler2DArray") || str_eq(base, "usampler2DArray") || str_eq(base, "gsampler2DArray") {
            Some(GenericSize::GSampler2DArray)
        } else if str_eq(base, "sampler3D") || str_eq(base, "isampler3D") || str_eq(base, "usampler3D") || str_eq(base, "gsampler3D") {
            Some(GenericSize::GSampler3D)
        } else {
            None
        }
    }

    /// Checks if this type is a generically typed type, and returns its size.
    pub fn is_generically_typed(&self) -> (r: Option<GenericSize>)
        ensures
            r == generically_typed(self@.base),
    {
        let base = self.base.as_str();
        if str_eq(base, "number") {
            Some(GenericSize::Number)
        } else if str_eq(base, "gvec2_type") {
            Some(GenericSize::GVec2Type)
        } else if str_eq(base, "gvec3_type") {
            Some(GenericSize::GVec3Type)
        } else if str_eq(base, "gvec4_type") {
            Some(GenericSize::GVec4Type)
        } else if str_eq(base, "gsampler2D") {
            Some(GenericSize::GSampler2D)
        } else if str_eq(base, "gsampler2DArray") {
            Some(GenericSize::GSampler2DArray)
        } else if str_eq(base, "gsampler3D") {
            Some(GenericSize::GSampler3D)
        } else {
            None
        }
    }

    /// Checks if this type is a generically sized type, and returns its primitive type.
    pub fn is_generically_sized(&self) -> (r: Option<Primitive>)
        ensures
            r == generically_sized(self@.base),
    {
        let base = self.base.as_str();
        if str_eq(base, "vec_type") {
            Some(Primitive::Float)
        } else if str_eq(base, "ivec_type") {
            Some(Primitive::Int)
        } else if str_eq(base, "uvec_type") {
            Some(Primitive::Uint)
        } else if str_eq(base, "bvec_type") {
            Some(Primitive::Bool)
        } else if str_eq(base, "mat_type") {
            Some(Primitive::Float)
        } else {
            None
        }
    }

    /// Whether the base name is exactly `name`.
    pub fn is_named(&self, name: &str) -> (r: bool)
        ensures
            r == (self@.base == name@),
    {
        str_eq(self.base.as_str(), name)
    }
}

impl Clone for TypeInfo {
    fn clone(&self) -> (r: Self)
        ensures
            r == *self,
    {
        TypeInfo { base: self.base.clone(), size: self.size }
    }
}

impl PartialEq for TypeInfo {
    fn eq(&self, other: &Self) -> (r: bool) {
        if self.size != other.size {
            return false;
        }
        let base = self.base.as_str();
        let other_base = other.base.as_str();
        if str_eq(base, other_base) {
            return true;
        }
        family_has(base, other_base) || family_has(other_base, base)
    }
}

impl PartialEqSpecImpl for TypeInfo {
    open spec fn obeys_eq_spec() -> bool {
        true
    }

    open spec fn eq_spec(&self, other: &Self) -> bool {
        type_eq(self@, other@)
    }
}

impl Eq for TypeInfo {

}

/// Every type matches itself.
pub proof fn lemma_type_eq_reflexive(a: SpecTypeInfo)
    ensures
        type_eq(a, a),
{
}

/// Matching does not depend on the order of its operands.
pub proof fn lemma_type_eq_symmetric(a: SpecTypeInfo, b: SpecTypeInfo)
    ensures
        type_eq(a, b) == type_eq(b, a),
{
}

/// A member of a family matches the family, from either side, whenever the
/// array sizes agree.
pub proof fn lemma_member_matches_family(family: SpecTypeInfo, member: SpecTypeInfo)
    requires
        in_family(family.base, member.base),
        family.size == member.size,
    ensures
        type_eq(family, member),
        type_eq(member, family),
{
}

/// Only family names have members.
pub proof fn lemma_only_families_have_members(family: Seq<char>, name: Seq<char>)
    requires
        in_family(family, name),
    ensures
        is_family(family),
{
}

/// Two concrete types match only if they are the same type: no two
/// different concrete types are ever equated.
pub proof fn lemma_concrete_types_match_only_themselves(a: SpecTypeInfo, b: SpecTypeInfo)
    requires
        !is_family(a.base),
        !is_family(b.base),
    ensures
        type_eq(a, b) <==> a == b,
{
}

/// Types of different array sizes never match.
pub proof fn lemma_sizes_must_agree(a: SpecTypeInfo, b: SpecTypeInfo)
    requires
        a.size != b.size,
    ensures
        !type_eq(a, b),
{
}

/// A family that fixes the shape has that shape.
pub proof fn lemma_typed_family_has_its_shape(base: Seq<char>)
    requires
        generically_typed(base) is Some,
    ensures
        generic_size_of(base) == generically_typed(base),
{
    reveal_type_names();
}

/// A family of vectors that fixes the element type has that element type.
pub proof fn lemma_sized_family_has_its_element(base: Seq<char>)
    requires
        generically_sized(base) is Some,
        base != "mat_type"@,
    ensures
        generic_type_of(base) == generically_sized(base),
{
    reveal_type_names();
}

/// The type assembled from an element type and a shape has that element
/// type, and has that shape unless it is boolean.
pub proof fn lemma_pieces_round_trip(primitive: Primitive, shape: GenericSize)
    requires
        pieces_exist(primitive, shape),
    ensures
        generic_type_of(name_of_pieces(primitive, shape)) == Some(primitive),
        primitive != Primitive::Bool ==> generic_size_of(name_of_pieces(primitive, shape)) == Some(
            shape,
        ),
        !is_family(name_of_pieces(primitive, shape)),
{
    reveal_type_names();
    let name = name_of_pieces(primitive, shape);
    match shape {
        GenericSize::Number => {
            assert(name.len() <= 5);
        },
        GenericSize::GVec2Type => {
            assert(name[name.len() - 1] == '2');
        },
        GenericSize::GVec3Type => {
            assert(name[name.len() - 1] == '3');
        },
        GenericSize::GVec4Type => {
            assert(name[name.len() - 1] == '4');
        },
        GenericSize::GSampler2D => {
            assert(name[name.len() - 1] == 'D');
        },
        GenericSize::GSampler2DArray => {
            assert(name[name.len() - 1] == 'y');
        },
        GenericSize::GSampler3D => {
            assert(name[name.len() - 1] == 'D');
        },
    }
}

/// Makes the spelling of every type name known to the prover.
pub proof fn reveal_type_names()
    ensures
        "vec_type"@ =~= seq!['v', 'e', 'c', '_', 't', 'y', 'p', 'e'],
        "float"@ =~= seq!['f', 'l', 'o', 'a', 't'],
        "vec2"@ =~= seq!['v', 'e', 'c', '2'],
        "vec3"@ =~= seq!['v', 'e', 'c', '3'],
        "vec4"@ =~= seq!['v', 'e', 'c', '4'],
        "ivec_type"@ =~= seq!['i', 'v', 'e', 'c', '_', 't', 'y', 'p', 'e'],
        "int"@ =~= seq!['i', 'n', 't'],
        "ivec2"@ =~= seq!['i', 'v', 'e', 'c', '2'],
        "ivec3"@ =~= seq!['i', 'v', 'e', 'c', '3'],
        "ivec4"@ =~= seq!['i', 'v', 'e', 'c', '4'],
        "uvec_type"@ =~= seq!['u', 'v', 'e', 'c', '_', 't', 'y', 'p', 'e'],
        "uint"@ =~= seq!['u', 'i', 'n', 't'],
        "uvec2"@ =~= seq!['u', 'v', 'e', 'c', '2'],
        "uvec3"@ =~= seq!['u', 'v', 'e', 'c', '3'],
        "uvec4"@ =~= seq!['u', 'v', 'e', 'c', '4'],
        "bvec_type"@ =~= seq!['b', 'v', 'e', 'c', '_', 't', 'y', 'p', 'e'],
        "bool"@ =~= seq!['b', 'o', 'o', 'l'],
        "bvec2"@ =~= seq!['b', 'v', 'e', 'c', '2'],
        "bvec3"@ =~= seq!['b', 'v', 'e', 'c', '3'],
        "bvec4"@ =~= seq!['b', 'v', 'e', 'c', '4'],
        "mat_type"@ =~= seq!['m', 'a', 't', '_', 't', 'y', 'p', 'e'],
        "mat2"@ =~= seq!['m', 'a', 't', '2'],
        "mat3"@ =~= seq!['m', 'a', 't', '3'],
        "mat4"@ =~= seq!['m', 'a', 't', '4'],
        "number"@ =~= seq!['n', 'u', 'm', 'b', 'e', 'r'],
        "gvec2_type"@ =~= seq!['g', 'v', 'e', 'c', '2', '_', 't', 'y', 'p', 'e'],
        "gvec3_type"@ =~= seq!['g', 'v', 'e', 'c', '3', '_', 't', 'y', 'p', 'e'],
        "gvec4_type"@ =~= seq!['g', 'v', 'e', 'c', '4', '_', 't', 'y', 'p', 'e'],
        "gsampler2D"@ =~= seq!['g', 's', 'a', 'm', 'p', 'l', 'e', 'r', '2', 'D'],
        "sampler2D"@ =~= seq!['s', 'a', 'm', 'p', 'l', 'e', 'r', '2', 'D'],
        "isampler2D"@ =~= seq!['i', 's', 'a', 'm', 'p', 'l', 'e', 'r', '2', 'D'],
        "usampler2D"@ =~= seq!['u', 's', 'a', 'm', 'p', 'l', 'e', 'r', '2', 'D'],
        "gsampler3D"@ =~= seq!['g', 's', 'a', 'm', 'p', 'l', 'e', 'r', '3', 'D'],
        "sampler3D"@ =~= seq!['s', 'a', 'm', 'p', 'l', 'e', 'r', '3', 'D'],
        "isampler3D"@ =~= seq!['i', 's', 'a', 'm', 'p', 'l', 'e', 'r', '3', 'D'],
        "usampler3D"@ =~= seq!['u', 's', 'a', 'm', 'p', 'l', 'e', 'r', '3', 'D'],
        "gsampler2DArray"@ =~= seq!['g', 's', 'a', 'm', 'p', 'l', 'e', 'r', '2', 'D', 'A', 'r', 'r', 'a', 'y'],
        "sampler2DArray"@ =~= seq!['s', 'a', 'm', 'p', 'l', 'e', 'r', '2', 'D', 'A', 'r', 'r', 'a', 'y'],
        "isampler2DArray"@ =~= seq!['i', 's', 'a', 'm', 'p', 'l', 'e', 'r', '2', 'D', 'A', 'r', 'r', 'a', 'y'],
        "usampler2DArray"@ =~= seq!['u', 's', 'a', 'm', 'p', 'l', 'e', 'r', '2', 'D', 'A', 'r', 'r', 'a', 'y'],
        "samplerCube"@ =~= seq!['s', 'a', 'm', 'p', 'l', 'e', 'r', 'C', 'u', 'b', 'e'],
        "samplerCubeArray"@ =~= seq!['s', 'a', 'm', 'p', 'l', 'e', 'r', 'C', 'u', 'b', 'e', 'A', 'r', 'r', 'a', 'y'],
        "void"@ =~= seq!['v', 'o', 'i', 'd'],
{
    reveal_strlit("vec_type");
    reveal_strlit("float");
    reveal_strlit("vec2");
    reveal_strlit("vec3");
    reveal_strlit("vec4");
    reveal_strlit("ivec_type");
    reveal_strlit("int");
    reveal_strlit("ivec2");
    reveal_strlit("ivec3");
    reveal_strlit("ivec4");
    reveal_strlit("uvec_type");
    reveal_strlit("uint");
    reveal_strlit("uvec2");
    reveal_strlit("uvec3");
    reveal_strlit("uvec4");
    reveal_strlit("bvec_type");
    reveal_strlit("bool");
    reveal_strlit("bvec2");
    reveal_strlit("bvec3");
    reveal_strlit("bvec4");
    reveal_strlit("mat_type");
    reveal_strlit("mat2");
    reveal_strlit("mat3");
    reveal_strlit("mat4");
    reveal_strlit("number");
    reveal_strlit("gvec2_type");
    reveal_strlit("gvec3_type");
    reveal_strlit("gvec4_type");
    reveal_strlit("gsampler2D");
    reveal_strlit("sampler2D");
    reveal_strlit("isampler2D");
    reveal_strlit("usampler2D");
    reveal_strlit("gsampler3D");
    reveal_strlit("sampler3D");
    reveal_strlit("isampler3D");
    reveal_strlit("usampler3D");
    reveal_strlit("gsampler2DArray");
    reveal_strlit("sampler2DArray");
    reveal_strlit("isampler2DArray");
    reveal_strlit("usampler2DArray");
    reveal_strlit("samplerCube");
    reveal_strlit("samplerCubeArray");
    reveal_strlit("void");
}

/// The entry of a built-in type.
pub open spec fn builtin_type(name: Seq<char>, anywhere: bool, description: Seq<char>) -> (
    Seq<char>,
    SpecBuiltinTypeInfo,
) {
    (name, SpecBuiltinTypeInfo { description, used_anywhere: anywhere })
}

fn add_type(list: &mut Vec<(String, BuiltinTypeInfo)>, name: &str, anywhere: bool, description: &str)
    ensures
        final(list).deep_view() == old(list).deep_view().push(
            builtin_type(name@, anywhere, description@),
        ),
        final(list).len() == old(list).len() + 1,
{
    list.push(
        (
            String::from_str(name),
            BuiltinTypeInfo { description: String::from_str(description), used_anywhere: anywhere },
        ),
    );
    assert(list.deep_view() =~= old(list).deep_view().push(
        builtin_type(name@, anywhere, description@),
    ));
}

/// The built-in types, each with whether it may be used inside functions
/// and with what it is.
pub open spec fn builtin_type_table() -> Seq<(Seq<char>, SpecBuiltinTypeInfo)> {
    seq![
        builtin_type("void"@, false, "Void datatype, useful only for functions that return nothing."@),
        builtin_type("bool"@, true, "Boolean datatype, can only contain true or false."@),
        builtin_type("bvec2"@, true, "Two-component vector of booleans."@),
        builtin_type("bvec3"@, true, "Three-component vector of booleans."@),
        builtin_type("bvec4"@, true, "Four-component vector of booleans."@),
        builtin_type("int"@, true, "Signed scalar integer."@),
        builtin_type("ivec2"@, true, "Two-component vector of signed integers."@),
        builtin_type("ivec3"@, true, "Three-component vector of signed integers."@),
        builtin_type("ivec4"@, true, "Four-component vector of signed integers."@),
        builtin_type("uint"@, true, "Unsigned scalar integer; can't contain negative numbers."@),
        builtin_type("uvec2"@, true, "Two-component vector of unsigned integers."@),
        builtin_type("uvec3"@, true, "Three-component vector of unsigned integers."@),
        builtin_type("uvec4"@, true, "Four-component vector of unsigned integers."@),
        builtin_type("float"@, true, "Floating-point scalar."@),
        builtin_type("vec2"@, true, "Two-component vector of floating-point values."@),
        builtin_type("vec3"@, true, "Three-component vector of floating-point values."@),
        builtin_type("vec4"@, true, "Four-component vector of floating-point values."@),
        builtin_type("mat2"@, true, "2x2 matrix, in column major order."@),
        builtin_type("mat3"@, true, "3x3 matrix, in column major order."@),
        builtin_type("mat4"@, true, "4x4 matrix, in column major order."@),
        builtin_type("sampler2D"@, false, "Sampler type for binding 2D textures, which are read as float."@),
        builtin_type("isampler2D"@, false, "Sampler type for binding 2D textures, which are read as signed integer."@),
        builtin_type("usampler2D"@, false, "Sampler type for binding 2D textures, which are read as unsigned integer."@),
        builtin_type("sampler2DArray"@, false, "Sampler type for binding 2D texture arrays, which are read as float."@),
        builtin_type("isampler2DArray"@, false, "Sampler type for binding 2D texture arrays, which are read as signed integer."@),
        builtin_type("usampler2DArray"@, false, "Sampler type for binding 2D texture arrays, which are read as unsigned integer."@),
        builtin_type("sampler3D"@, false, "Sampler type for binding 3D textures, which are read as float."@),
        builtin_type("isampler3D"@, false, "Sampler type for binding 3D textures, which are read as signed integer."@),
        builtin_type("usampler3D"@, false, "Sampler type for binding 3D textures, which are read as unsigned integer."@),
        builtin_type("samplerCube"@, false, "Sampler type for binding Cubemaps, which are read as float."@),
        builtin_type("samplerCubeArray"@, false, "Sampler type for binding Cubemap arrays, which are read as float."@),
    ]
}

/// The built-in types.
pub fn make_builtin_types() -> (r: Vec<(String, BuiltinTypeInfo)>)
    ensures
        r.deep_view() == builtin_type_table(),
        r.len() == 31,
{
    let mut r: Vec<(String, BuiltinTypeInfo)> = Vec::new();
    assert(r.deep_view() =~= Seq::empty());
    add_type(&mut r, "void", false, "Void datatype, useful only for functions that return nothing.");
    add_type(&mut r, "bool", true, "Boolean datatype, can only contain true or false.");
    add_type(&mut r, "bvec2", true, "Two-component vector of booleans.");
    add_type(&mut r, "bvec3", true, "Three-component vector of booleans.");
    add_type(&mut r, "bvec4", true, "Four-component vector of booleans.");
    add_type(&mut r, "int", true, "Signed scalar integer.");
    add_type(&mut r, "ivec2", true, "Two-component vector of signed integers.");
    add_type(&mut r, "ivec3", true, "Three-component vector of signed integers.");
    add_type(&mut r, "ivec4", true, "Four-component vector of signed integers.");
    add_type(&mut r, "uint", true, "Unsigned scalar integer; can't contain negative numbers.");
    add_type(&mut r, "uvec2", true, "Two-component vector of unsigned integers.");
    add_type(&mut r, "uvec3", true, "Three-component vector of unsigned integers.");
    add_type(&mut r, "uvec4", true, "Four-component vector of unsigned integers.");
    add_type(&mut r, "float", true, "Floating-point scalar.");
    add_type(&mut r, "vec2", true, "Two-component vector of floating-point values.");
    add_type(&mut r, "vec3", true, "Three-component vector of floating-point values.");
    add_type(&mut r, "vec4", true, "Four-component vector of floating-point values.");
    add_type(&mut r, "mat2", true, "2x2 matrix, in column major order.");
    add_type(&mut r, "mat3", true, "3x3 matrix, in column major order.");
    add_type(&mut r, "mat4", true, "4x4 matrix, in column major order.");
    add_type(&mut r, "sampler2D", false, "Sampler type for binding 2D textures, which are read as float.");
    add_type(&mut r, "isampler2D", false, "Sampler type for binding 2D textures, which are read as signed integer.");
    add_type(&mut r, "usampler2D", false, "Sampler type for binding 2D textures, which are read as unsigned integer.");
    add_type(&mut r, "sampler2DArray", false, "Sampler type for binding 2D texture arrays, which are read as float.");
    add_type(&mut r, "isampler2DArray", false, "Sampler type for binding 2D texture arrays, which are read as signed integer.");
    add_type(&mut r, "usampler2DArray", false, "Sampler type for binding 2D texture arrays, which are read as unsigned integer.");
    add_type(&mut r, "sampler3D", false, "Sampler type for binding 3D textures, which are read as float.");
    add_type(&mut r, "isampler3D", false, "Sampler type for binding 3D textures, which are read as signed integer.");
    add_type(&mut r, "usampler3D", false, "Sampler type for binding 3D textures, which are read as unsigned integer.");
    add_type(&mut r, "samplerCube", false, "Sampler type for binding Cubemaps, which are read as float.");
    add_type(&mut r, "samplerCubeArray", false, "Sampler type for binding Cubemap arrays, which are read as float.");
    r
}

} // verus!

//! Function signatures.

use vstd::prelude::*;
use crate::lexer::token::{Token, TokenKind};
use vstd::string::*;
use crate::memory::table::SpecTable;
use crate::memory::types::{plain_type, SpecTypeInfo, TypeInfo};
use crate::position::Range;

verus! {

/// How a parameter is passed.
#[derive(Clone, Copy, Debug, PartialEq, Eq, Structural)]
pub enum FunctionParamQualifier {
    In,
    Out,
    InOut,
}

/// The keyword that writes a qualifier.
pub open spec fn qualifier_kind(qualifier: FunctionParamQualifier) -> TokenKind {
    match qualifier {
        FunctionParamQualifier::In => TokenKind::In,
        FunctionParamQualifier::Out => TokenKind::Out,
        FunctionParamQualifier::InOut => TokenKind::InOut,
    }
}

/// Whether a token kind writes a qualifier.
pub open spec fn is_qualifier_kind(kind: TokenKind) -> bool {
    kind == TokenKind::In || kind == TokenKind::Out || kind == TokenKind::InOut
}

/// The qualifier that a keyword writes.
pub open spec fn qualifier_of_kind(kind: TokenKind) -> FunctionParamQualifier {
    match kind {
        TokenKind::In => FunctionParamQualifier::In,
        TokenKind::Out => FunctionParamQualifier::Out,
        _ => FunctionParamQualifier::InOut,
    }
}

impl FunctionParamQualifier {
    /// The keyword that writes the qualifier.
    pub fn kind(&self) -> (r: TokenKind)
        ensures
            r == qualifier_kind(*self),
    {
        match self {
            FunctionParamQualifier::In => TokenKind::In,
            FunctionParamQualifier::Out => TokenKind::Out,
            FunctionParamQualifier::InOut => TokenKind::InOut,
        }
    }

    /// The qualifier that the keyword `token` writes.
    pub fn from(token: Token) -> (r: Self)
        requires
            is_qualifier_kind(token.kind),
        ensures
            r == qualifier_of_kind(token.kind),
            qualifier_kind(r) == token.kind,
    {
        match token.kind {
            TokenKind::In => FunctionParamQualifier::In,
            TokenKind::Out => FunctionParamQualifier::Out,
            _ => FunctionParamQualifier::InOut,
        }
    }
}

/// One parameter of a signature.
#[derive(Debug)]
pub struct FunctionParam {
    pub name: String,
    pub ty: TypeInfo,
    pub qualifier: Option<FunctionParamQualifier>,
}

/// The mathematical value of a [`FunctionParam`].
pub struct SpecFunctionParam {
    pub name: Seq<char>,
    pub ty: SpecTypeInfo,
    pub qualifier: Option<FunctionParamQualifier>,
}

impl DeepView for FunctionParam {
    type V = SpecFunctionParam;

    open spec fn deep_view(&self) -> SpecFunctionParam {
        SpecFunctionParam { name: self.name@, ty: self.ty@, qualifier: self.qualifier }
    }
}

impl Clone for FunctionParam {
    fn clone(&self) -> (r: Self)
        ensures
            r == *self,
    {
        FunctionParam { name: self.name.clone(), ty: self.ty.clone(), qualifier: self.qualifier }
    }
}

/// One way to call a function: what it takes and what it returns.
#[derive(Debug)]
pub struct FunctionSignature {
    pub return_type: TypeInfo,
    pub params: Vec<FunctionParam>,
}

/// The mathematical value of a [`FunctionSignature`].
pub struct SpecFunctionSignature {
    pub return_type: SpecTypeInfo,
    pub params: Seq<SpecFunctionParam>,
}

impl DeepView for FunctionSignature {
    type V = SpecFunctionSignature;

    open spec fn deep_view(&self) -> SpecFunctionSignature {
        SpecFunctionSignature {
            return_type: self.return_type@,
            params: self.params.deep_view(),
        }
    }
}

/// A function: its signatures in the order in which a call tries them.
#[derive(Debug)]
pub struct FunctionInfo {
    pub signatures: Vec<FunctionSignature>,
    pub range: Option<Range>,
    pub description: Option<String>,
    pub is_const: bool,
}

/// The mathematical value of a [`FunctionInfo`].
pub struct SpecFunctionInfo {
    pub signatures: Seq<SpecFunctionSignature>,
    pub range: Option<Range>,
    pub description: Option<Seq<char>>,
    pub is_const: bool,
}

impl DeepView for FunctionInfo {
    type V = SpecFunctionInfo;

    open spec fn deep_view(&self) -> SpecFunctionInfo {
        SpecFunctionInfo {
            signatures: self.signatures.deep_view(),
            range: self.range,
            description: self.description.deep_view(),
            is_const: self.is_const,
        }
    }
}

/// A signature that returns the type of the given name and takes nothing.
pub open spec fn returning(return_type: Seq<char>) -> SpecFunctionSignature {
    SpecFunctionSignature { return_type: plain_type(return_type), params: Seq::empty() }
}

/// The signature with one more parameter.
pub open spec fn with_param(
    signature: SpecFunctionSignature,
    qualifier: Option<FunctionParamQualifier>,
    ty: Seq<char>,
    name: Seq<char>,
) -> SpecFunctionSignature {
    SpecFunctionSignature {
        return_type: signature.return_type,
        params: signature.params.push(SpecFunctionParam { name, ty: plain_type(ty), qualifier }),
    }
}

/// The entry of a built-in function.
pub open spec fn builtin_function(
    name: Seq<char>,
    signatures: Seq<SpecFunctionSignature>,
    description: Seq<char>,
    is_const: bool,
) -> (Seq<char>, SpecFunctionInfo) {
    (
        name,
        SpecFunctionInfo { signatures, range: None, description: Some(description), is_const },
    )
}

/// A signature that returns `return_type` and takes nothing yet.
fn signature(return_type: &str) -> (r: FunctionSignature)
    ensures
        r.deep_view() == returning(return_type@),
{
    let r = FunctionSignature { return_type: TypeInfo::from_str(return_type), params: Vec::new() };
    assert(r.params.deep_view() =~= Seq::empty());
    r
}

/// The signature with one more parameter.
fn taking(
    signature: FunctionSignature,
    qualifier: Option<FunctionParamQualifier>,
    ty: &str,
    name: &str,
) -> (r: FunctionSignature)
    ensures
        r.deep_view() == with_param(signature.deep_view(), qualifier, ty@, name@),
{
    let mut r = signature;
    r.params.push(
        FunctionParam { name: String::from_str(name), ty: TypeInfo::from_str(ty), qualifier },
    );
    assert(r.params.deep_view() =~= signature.deep_view().params.push(
        SpecFunctionParam { name: name@, ty: plain_type(ty@), qualifier },
    ));
    r
}

fn add_function(
    list: &mut Vec<(String, FunctionInfo)>,
    name: &str,
    signatures: Vec<FunctionSignature>,
    description: &str,
    is_const: bool,
)
    ensures
        final(list).deep_view() == old(list).deep_view().push(
            builtin_function(name@, signatures.deep_view(), description@, is_const),
        ),
        final(list).len() == old(list).len() + 1,
{
    list.push(
        (
            String::from_str(name),
            FunctionInfo {
                signatures,
                range: None,
                description: Some(String::from_str(description)),
                is_const,
            },
        ),
    );
    assert(list.deep_view() =~= old(list).deep_view().push(
        builtin_function(name@, signatures.deep_view(), description@, is_const),
    ));
}

/// Part 1 of the built-in functions.
pub open spec fn builtin_functions_1() -> SpecTable<SpecFunctionInfo> {
    seq![
        builtin_function(
            "float"@,
            seq![
                with_param(returning("float"@), None, "number"@, "x"@),
                with_param(returning("float"@), None, "boolean"@, "x"@),
            ],
            "Cast to a float."@,
            true,
        ),
        builtin_function(
            "int"@,
            seq![
                with_param(returning("int"@), None, "number"@, "x"@),
                with_param(returning("int"@), None, "boolean"@, "x"@),
            ],
            "Cast to a signed integer."@,
            true,
        ),
        builtin_function(
            "uint"@,
            seq![
                with_param(returning("uint"@), None, "number"@, "x"@),
                with_param(returning("uint"@), None, "boolean"@, "x"@),
            ],
            "Cast to an unsigned integer."@,
            true,
        ),
        builtin_function(
            "bool"@,
            seq![
                with_param(returning("bool"@), None, "number"@, "x"@),
                with_param(returning("uint"@), None, "boolean"@, "x"@),
            ],
            "Cast to an boolean."@,
            true,
        ),
        builtin_function(
            "vec2"@,
            seq![
                with_param(returning("vec2"@), None, "number"@, "x"@),
                with_param(with_param(returning("vec2"@), None, "number"@, "x"@), None, "number"@, "y"@),
            ],
            "Cast to a vec2."@,
            true,
        ),
        builtin_function(
            "vec3"@,
            seq![
                with_param(returning("vec3"@), None, "number"@, "x"@),
                with_param(with_param(with_param(returning("vec3"@), None, "number"@, "x"@), None, "number"@, "y"@), None, "number"@, "z"@),
                with_param(with_param(returning("vec3"@), None, "vec2"@, "x"@), None, "number"@, "y"@),
            ],
            "Cast to a vec3."@,
            true,
        ),
        builtin_function(
            "vec4"@,
            seq![
                with_param(returning("vec4"@), None, "number"@, "x"@),
                with_param(with_param(with_param(with_param(returning("vec4"@), None, "number"@, "x"@), None, "number"@, "y"@), None, "number"@, "z"@), None, "number"@, "w"@),
                with_param(with_param(returning("vec4"@), None, "vec3"@, "x"@), None, "number"@, "y"@),
            ],
            "Cast to a vec4."@,
            true,
        ),
        builtin_function(
            "ivec2"@,
            seq![
                with_param(returning("ivec2"@), None, "int"@, "x"@),
                with_param(with_param(returning("ivec2"@), None, "int"@, "x"@), None, "int"@, "y"@),
            ],
            "Cast to an ivec2."@,
            true,
        ),
        builtin_function(
            "ivec3"@,
            seq![
                with_param(returning("ivec3"@), None, "int"@, "x"@),
                with_param(with_param(with_param(returning("ivec3"@), None, "int"@, "x"@), None, "int"@, "y"@), None, "int"@, "z"@),
                with_param(with_param(returning("ivec3"@), None, "ivec2"@, "x"@), None, "int"@, "y"@),
            ],
            "Cast to a vec3."@,
            true,
        ),
        builtin_function(
            "ivec4"@,
            seq![
                with_param(returning("ivec4"@), None, "int"@, "x"@),
                with_param(with_param(with_param(with_param(returning("ivec4"@), None, "int"@, "x"@), None, "int"@, "y"@), None, "int"@, "z"@), None, "int"@, "w"@),
                with_param(with_param(returning("ivec4"@), None, "ivec3"@, "x"@), None, "int"@, "y"@),
            ],
            "Cast to a vec4."@,
            true,
        ),
    ]
}

fn add_functions_1(list: &mut Vec<(String, FunctionInfo)>)
    ensures
        final(list).deep_view() == old(list).deep_view() + builtin_functions_1(),
        final(list).len() == old(list).len() + 10,
{
    let signatures = vec![
        taking(signature("float"), None, "number", "x"),
        taking(signature("float"), None, "boolean", "x"),
    ];
    assert(signatures.deep_view() =~= seq![
        with_param(returning("float"@), None, "number"@, "x"@),
        with_param(returning("float"@), None, "boolean"@, "x"@),
    ]);
    add_function(list, "float", signatures, "Cast to a float.", true);
    let signatures = vec![
        taking(signature("int"), None, "number", "x"),
        taking(signature("int"), None, "boolean", "x"),
    ];
    assert(signatures.deep_view() =~= seq![
        with_param(returning("int"@), None, "number"@, "x"@),
        with_param(returning("int"@), None, "boolean"@, "x"@),
    ]);
    add_function(list, "int", signatures, "Cast to a signed integer.", true);
    let signatures = vec![
        taking(signature("uint"), None, "number", "x"),
        taking(signature("uint"), None, "boolean", "x"),
    ];
    assert(signatures.deep_view() =~= seq![
        with_param(returning("uint"@), None, "number"@, "x"@),
        with_param(returning("uint"@), None, "boolean"@, "x"@),
    ]);
    add_function(list, "uint", signatures, "Cast to an unsigned integer.", true);
    let signatures = vec![
        taking(signature("bool"), None, "number", "x"),
        taking(signature("uint"), None, "boolean", "x"),
    ];
    assert(signatures.deep_view() =~= seq![
        with_param(returning("bool"@), None, "number"@, "x"@),
        with_param(returning("uint"@), None, "boolean"@, "x"@),
    ]);
    add_function(list, "bool", signatures, "Cast to an boolean.", true);
    let signatures = vec![
        taking(signature("vec2"), None, "number", "x"),
        taking(taking(signature("vec2"), None, "number", "x"), None, "number", "y"),
    ];
    assert(signatures.deep_view() =~= seq![
        with_param(returning("vec2"@), None, "number"@, "x"@),
        with_param(with_param(returning("vec2"@), None, "number"@, "x"@), None, "number"@, "y"@),
    ]);
    add_function(list, "vec2", signatures, "Cast to a vec2.", true);
    let signatures = vec![
        taking(signature("vec3"), None, "number", "x"),
        taking(taking(taking(signature("vec3"), None, "number", "x"), None, "number", "y"), None, "number", "z"),
        taking(taking(signature("vec3"), None, "vec2", "x"), None, "number", "y"),
    ];
    assert(signatures.deep_view() =~= seq![
        with_param(returning("vec3"@), None, "number"@, "x"@),
        with_param(with_param(with_param(returning("vec3"@), None, "number"@, "x"@), None, "number"@, "y"@), None, "number"@, "z"@),
        with_param(with_param(returning("vec3"@), None, "vec2"@, "x"@), None, "number"@, "y"@),
    ]);
    add_function(list, "vec3", signatures, "Cast to a vec3.", true);
    let signatures = vec![
        taking(signature("vec4"), None, "number", "x"),
        taking(taking(taking(taking(signature("vec4"), None, "number", "x"), None, "number", "y"), None, "number", "z"), None, "number", "w"),
        taking(taking(signature("vec4"), None, "vec3", "x"), None, "number", "y"),
    ];
    assert(signatures.deep_view() =~= seq![
        with_param(returning("vec4"@), None, "number"@, "x"@),
        with_param(with_param(with_param(with_param(returning("vec4"@), None, "number"@, "x"@), None, "number"@, "y"@), None, "number"@, "z"@), None, "number"@, "w"@),
        with_param(with_param(returning("vec4"@), None, "vec3"@, "x"@), None, "number"@, "y"@),
    ]);
    add_function(list, "vec4", signatures, "Cast to a vec4.", true);
    let signatures = vec![
        taking(signature("ivec2"), None, "int", "x"),
        taking(taking(signature("ivec2"), None, "int", "x"), None, "int", "y"),
    ];
    assert(signatures.deep_view() =~= seq![
        with_param(returning("ivec2"@), None, "int"@, "x"@),
        with_param(with_param(returning("ivec2"@), None, "int"@, "x"@), None, "int"@, "y"@),
    ]);
    add_function(list, "ivec2", signatures, "Cast to an ivec2.", true);
    let signatures = vec![
        taking(signature("ivec3"), None, "int", "x"),
        taking(taking(taking(signature("ivec3"), None, "int", "x"), None, "int", "y"), None, "int", "z"),
        taking(taking(signature("ivec3"), None, "ivec2", "x"), None, "int", "y"),
    ];
    assert(signatures.deep_view() =~= seq![
        with_param(returning("ivec3"@), None, "int"@, "x"@),
        with_param(with_param(with_param(returning("ivec3"@), None, "int"@, "x"@), None, "int"@, "y"@), None, "int"@, "z"@),
        with_param(with_param(returning("ivec3"@), None, "ivec2"@, "x"@), None, "int"@, "y"@),
    ]);
    add_function(list, "ivec3", signatures, "Cast to a vec3.", true);
    let signatures = vec![
        taking(signature("ivec4"), None, "int", "x"),
        taking(taking(taking(taking(signature("ivec4"), None, "int", "x"), None, "int", "y"), None, "int", "z"), None, "int", "w"),
        taking(taking(signature("ivec4"), None, "ivec3", "x"), None, "int", "y"),
    ];
    assert(signatures.deep_view() =~= seq![
        with_param(returning("ivec4"@), None, "int"@, "x"@),
        with_param(with_param(with_param(with_param(returning("ivec4"@), None, "int"@, "x"@), None, "int"@, "y"@), None, "int"@, "z"@), None, "int"@, "w"@),
        with_param(with_param(returning("ivec4"@), None, "ivec3"@, "x"@), None, "int"@, "y"@),
    ]);
    add_function(list, "ivec4", signatures, "Cast to a vec4.", true);
    assert(list.deep_view() =~= old(list).deep_view() + builtin_functions_1());
}

/// Part 2 of the built-in functions.
pub open spec fn builtin_functions_2() -> SpecTable<SpecFunctionInfo> {
    seq![
        builtin_function(
            "uvec2"@,
            seq![
                with_param(returning("vec2"@), None, "uint"@, "x"@),
                with_param(with_param(returning("uvec2"@), None, "uint"@, "x"@), None, "uint"@, "y"@),
            ],
            "Cast to a uvec2."@,
            true,
        ),
        builtin_function(
            "uvec3"@,
            seq![
                with_param(returning("uvec3"@), None, "uint"@, "x"@),
                with_param(with_param(with_param(returning("uvec3"@), None, "uint"@, "x"@), None, "uint"@, "y"@), None, "uint"@, "z"@),
                with_param(with_param(returning("uvec3"@), None, "uvec2"@, "x"@), None, "uint"@, "y"@),
            ],
            "Cast to a vec3."@,
            true,
        ),
        builtin_function(
            "uvec4"@,
            seq![
                with_param(returning("uvec4"@), None, "uint"@, "x"@),
                with_param(with_param(with_param(with_param(returning("uvec4"@), None, "uint"@, "x"@), None, "uint"@, "y"@), None, "uint"@, "z"@), None, "uint"@, "w"@),
                with_param(with_param(returning("uvec4"@), None, "uvec3"@, "x"@), None, "uint"@, "y"@),
            ],
            "Cast to a vec4."@,
            true,
        ),
        builtin_function(
            "bvec2"@,
            seq![
                with_param(returning("bvec2"@), None, "bool"@, "x"@),
                with_param(with_param(returning("bvec2"@), None, "bool"@, "x"@), None, "bool"@, "y"@),
            ],
            "Cast to a bvec2."@,
            true,
        ),
        builtin_function(
            "bvec3"@,
            seq![
                with_param(returning("bvec3"@), None, "bool"@, "x"@),
                with_param(with_param(with_param(returning("bvec3"@), None, "bool"@, "x"@), None, "bool"@, "y"@), None, "bool"@, "z"@),
                with_param(with_param(returning("bvec3"@), None, "bvec2"@, "x"@), None, "bool"@, "y"@),
            ],
            "Cast to a vec3."@,
            true,
        ),
        builtin_function(
            "bvec4"@,
            seq![
                with_param(returning("bvec4"@), None, "bool"@, "x"@),
                with_param(with_param(with_param(with_param(returning("bvec4"@), None, "bool"@, "x"@), None, "bool"@, "y"@), None, "bool"@, "z"@), None, "bool"@, "w"@),
                with_param(with_param(returning("bvec4"@), None, "bvec3"@, "x"@), None, "bool"@, "y"@),
            ],
            "Cast to a vec4."@,
            true,
        ),
        builtin_function(
            "mat2"@,
            seq![
                with_param(with_param(returning("mat2"@), None, "vec2"@, "x"@), None, "vec2"@, "y"@),
            ],
            "Cast to a mat2."@,
            true,
        ),
        builtin_function(
            "mat3"@,
            seq![
                with_param(with_param(with_param(returning("mat3"@), None, "vec3"@, "x"@), None, "vec3"@, "y"@), None, "vec3"@, "z"@),
            ],
            "Cast to a mat3."@,
            true,
        ),
        builtin_function(
            "mat4"@,
            seq![
                with_param(with_param(with_param(with_param(returning("mat4"@), None, "vec4"@, "x"@), None, "vec4"@, "y"@), None, "vec4"@, "z"@), None, "vec4"@, "w"@),
            ],
            "Cast to a mat4."@,
            true,
        ),
        builtin_function(
            "radians"@,
            seq![
                with_param(returning("vec_type"@), None, "vec_type"@, "degrees"@),
            ],
            "Convert degrees to radians."@,
            false,
        ),
    ]
}

fn add_functions_2(list: &mut Vec<(String, FunctionInfo)>)
    ensures
        final(list).deep_view() == old(list).deep_view() + builtin_functions_2(),
        final(list).len() == old(list).len() + 10,
{
    let signatures = vec![
        taking(signature("vec2"), None, "uint", "x"),
        taking(taking(signature("uvec2"), None, "uint", "x"), None, "uint", "y"),
    ];
    assert(signatures.deep_view() =~= seq![
        with_param(returning("vec2"@), None, "uint"@, "x"@),
        with_param(with_param(returning("uvec2"@), None, "uint"@, "x"@), None, "uint"@, "y"@),
    ]);
    add_function(list, "uvec2", signatures, "Cast to a uvec2.", true);
    let signatures = vec![
        taking(signature("uvec3"), None, "uint", "x"),
        taking(taking(taking(signature("uvec3"), None, "uint", "x"), None, "uint", "y"), None, "uint", "z"),
        taking(taking(signature("uvec3"), None, "uvec2", "x"), None, "uint", "y"),
    ];
    assert(signatures.deep_view() =~= seq![
        with_param(returning("uvec3"@), None, "uint"@, "x"@),
        with_param(with_param(with_param(returning("uvec3"@), None, "uint"@, "x"@), None, "uint"@, "y"@), None, "uint"@, "z"@),
        with_param(with_param(returning("uvec3"@), None, "uvec2"@, "x"@), None, "uint"@, "y"@),
    ]);
    add_function(list, "uvec3", signatures, "Cast to a vec3.", true);
    let signatures = vec![
        taking(signature("uvec4"), None, "uint", "x"),
        taking(taking(taking(taking(signature("uvec4"), None, "uint", "x"), None, "uint", "y"), None, "uint", "z"), None, "uint", "w"),
        taking(taking(signature("uvec4"), None, "uvec3", "x"), None, "uint", "y"),
    ];
    assert(signatures.deep_view() =~= seq![
        with_param(returning("uvec4"@), None, "uint"@, "x"@),
        with_param(with_param(with_param(with_param(returning("uvec4"@), None, "uint"@, "x"@), None, "uint"@, "y"@), None, "uint"@, "z"@), None, "uint"@, "w"@),
        with_param(with_param(returning("uvec4"@), None, "uvec3"@, "x"@), None, "uint"@, "y"@),
    ]);
    add_function(list, "uvec4", signatures, "Cast to a vec4.", true);
    let signatures = vec![
        taking(signature("bvec2"), None, "bool", "x"),
        taking(taking(signature("bvec2"), None, "bool", "x"), None, "bool", "y"),
    ];
    assert(signatures.deep_view() =~= seq![
        with_param(returning("bvec2"@), None, "bool"@, "x"@),
        with_param(with_param(returning("bvec2"@), None, "bool"@, "x"@), None, "bool"@, "y"@),
    ]);
    add_function(list, "bvec2", signatures, "Cast to a bvec2.", true);
    let signatures = vec![
        taking(signature("bvec3"), None, "bool", "x"),
        taking(taking(taking(signature("bvec3"), None, "bool", "x"), None, "bool", "y"), None, "bool", "z"),
        taking(taking(signature("bvec3"), None, "bvec2", "x"), None, "bool", "y"),
    ];
    assert(signatures.deep_view() =~= seq![
        with_param(returning("bvec3"@), None, "bool"@, "x"@),
        with_param(with_param(with_param(returning("bvec3"@), None, "bool"@, "x"@), None, "bool"@, "y"@), None, "bool"@, "z"@),
        with_param(with_param(returning("bvec3"@), None, "bvec2"@, "x"@), None, "bool"@, "y"@),
    ]);
    add_function(list, "bvec3", signatures, "Cast to a vec3.", true);
    let signatures = vec![
        taking(signature("bvec4"), None, "bool", "x"),
        taking(taking(taking(taking(signature("bvec4"), None, "bool", "x"), None, "bool", "y"), None, "bool", "z"), None, "bool", "w"),
        taking(taking(signature("bvec4"), None, "bvec3", "x"), None, "bool", "y"),
    ];
    assert(signatures.deep_view() =~= seq![
        with_param(returning("bvec4"@), None, "bool"@, "x"@),
        with_param(with_param(with_param(with_param(returning("bvec4"@), None, "bool"@, "x"@), None, "bool"@, "y"@), None, "bool"@, "z"@), None, "bool"@, "w"@),
        with_param(with_param(returning("bvec4"@), None, "bvec3"@, "x"@), None, "bool"@, "y"@),
    ]);
    add_function(list, "bvec4", signatures, "Cast to a vec4.", true);
    let signatures = vec![
        taking(taking(signature("mat2"), None, "vec2", "x"), None, "vec2", "y"),
    ];
    assert(signatures.deep_view() =~= seq![
        with_param(with_param(returning("mat2"@), None, "vec2"@, "x"@), None, "vec2"@, "y"@),
    ]);
    add_function(list, "mat2", signatures, "Cast to a mat2.", true);
    let signatures = vec![
        taking(taking(taking(signature("mat3"), None, "vec3", "x"), None, "vec3", "y"), None, "vec3", "z"),
    ];
    assert(signatures.deep_view() =~= seq![
        with_param(with_param(with_param(returning("mat3"@), None, "vec3"@, "x"@), None, "vec3"@, "y"@), None, "vec3"@, "z"@),
    ]);
    add_function(list, "mat3", signatures, "Cast to a mat3.", true);
    let signatures = vec![
        taking(taking(taking(taking(signature("mat4"), None, "vec4", "x"), None, "vec4", "y"), None, "vec4", "z"), None, "vec4", "w"),
    ];
    assert(signatures.deep_view() =~= seq![
        with_param(with_param(with_param(with_param(returning("mat4"@), None, "vec4"@, "x"@), None, "vec4"@, "y"@), None, "vec4"@, "z"@), None, "vec4"@, "w"@),
    ]);
    add_function(list, "mat4", signatures, "Cast to a mat4.", true);
    let signatures = vec![
        taking(signature("vec_type"), None, "vec_type", "degrees"),
    ];
    assert(signatures.deep_view() =~= seq![
        with_param(returning("vec_type"@), None, "vec_type"@, "degrees"@),
    ]);
    add_function(list, "radians", signatures, "Convert degrees to radians.", false);
    assert(list.deep_view() =~= old(list).deep_view() + builtin_functions_2());
}

/// Part 3 of the built-in functions.
pub open spec fn builtin_functions_3() -> SpecTable<SpecFunctionInfo> {
    seq![
        builtin_function(
            "degrees"@,
            seq![
                with_param(returning("vec_type"@), None, "vec_type"@, "radians"@),
            ],
            "Convert radians to degrees."@,
            false,
        ),
        builtin_function(
            "sin"@,
            seq![
                with_param(returning("vec_type"@), None, "vec_type"@, "x"@),
            ],
            "Sine."@,
            false,
        ),
        builtin_function(
            "cos"@,
            seq![
                with_param(returning("vec_type"@), None, "vec_type"@, "x"@),
            ],
            "Cosine."@,
            false,
        ),
        builtin_function(
            "tan"@,
            seq![
                with_param(returning("vec_type"@), None, "vec_type"@, "x"@),
            ],
            "Tangent."@,
            false,
        ),
        builtin_function(
            "asin"@,
            seq![
                with_param(returning("vec_type"@), None, "vec_type"@, "x"@),
            ],
            "Arcsine."@,
            false,
        ),
        builtin_function(
            "acos"@,
            seq![
                with_param(returning("vec_type"@), None, "vec_type"@, "x"@),
            ],
            "Arccosine."@,
            false,
        ),
        builtin_function(
            "atan"@,
            seq![
                with_param(returning("vec_type"@), None, "vec_type"@, "y_over_x"@),
                with_param(with_param(returning("vec_type"@), None, "vec_type"@, "y"@), None, "vec_type"@, "x"@),
            ],
            "Arctangent."@,
            false,
        ),
        builtin_function(
            "sinh"@,
            seq![
                with_param(returning("vec_type"@), None, "vec_type"@, "x"@),
            ],
            "Hyperbolic sine."@,
            false,
        ),
        builtin_function(
            "cosh"@,
            seq![
                with_param(returning("vec_type"@), None, "vec_type"@, "x"@),
            ],
            "Hyperbolic cosine."@,
            false,
        ),
        builtin_function(
            "tanh"@,
            seq![
                with_param(returning("vec_type"@), None, "vec_type"@, "x"@),
            ],
            "Hyperbolic tangent."@,
            false,
        ),
    ]
}

fn add_functions_3(list: &mut Vec<(String, FunctionInfo)>)
    ensures
        final(list).deep_view() == old(list).deep_view() + builtin_functions_3(),
        final(list).len() == old(list).len() + 10,
{
    let signatures = vec![
        taking(signature("vec_type"), None, "vec_type", "radians"),
    ];
    assert(signatures.deep_view() =~= seq![
        with_param(returning("vec_type"@), None, "vec_type"@, "radians"@),
    ]);
    add_function(list, "degrees", signatures, "Convert radians to degrees.", false);
    let signatures = vec![
        taking(signature("vec_type"), None, "vec_type", "x"),
    ];
    assert(signatures.deep_view() =~= seq![
        with_param(returning("vec_type"@), None, "vec_type"@, "x"@),
    ]);
    add_function(list, "sin", signatures, "Sine.", false);
    let signatures = vec![
        taking(signature("vec_type"), None, "vec_type", "x"),
    ];
    assert(signatures.deep_view() =~= seq![
        with_param(returning("vec_type"@), None, "vec_type"@, "x"@),
    ]);
    add_function(list, "cos", signatures, "Cosine.", false);
    let signatures = vec![
        taking(signature("vec_type"), None, "vec_type", "x"),
    ];
    assert(signatures.deep_view() =~= seq![
        with_param(returning("vec_type"@), None, "vec_type"@, "x"@),
    ]);
    add_function(list, "tan", signatures, "Tangent.", false);
    let signatures = vec![
        taking(signature("vec_type"), None, "vec_type", "x"),
    ];
    assert(signatures.deep_view() =~= seq![
        with_param(returning("vec_type"@), None, "vec_type"@, "x"@),
    ]);
    add_function(list, "asin", signatures, "Arcsine.", false);
    let signatures = vec![
        taking(signature("vec_type"), None, "vec_type", "x"),
    ];
    assert(signatures.deep_view() =~= seq![
        with_param(returning("vec_type"@), None, "vec_type"@, "x"@),
    ]);
    add_function(list, "acos", signatures, "Arccosine.", false);
    let signatures = vec![
        taking(signature("vec_type"), None, "vec_type", "y_over_x"),
        taking(taking(signature("vec_type"), None, "vec_type", "y"), None, "vec_type", "x"),
    ];
    assert(signatures.deep_view() =~= seq![
        with_param(returning("vec_type"@), None, "vec_type"@, "y_over_x"@),
        with_param(with_param(returning("vec_type"@), None, "vec_type"@, "y"@), None, "vec_type"@, "x"@),
    ]);
    add_function(list, "atan", signatures, "Arctangent.", false);
    let signatures = vec![
        taking(signature("vec_type"), None, "vec_type", "x"),
    ];
    assert(signatures.deep_view() =~= seq![
        with_param(returning("vec_type"@), None, "vec_type"@, "x"@),
    ]);
    add_function(list, "sinh", signatures, "Hyperbolic sine.", false);
    let signatures = vec![
        taking(signature("vec_type"), None, "vec_type", "x"),
    ];
    assert(signatures.deep_view() =~= seq![
        with_param(returning("vec_type"@), None, "vec_type"@, "x"@),
    ]);
    add_function(list, "cosh", signatures, "Hyperbolic cosine.", false);
    let signatures = vec![
        taking(signature("vec_type"), None, "vec_type", "x"),
    ];
    assert(signatures.deep_view() =~= seq![
        with_param(returning("vec_type"@), None, "vec_type"@, "x"@),
    ]);
    add_function(list, "tanh", signatures, "Hyperbolic tangent.", false);
    assert(list.deep_view() =~= old(list).deep_view() + builtin_functions_3());
}

/// Part 4 of the built-in functions.
pub open spec fn builtin_functions_4() -> SpecTable<SpecFunctionInfo> {
    seq![
        builtin_function(
            "asinh"@,
            seq![
                with_param(returning("vec_type"@), None, "vec_type"@, "x"@),
            ],
            "Inverse hyperbolic sine."@,
            false,
        ),
        builtin_function(
            "acosh"@,
            seq![
                with_param(returning("vec_type"@), None, "vec_type"@, "x"@),
            ],
            "Inverse hyperbolic cosine."@,
            false,
        ),
        builtin_function(
            "atanh"@,
            seq![
                with_param(returning("vec_type"@), None, "vec_type"@, "x"@),
            ],
            "Inverse hyperbolic tangent."@,
            false,
        ),
        builtin_function(
            "pow"@,
            seq![
                with_param(with_param(returning("vec_type"@), None, "vec_type"@, "x"@), None, "vec_type"@, "y"@),
            ],
            "Power (undefined if x < 0 or if x == 0 and y <= 0)."@,
            false,
        ),
        builtin_function(
            "exp"@,
            seq![
                with_param(returning("vec_type"@), None, "vec_type"@, "x"@),
            ],
            "Base-e exponential."@,
            false,
        ),
        builtin_function(
            "exp2"@,
            seq![
                with_param(returning("vec_type"@), None, "vec_type"@, "x"@),
            ],
            "Base-2 exponential."@,
            false,
        ),
        builtin_function(
            "log"@,
            seq![
                with_param(returning("vec_type"@), None, "vec_type"@, "x"@),
            ],
            "Natural logarithm."@,
            false,
        ),
        builtin_function(
            "log2"@,
            seq![
                with_param(returning("vec_type"@), None, "vec_type"@, "x"@),
            ],
            "Base-2 logarithm."@,
            false,
        ),
        builtin_function(
            "sqrt"@,
            seq![
                with_param(returning("vec_type"@), None, "vec_type"@, "x"@),
            ],
            "Square root."@,
            false,
        ),
        builtin_function(
            "inversesqrt"@,
            seq![
                with_param(returning("vec_type"@), None, "vec_type"@, "x"@),
            ],
            "Inverse square root."@,
            false,
        ),
    ]
}

fn add_functions_4(list: &mut Vec<(String, FunctionInfo)>)
    ensures
        final(list).deep_view() == old(list).deep_view() + builtin_functions_4(),
        final(list).len() == old(list).len() + 10,
{
    let signatures = vec![
        taking(signature("vec_type"), None, "vec_type", "x"),
    ];
    assert(signatures.deep_view() =~= seq![
        with_param(returning("vec_type"@), None, "vec_type"@, "x"@),
    ]);
    add_function(list, "asinh", signatures, "Inverse hyperbolic sine.", false);
    let signatures = vec![
        taking(signature("vec_type"), None, "vec_type", "x"),
    ];
    assert(signatures.deep_view() =~= seq![
        with_param(returning("vec_type"@), None, "vec_type"@, "x"@),
    ]);
    add_function(list, "acosh", signatures, "Inverse hyperbolic cosine.", false);
    let signatures = vec![
        taking(signature("vec_type"), None, "vec_type", "x"),
    ];
    assert(signatures.deep_view() =~= seq![
        with_param(returning("vec_type"@), None, "vec_type"@, "x"@),
    ]);
    add_function(list, "atanh", signatures, "Inverse hyperbolic tangent.", false);
    let signatures = vec![
        taking(taking(signature("vec_type"), None, "vec_type", "x"), None, "vec_type", "y"),
    ];
    assert(signatures.deep_view() =~= seq![
        with_param(with_param(returning("vec_type"@), None, "vec_type"@, "x"@), None, "vec_type"@, "y"@),
    ]);
    add_function(list, "pow", signatures, "Power (undefined if x < 0 or if x == 0 and y <= 0).", false);
    let signatures = vec![
        taking(signature("vec_type"), None, "vec_type", "x"),
    ];
    assert(signatures.deep_view() =~= seq![
        with_param(returning("vec_type"@), None, "vec_type"@, "x"@),
    ]);
    add_function(list, "exp", signatures, "Base-e exponential.", false);
    let signatures = vec![
        taking(signature("vec_type"), None, "vec_type", "x"),
    ];
    assert(signatures.deep_view() =~= seq![
        with_param(returning("vec_type"@), None, "vec_type"@, "x"@),
    ]);
    add_function(list, "exp2", signatures, "Base-2 exponential.", false);
    let signatures = vec![
        taking(signature("vec_type"), None, "vec_type", "x"),
    ];
    assert(signatures.deep_view() =~= seq![
        with_param(returning("vec_type"@), None, "vec_type"@, "x"@),
    ]);
    add_function(list, "log", signatures, "Natural logarithm.", false);
    let signatures = vec![
        taking(signature("vec_type"), None, "vec_type", "x"),
    ];
    assert(signatures.deep_view() =~= seq![
        with_param(returning("vec_type"@), None, "vec_type"@, "x"@),
    ]);
    add_function(list, "log2", signatures, "Base-2 logarithm.", false);
    let signatures = vec![
        taking(signature("vec_type"), None, "vec_type", "x"),
    ];
    assert(signatures.deep_view() =~= seq![
        with_param(returning("vec_type"@), None, "vec_type"@, "x"@),
    ]);
    add_function(list, "sqrt", signatures, "Square root.", false);
    let signatures = vec![
        taking(signature("vec_type"), None, "vec_type", "x"),
    ];
    assert(signatures.deep_view() =~= seq![
        with_param(returning("vec_type"@), None, "vec_type"@, "x"@),
    ]);
    add_function(list, "inversesqrt", signatures, "Inverse square root.", false);
    assert(list.deep_view() =~= old(list).deep_view() + builtin_functions_4());
}

/// Part 5 of the built-in functions.
pub open spec fn builtin_functions_5() -> SpecTable<SpecFunctionInfo> {
    seq![
        builtin_function(
            "abs"@,
            seq![
                with_param(returning("vec_type"@), None, "vec_type"@, "x"@),
                with_param(returning("ivec_type"@), None, "ivec_type"@, "x"@),
            ],
            "Absolute value (returns positive value if negative)."@,
            false,
        ),
        builtin_function(
            "sign"@,
            seq![
                with_param(returning("vec_type"@), None, "vec_type"@, "x"@),
                with_param(returning("ivec_type"@), None, "ivec_type"@, "x"@),
            ],
            "Sign (returns 1.0 if positive, -1.0 if negative, 0.0 if zero)."@,
            false,
        ),
        builtin_function(
            "floor"@,
            seq![
                with_param(returning("vec_type"@), None, "vec_type"@, "x"@),
            ],
            "Round to the integer below."@,
            false,
        ),
        builtin_function(
            "round"@,
            seq![
                with_param(returning("vec_type"@), None, "vec_type"@, "x"@),
            ],
            "Round to the nearest integer."@,
            false,
        ),
        builtin_function(
            "roundEven"@,
            seq![
                with_param(returning("vec_type"@), None, "vec_type"@, "x"@),
            ],
            "Round to the nearest even integer."@,
            false,
        ),
        builtin_function(
            "trunc"@,
            seq![
                with_param(returning("vec_type"@), None, "vec_type"@, "x"@),
            ],
            "Truncation."@,
            false,
        ),
        builtin_function(
            "ceil"@,
            seq![
                with_param(returning("vec_type"@), None, "vec_type"@, "x"@),
            ],
            "Round to the integer above."@,
            false,
        ),
        builtin_function(
            "fract"@,
            seq![
                with_param(returning("vec_type"@), None, "vec_type"@, "x"@),
            ],
            "Fractional (returns x - floor(x))."@,
            false,
        ),
        builtin_function(
            "mod"@,
            seq![
                with_param(with_param(returning("vec_type"@), None, "vec_type"@, "x"@), None, "vec_type"@, "y"@),
                with_param(with_param(returning("vec_type"@), None, "vec_type"@, "x"@), None, "float"@, "y"@),
            ],
            "Modulo (division remainder)"@,
            false,
        ),
        builtin_function(
            "modf"@,
            seq![
                with_param(with_param(returning("vec_type"@), None, "vec_type"@, "x"@), Some(FunctionParamQualifier::Out), "float"@, "y"@),
            ],
            "Fractional of x, with i as integer part."@,
            false,
        ),
    ]
}

fn add_functions_5(list: &mut Vec<(String, FunctionInfo)>)
    ensures
        final(list).deep_view() == old(list).deep_view() + builtin_functions_5(),
        final(list).len() == old(list).len() + 10,
{
    let signatures = vec![
        taking(signature("vec_type"), None, "vec_type", "x"),
        taking(signature("ivec_type"), None, "ivec_type", "x"),
    ];
    assert(signatures.deep_view() =~= seq![
        with_param(returning("vec_type"@), None, "vec_type"@, "x"@),
        with_param(returning("ivec_type"@), None, "ivec_type"@, "x"@),
    ]);
    add_function(list, "abs", signatures, "Absolute value (returns positive value if negative).", false);
    let signatures = vec![
        taking(signature("vec_type"), None, "vec_type", "x"),
        taking(signature("ivec_type"), None, "ivec_type", "x"),
    ];
    assert(signatures.deep_view() =~= seq![
        with_param(returning("vec_type"@), None, "vec_type"@, "x"@),
        with_param(returning("ivec_type"@), None, "ivec_type"@, "x"@),
    ]);
    add_function(list, "sign", signatures, "Sign (returns 1.0 if positive, -1.0 if negative, 0.0 if zero).", false);
    let signatures = vec![
        taking(signature("vec_type"), None, "vec_type", "x"),
    ];
    assert(signatures.deep_view() =~= seq![
        with_param(returning("vec_type"@), None, "vec_type"@, "x"@),
    ]);
    add_function(list, "floor", signatures, "Round to the integer below.", false);
    let signatures = vec![
        taking(signature("vec_type"), None, "vec_type", "x"),
    ];
    assert(signatures.deep_view() =~= seq![
        with_param(returning("vec_type"@), None, "vec_type"@, "x"@),
    ]);
    add_function(list, "round", signatures, "Round to the nearest integer.", false);
    let signatures = vec![
        taking(signature("vec_type"), None, "vec_type", "x"),
    ];
    assert(signatures.deep_view() =~= seq![
        with_param(returning("vec_type"@), None, "vec_type"@, "x"@),
    ]);
    add_function(list, "roundEven", signatures, "Round to the nearest even integer.", false);
    let signatures = vec![
        taking(signature("vec_type"), None, "vec_type", "x"),
    ];
    assert(signatures.deep_view() =~= seq![
        with_param(returning("vec_type"@), None, "vec_type"@, "x"@),
    ]);
    add_function(list, "trunc", signatures, "Truncation.", false);
    let signatures = vec![
        taking(signature("vec_type"), None, "vec_type", "x"),
    ];
    assert(signatures.deep_view() =~= seq![
        with_param(returning("vec_type"@), None, "vec_type"@, "x"@),
    ]);
    add_function(list, "ceil", signatures, "Round to the integer above.", false);
    let signatures = vec![
        taking(signature("vec_type"), None, "vec_type", "x"),
    ];
    assert(signatures.deep_view() =~= seq![
        with_param(returning("vec_type"@), None, "vec_type"@, "x"@),
    ]);
    add_function(list, "fract", signatures, "Fractional (returns x - floor(x)).", false);
    let signatures = vec![
        taking(taking(signature("vec_type"), None, "vec_type", "x"), None, "vec_type", "y"),
        taking(taking(signature("vec_type"), None, "vec_type", "x"), None, "float", "y"),
    ];
    assert(signatures.deep_view() =~= seq![
        with_param(with_param(returning("vec_type"@), None, "vec_type"@, "x"@), None, "vec_type"@, "y"@),
        with_param(with_param(returning("vec_type"@), None, "vec_type"@, "x"@), None, "float"@, "y"@),
    ]);
    add_function(list, "mod", signatures, "Modulo (division remainder)", false);
    let signatures = vec![
        taking(taking(signature("vec_type"), None, "vec_type", "x"), Some(FunctionParamQualifier::Out), "float", "y"),
    ];
    assert(signatures.deep_view() =~= seq![
        with_param(with_param(returning("vec_type"@), None, "vec_type"@, "x"@), Some(FunctionParamQualifier::Out), "float"@, "y"@),
    ]);
    add_function(list, "modf", signatures, "Fractional of x, with i as integer part.", false);
    assert(list.deep_view() =~= old(list).deep_view() + builtin_functions_5());
}

/// Part 6 of the built-in functions.
pub open spec fn builtin_functions_6() -> SpecTable<SpecFunctionInfo> {
    seq![
        builtin_function(
            "min"@,
            seq![
                with_param(with_param(returning("vec_type"@), None, "vec_type"@, "a"@), None, "vec_type"@, "b"@),
            ],
            "Lowest value between a and b."@,
            false,
        ),
        builtin_function(
            "max"@,
            seq![
                with_param(with_param(returning("vec_type"@), None, "vec_type"@, "a"@), None, "vec_type"@, "b"@),
            ],
            "Highest value between a and b."@,
            false,
        ),
        builtin_function(
            "clamp"@,
            seq![
                with_param(with_param(with_param(returning("vec_type"@), None, "vec_type"@, "x"@), None, "vec_type"@, "min"@), None, "vec_type"@, "max"@),
            ],
            "Clamp x between min and max (inclusive)."@,
            false,
        ),
        builtin_function(
            "mix"@,
            seq![
                with_param(with_param(with_param(returning("float"@), None, "float"@, "a"@), None, "float"@, "b"@), None, "float"@, "c"@),
                with_param(with_param(with_param(returning("vec_type"@), None, "vec_type"@, "a"@), None, "vec_type"@, "b"@), None, "float"@, "c"@),
                with_param(with_param(with_param(returning("vec_type"@), None, "vec_type"@, "a"@), None, "vec_type"@, "b"@), None, "bvec_type"@, "c"@),
            ],
            "Linear interpolate between a and b by c."@,
            false,
        ),
        builtin_function(
            "fma"@,
            seq![
                with_param(with_param(with_param(returning("vec_type"@), None, "vec_type"@, "a"@), None, "vec_type"@, "b"@), None, "vec_type"@, "c"@),
            ],
            "Performs a fused multiply-add operation: (a * b + c) (faster than doing
            it manually)."@,
            false,
        ),
        builtin_function(
            "isnan"@,
            seq![
                with_param(returning("bvec_type"@), None, "vec_type"@, "x"@),
            ],
            "Returns true if scalar or vector component is NaN."@,
            false,
        ),
        builtin_function(
            "isinf"@,
            seq![
                with_param(returning("bvec_type"@), None, "vec_type"@, "x"@),
            ],
            "Returns true if scalar or vector component is INF."@,
            false,
        ),
        builtin_function(
            "floatBitsToInt"@,
            seq![
                with_param(returning("ivec_type"@), None, "vec_type"@, "x"@),
            ],
            "Float->Int bit copying, no conversion."@,
            false,
        ),
        builtin_function(
            "floatBitsToUint"@,
            seq![
                with_param(returning("uvec_type"@), None, "vec_type"@, "x"@),
            ],
            "Float->UInt bit copying, no conversion."@,
            false,
        ),
        builtin_function(
            "intBitsToFloat"@,
            seq![
                with_param(returning("vec_type"@), None, "ivec_type"@, "x"@),
            ],
            "Int->Float bit copying, no conversion."@,
            false,
        ),
    ]
}

fn add_functions_6(list: &mut Vec<(String, FunctionInfo)>)
    ensures
        final(list).deep_view() == old(list).deep_view() + builtin_functions_6(),
        final(list).len() == old(list).len() + 10,
{
    let signatures = vec![
        taking(taking(signature("vec_type"), None, "vec_type", "a"), None, "vec_type", "b"),
    ];
    assert(signatures.deep_view() =~= seq![
        with_param(with_param(returning("vec_type"@), None, "vec_type"@, "a"@), None, "vec_type"@, "b"@),
    ]);
    add_function(list, "min", signatures, "Lowest value between a and b.", false);
    let signatures = vec![
        taking(taking(signature("vec_type"), None, "vec_type", "a"), None, "vec_type", "b"),
    ];
    assert(signatures.deep_view() =~= seq![
        with_param(with_param(returning("vec_type"@), None, "vec_type"@, "a"@), None, "vec_type"@, "b"@),
    ]);
    add_function(list, "max", signatures, "Highest value between a and b.", false);
    let signatures = vec![
        taking(taking(taking(signature("vec_type"), None, "vec_type", "x"), None, "vec_type", "min"), None, "vec_type", "max"),
    ];
    assert(signatures.deep_view() =~= seq![
        with_param(with_param(with_param(returning("vec_type"@), None, "vec_type"@, "x"@), None, "vec_type"@, "min"@), None, "vec_type"@, "max"@),
    ]);
    add_function(list, "clamp", signatures, "Clamp x between min and max (inclusive).", false);
    let signatures = vec![
        taking(taking(taking(signature("float"), None, "float", "a"), None, "float", "b"), None, "float", "c"),
        taking(taking(taking(signature("vec_type"), None, "vec_type", "a"), None, "vec_type", "b"), None, "float", "c"),
        taking(taking(taking(signature("vec_type"), None, "vec_type", "a"), None, "vec_type", "b"), None, "bvec_type", "c"),
    ];
    assert(signatures.deep_view() =~= seq![
        with_param(with_param(with_param(returning("float"@), None, "float"@, "a"@), None, "float"@, "b"@), None, "float"@, "c"@),
        with_param(with_param(with_param(returning("vec_type"@), None, "vec_type"@, "a"@), None, "vec_type"@, "b"@), None, "float"@, "c"@),
        with_param(with_param(with_param(returning("vec_type"@), None, "vec_type"@, "a"@), None, "vec_type"@, "b"@), None, "bvec_type"@, "c"@),
    ]);
    add_function(list, "mix", signatures, "Linear interpolate between a and b by c.", false);
    let signatures = vec![
        taking(taking(taking(signature("vec_type"), None, "vec_type", "a"), None, "vec_type", "b"), None, "vec_type", "c"),
    ];
    assert(signatures.deep_view() =~= seq![
        with_param(with_param(with_param(returning("vec_type"@), None, "vec_type"@, "a"@), None, "vec_type"@, "b"@), None, "vec_type"@, "c"@),
    ]);
    add_function(list, "fma", signatures, "Performs a fused multiply-add operation: (a * b + c) (faster than doing
            it manually).", false);
    let signatures = vec![
        taking(signature("bvec_type"), None, "vec_type", "x"),
    ];
    assert(signatures.deep_view() =~= seq![
        with_param(returning("bvec_type"@), None, "vec_type"@, "x"@),
    ]);
    add_function(list, "isnan", signatures, "Returns true if scalar or vector component is NaN.", false);
    let signatures = vec![
        taking(signature("bvec_type"), None, "vec_type", "x"),
    ];
    assert(signatures.deep_view() =~= seq![
        with_param(returning("bvec_type"@), None, "vec_type"@, "x"@),
    ]);
    add_function(list, "isinf", signatures, "Returns true if scalar or vector component is INF.", false);
    let signatures = vec![
        taking(signature("ivec_type"), None, "vec_type", "x"),
    ];
    assert(signatures.deep_view() =~= seq![
        with_param(returning("ivec_type"@), None, "vec_type"@, "x"@),
    ]);
    add_function(list, "floatBitsToInt", signatures, "Float->Int bit copying, no conversion.", false);
    let signatures = vec![
        taking(signature("uvec_type"), None, "vec_type", "x"),
    ];
    assert(signatures.deep_view() =~= seq![
        with_param(returning("uvec_type"@), None, "vec_type"@, "x"@),
    ]);
    add_function(list, "floatBitsToUint", signatures, "Float->UInt bit copying, no conversion.", false);
    let signatures = vec![
        taking(signature("vec_type"), None, "ivec_type", "x"),
    ];
    assert(signatures.deep_view() =~= seq![
        with_param(returning("vec_type"@), None, "ivec_type"@, "x"@),
    ]);
    add_function(list, "intBitsToFloat", signatures, "Int->Float bit copying, no conversion.", false);
    assert(list.deep_view() =~= old(list).deep_view() + builtin_functions_6());
}

/// Part 7 of the built-in functions.
pub open spec fn builtin_functions_7() -> SpecTable<SpecFunctionInfo> {
    seq![
        builtin_function(
            "uintBitsToFloat"@,
            seq![
                with_param(returning("vec_type"@), None, "uvec_type"@, "x"@),
            ],
            "UInt->Float bit copying, no conversion."@,
            false,
        ),
        builtin_function(
            "length"@,
            seq![
                with_param(returning("float"@), None, "vec_type"@, "x"@),
            ],
            "Vector length."@,
            false,
        ),
        builtin_function(
            "distance"@,
            seq![
                with_param(with_param(returning("float"@), None, "vec_type"@, "a"@), None, "vec_type"@, "b"@),
            ],
            "Distance between vectors i.e length(a - b)."@,
            false,
        ),
        builtin_function(
            "dot"@,
            seq![
                with_param(with_param(returning("float"@), None, "vec_type"@, "a"@), None, "vec_type"@, "b"@),
            ],
            "Dot product."@,
            false,
        ),
        builtin_function(
            "cross"@,
            seq![
                with_param(with_param(returning("vec3"@), None, "vec3"@, "a"@), None, "vec3"@, "b"@),
            ],
            "Cross product."@,
            false,
        ),
        builtin_function(
            "normalize"@,
            seq![
                with_param(returning("vec_type"@), None, "vec_type"@, "x"@),
            ],
            "Normalize to unit length."@,
            false,
        ),
        builtin_function(
            "reflect"@,
            seq![
                with_param(with_param(returning("vec3"@), None, "vec3"@, "I"@), None, "vec3"@, "N"@),
            ],
            "Reflect."@,
            false,
        ),
        builtin_function(
            "refract"@,
            seq![
                with_param(with_param(with_param(returning("vec3"@), None, "vec3"@, "I"@), None, "vec3"@, "N"@), None, "float"@, "eta"@),
            ],
            "Refract."@,
            false,
        ),
        builtin_function(
            "faceforward"@,
            seq![
                with_param(with_param(with_param(returning("vec_type"@), None, "vec_type"@, "N"@), None, "vec_type"@, "I"@), None, "vec_type"@, "Nref"@),
            ],
            "If dot(Nref, I) < 0, return N, otherwise -N."@,
            false,
        ),
        builtin_function(
            "matrixCompMult"@,
            seq![
                with_param(with_param(returning("mat_type"@), None, "mat_type"@, "x"@), None, "mat_type"@, "y"@),
            ],
            "Matrix component multiplication."@,
            false,
        ),
    ]
}

fn add_functions_7(list: &mut Vec<(String, FunctionInfo)>)
    ensures
        final(list).deep_view() == old(list).deep_view() + builtin_functions_7(),
        final(list).len() == old(list).len() + 10,
{
    let signatures = vec![
        taking(signature("vec_type"), None, "uvec_type", "x"),
    ];
    assert(signatures.deep_view() =~= seq![
        with_param(returning("vec_type"@), None, "uvec_type"@, "x"@),
    ]);
    add_function(list, "uintBitsToFloat", signatures, "UInt->Float bit copying, no conversion.", false);
    let signatures = vec![
        taking(signature("float"), None, "vec_type", "x"),
    ];
    assert(signatures.deep_view() =~= seq![
        with_param(returning("float"@), None, "vec_type"@, "x"@),
    ]);
    add_function(list, "length", signatures, "Vector length.", false);
    let signatures = vec![
        taking(taking(signature("float"), None, "vec_type", "a"), None, "vec_type", "b"),
    ];
    assert(signatures.deep_view() =~= seq![
        with_param(with_param(returning("float"@), None, "vec_type"@, "a"@), None, "vec_type"@, "b"@),
    ]);
    add_function(list, "distance", signatures, "Distance between vectors i.e length(a - b).", false);
    let signatures = vec![
        taking(taking(signature("float"), None, "vec_type", "a"), None, "vec_type", "b"),
    ];
    assert(signatures.deep_view() =~= seq![
        with_param(with_param(returning("float"@), None, "vec_type"@, "a"@), None, "vec_type"@, "b"@),
    ]);
    add_function(list, "dot", signatures, "Dot product.", false);
    let signatures = vec![
        taking(taking(signature("vec3"), None, "vec3", "a"), None, "vec3", "b"),
    ];
    assert(signatures.deep_view() =~= seq![
        with_param(with_param(returning("vec3"@), None, "vec3"@, "a"@), None, "vec3"@, "b"@),
    ]);
    add_function(list, "cross", signatures, "Cross product.", false);
    let signatures = vec![
        taking(signature("vec_type"), None, "vec_type", "x"),
    ];
    assert(signatures.deep_view() =~= seq![
        with_param(returning("vec_type"@), None, "vec_type"@, "x"@),
    ]);
    add_function(list, "normalize", signatures, "Normalize to unit length.", false);
    let signatures = vec![
        taking(taking(signature("vec3"), None, "vec3", "I"), None, "vec3", "N"),
    ];
    assert(signatures.deep_view() =~= seq![
        with_param(with_param(returning("vec3"@), None, "vec3"@, "I"@), None, "vec3"@, "N"@),
    ]);
    add_function(list, "reflect", signatures, "Reflect.", false);
    let signatures = vec![
        taking(taking(taking(signature("vec3"), None, "vec3", "I"), None, "vec3", "N"), None, "float", "eta"),
    ];
    assert(signatures.deep_view() =~= seq![
        with_param(with_param(with_param(returning("vec3"@), None, "vec3"@, "I"@), None, "vec3"@, "N"@), None, "float"@, "eta"@),
    ]);
    add_function(list, "refract", signatures, "Refract.", false);
    let signatures = vec![
        taking(taking(taking(signature("vec_type"), None, "vec_type", "N"), None, "vec_type", "I"), None, "vec_type", "Nref"),
    ];
    assert(signatures.deep_view() =~= seq![
        with_param(with_param(with_param(returning("vec_type"@), None, "vec_type"@, "N"@), None, "vec_type"@, "I"@), None, "vec_type"@, "Nref"@),
    ]);
    add_function(list, "faceforward", signatures, "If dot(Nref, I) < 0, return N, otherwise -N.", false);
    let signatures = vec![
        taking(taking(signature("mat_type"), None, "mat_type", "x"), None, "mat_type", "y"),
    ];
    assert(signatures.deep_view() =~= seq![
        with_param(with_param(returning("mat_type"@), None, "mat_type"@, "x"@), None, "mat_type"@, "y"@),
    ]);
    add_function(list, "matrixCompMult", signatures, "Matrix component multiplication.", false);
    assert(list.deep_view() =~= old(list).deep_view() + builtin_functions_7());
}

/// Part 8 of the built-in functions.
pub open spec fn builtin_functions_8() -> SpecTable<SpecFunctionInfo> {
    seq![
        builtin_function(
            "outerProduct"@,
            seq![
                with_param(with_param(returning("mat_type"@), None, "vec_type"@, "column"@), None, "vec_type"@, "row"@),
            ],
            "Matrix outer product."@,
            false,
        ),
        builtin_function(
            "transpose"@,
            seq![
                with_param(returning("mat_type"@), None, "mat_type"@, "m"@),
            ],
            "Transpose matrix."@,
            false,
        ),
        builtin_function(
            "determinant"@,
            seq![
                with_param(returning("float"@), None, "mat_type"@, "m"@),
            ],
            "Matrix determinant."@,
            false,
        ),
        builtin_function(
            "inverse"@,
            seq![
                with_param(returning("mat_type"@), None, "mat_type"@, "m"@),
            ],
            "Inverse matrix."@,
            false,
        ),
        builtin_function(
            "lessThan"@,
            seq![
                with_param(with_param(returning("bvec_type"@), None, "vec_type"@, "x"@), None, "vec_type"@, "y"@),
            ],
            "Bool vector comparison on < int/uint/float vectors."@,
            false,
        ),
        builtin_function(
            "greaterThan"@,
            seq![
                with_param(with_param(returning("bvec_type"@), None, "vec_type"@, "x"@), None, "vec_type"@, "y"@),
            ],
            "Bool vector comparison on > int/uint/float vectors."@,
            false,
        ),
        builtin_function(
            "lessThanEqual"@,
            seq![
                with_param(with_param(returning("bvec_type"@), None, "vec_type"@, "x"@), None, "vec_type"@, "y"@),
            ],
            "Bool vector comparison on <= int/uint/float vectors."@,
            false,
        ),
        builtin_function(
            "greaterThanEqual"@,
            seq![
                with_param(with_param(returning("bvec_type"@), None, "vec_type"@, "x"@), None, "vec_type"@, "y"@),
            ],
            "Bool vector comparison on >= int/uint/float vectors."@,
            false,
        ),
        builtin_function(
            "equal"@,
            seq![
                with_param(with_param(returning("bvec_type"@), None, "vec_type"@, "x"@), None, "vec_type"@, "y"@),
            ],
            "Bool vector comparison on == int/uint/float vectors."@,
            false,
        ),
        builtin_function(
            "notEqual"@,
            seq![
                with_param(with_param(returning("bvec_type"@), None, "vec_type"@, "x"@), None, "vec_type"@, "y"@),
            ],
            "Bool vector comparison on != int/uint/float vectors."@,
            false,
        ),
    ]
}

fn add_functions_8(list: &mut Vec<(String, FunctionInfo)>)
    ensures
        final(list).deep_view() == old(list).deep_view() + builtin_functions_8(),
        final(list).len() == old(list).len() + 10,
{
    let signatures = vec![
        taking(taking(signature("mat_type"), None, "vec_type", "column"), None, "vec_type", "row"),
    ];
    assert(signatures.deep_view() =~= seq![
        with_param(with_param(returning("mat_type"@), None, "vec_type"@, "column"@), None, "vec_type"@, "row"@),
    ]);
    add_function(list, "outerProduct", signatures, "Matrix outer product.", false);
    let signatures = vec![
        taking(signature("mat_type"), None, "mat_type", "m"),
    ];
    assert(signatures.deep_view() =~= seq![
        with_param(returning("mat_type"@), None, "mat_type"@, "m"@),
    ]);
    add_function(list, "transpose", signatures, "Transpose matrix.", false);
    let signatures = vec![
        taking(signature("float"), None, "mat_type", "m"),
    ];
    assert(signatures.deep_view() =~= seq![
        with_param(returning("float"@), None, "mat_type"@, "m"@),
    ]);
    add_function(list, "determinant", signatures, "Matrix determinant.", false);
    let signatures = vec![
        taking(signature("mat_type"), None, "mat_type", "m"),
    ];
    assert(signatures.deep_view() =~= seq![
        with_param(returning("mat_type"@), None, "mat_type"@, "m"@),
    ]);
    add_function(list, "inverse", signatures, "Inverse matrix.", false);
    let signatures = vec![
        taking(taking(signature("bvec_type"), None, "vec_type", "x"), None, "vec_type", "y"),
    ];
    assert(signatures.deep_view() =~= seq![
        with_param(with_param(returning("bvec_type"@), None, "vec_type"@, "x"@), None, "vec_type"@, "y"@),
    ]);
    add_function(list, "lessThan", signatures, "Bool vector comparison on < int/uint/float vectors.", false);
    let signatures = vec![
        taking(taking(signature("bvec_type"), None, "vec_type", "x"), None, "vec_type", "y"),
    ];
    assert(signatures.deep_view() =~= seq![
        with_param(with_param(returning("bvec_type"@), None, "vec_type"@, "x"@), None, "vec_type"@, "y"@),
    ]);
    add_function(list, "greaterThan", signatures, "Bool vector comparison on > int/uint/float vectors.", false);
    let signatures = vec![
        taking(taking(signature("bvec_type"), None, "vec_type", "x"), None, "vec_type", "y"),
    ];
    assert(signatures.deep_view() =~= seq![
        with_param(with_param(returning("bvec_type"@), None, "vec_type"@, "x"@), None, "vec_type"@, "y"@),
    ]);
    add_function(list, "lessThanEqual", signatures, "Bool vector comparison on <= int/uint/float vectors.", false);
    let signatures = vec![
        taking(taking(signature("bvec_type"), None, "vec_type", "x"), None, "vec_type", "y"),
    ];
    assert(signatures.deep_view() =~= seq![
        with_param(with_param(returning("bvec_type"@), None, "vec_type"@, "x"@), None, "vec_type"@, "y"@),
    ]);
    add_function(list, "greaterThanEqual", signatures, "Bool vector comparison on >= int/uint/float vectors.", false);
    let signatures = vec![
        taking(taking(signature("bvec_type"), None, "vec_type", "x"), None, "vec_type", "y"),
    ];
    assert(signatures.deep_view() =~= seq![
        with_param(with_param(returning("bvec_type"@), None, "vec_type"@, "x"@), None, "vec_type"@, "y"@),
    ]);
    add_function(list, "equal", signatures, "Bool vector comparison on == int/uint/float vectors.", false);
    let signatures = vec![
        taking(taking(signature("bvec_type"), None, "vec_type", "x"), None, "vec_type", "y"),
    ];
    assert(signatures.deep_view() =~= seq![
        with_param(with_param(returning("bvec_type"@), None, "vec_type"@, "x"@), None, "vec_type"@, "y"@),
    ]);
    add_function(list, "notEqual", signatures, "Bool vector comparison on != int/uint/float vectors.", false);
    assert(list.deep_view() =~= old(list).deep_view() + builtin_functions_8());
}

/// Part 9 of the built-in functions.
pub open spec fn builtin_functions_9() -> SpecTable<SpecFunctionInfo> {
    seq![
        builtin_function(
            "any"@,
            seq![
                with_param(returning("bool"@), None, "bvec_type"@, "x"@),
            ],
            "true if any component is true, false otherwise."@,
            false,
        ),
        builtin_function(
            "all"@,
            seq![
                with_param(returning("bool"@), None, "bvec_type"@, "x"@),
            ],
            "true if all components are true, false otherwise."@,
            false,
        ),
        builtin_function(
            "not"@,
            seq![
                with_param(returning("bvec_type"@), None, "bvec_type"@, "x"@),
            ],
            "Invert boolean vector."@,
            false,
        ),
        builtin_function(
            "textureSize"@,
            seq![
                with_param(with_param(returning("ivec2"@), None, "gsampler2D"@, "s"@), None, "int"@, "lod"@),
                with_param(with_param(returning("ivec2"@), None, "gsampler2DArray"@, "s"@), None, "int"@, "lod"@),
                with_param(with_param(returning("ivec3"@), None, "gsampler3D"@, "s"@), None, "int"@, "lod"@),
                with_param(with_param(returning("ivec2"@), None, "samplerCube"@, "s"@), None, "int"@, "lod"@),
                with_param(with_param(returning("ivec2"@), None, "samplerCubeArray"@, "s"@), None, "int"@, "lod"@),
            ],
            "Get the size of a texture. The LOD defines which mipmap level is used.
An LOD value of 0 will use the full resolution texture."@,
            false,
        ),
        builtin_function(
            "textureQueryLod"@,
            seq![
                with_param(with_param(returning("vec2"@), None, "gsampler2D"@, "s"@), None, "vec2"@, "p"@),
                with_param(with_param(returning("vec3"@), None, "gsampler2DArray"@, "s"@), None, "vec2"@, "p"@),
                with_param(with_param(returning("vec2"@), None, "gsampler3D"@, "s"@), None, "vec3"@, "p"@),
                with_param(with_param(returning("vec2"@), None, "samplerCube"@, "s"@), None, "vec3"@, "p"@),
            ],
            "Compute the level-of-detail that would be used to sample from a texture.
The x component of the resulted value is the mipmap array that would be accessed.
The y component is computed level-of-detail relative to the base level
(regardless of the mipmap levels of the texture)."@,
            false,
        ),
        builtin_function(
            "textureQueryLevels"@,
            seq![
                with_param(returning("int"@), None, "gsampler2D"@, "s"@),
                with_param(returning("int"@), None, "gsampler2DArray"@, "s"@),
                with_param(returning("int"@), None, "gsampler3D"@, "s"@),
                with_param(returning("int"@), None, "samplerCube"@, "s"@),
            ],
            "Get the number of accessible mipmap levels of a texture.
If the texture is unassigned to a sampler, 1 is returned
(Godot always internally assigns a texture even to an empty sampler)."@,
            false,
        ),
        builtin_function(
            "texture"@,
            seq![
                with_param(with_param(returning("gvec4_type"@), None, "gsampler2D"@, "s"@), None, "vec2"@, "p"@),
                with_param(with_param(returning("gvec4_type"@), None, "gsampler2DArray"@, "s"@), None, "vec3"@, "p"@),
                with_param(with_param(returning("gvec4_type"@), None, "gsampler3D"@, "s"@), None, "vec3"@, "p"@),
                with_param(with_param(returning("vec4_type"@), None, "samplerCube"@, "s"@), None, "vec3"@, "p"@),
                with_param(with_param(returning("vec4_type"@), None, "samplerCubeArray"@, "s"@), None, "vec4"@, "p"@),
            ],
            "Perform a texture read."@,
            false,
        ),
        builtin_function(
            "textureProj"@,
            seq![
                with_param(with_param(returning("gvec4_type"@), None, "gsampler2D"@, "s"@), None, "vec3"@, "p"@),
                with_param(with_param(returning("gvec4_type"@), None, "gsampler2D"@, "s"@), None, "vec4"@, "p"@),
                with_param(with_param(returning("gvec4_type"@), None, "gsampler3D"@, "s"@), None, "vec4"@, "p"@),
            ],
            "Perform a texture read with projection."@,
            false,
        ),
        builtin_function(
            "textureLod"@,
            seq![
                with_param(with_param(with_param(returning("gvec4_type"@), None, "gsampler2D"@, "s"@), None, "vec2"@, "p"@), None, "float"@, "lod"@),
                with_param(with_param(with_param(returning("gvec4_type"@), None, "gsampler2DArray"@, "s"@), None, "vec3"@, "p"@), None, "float"@, "lod"@),
                with_param(with_param(with_param(returning("gvec4_type"@), None, "gsampler3D"@, "s"@), None, "vec3"@, "p"@), None, "float"@, "lod"@),
                with_param(with_param(with_param(returning("vec4_type"@), None, "samplerCube"@, "s"@), None, "vec3"@, "p"@), None, "float"@, "lod"@),
                with_param(with_param(with_param(returning("vec4_type"@), None, "samplerCubeArray"@, "s"@), None, "vec4"@, "p"@), None, "float"@, "lod"@),
            ],
            "Perform a texture read at custom mipmap."@,
            false,
        ),
        builtin_function(
            "textureProjLod"@,
            seq![
                with_param(with_param(with_param(returning("gvec4_type"@), None, "gsampler2D"@, "s"@), None, "vec3"@, "p"@), None, "float"@, "lod"@),
                with_param(with_param(with_param(returning("gvec4_type"@), None, "gsampler2D"@, "s"@), None, "vec4"@, "p"@), None, "float"@, "lod"@),
                with_param(with_param(with_param(returning("gvec4_type"@), None, "gsampler3D"@, "s"@), None, "vec4"@, "p"@), None, "float"@, "lod"@),
            ],
            "Performs a texture read with projection/LOD."@,
            false,
        ),
    ]
}

fn add_functions_9(list: &mut Vec<(String, FunctionInfo)>)
    ensures
        final(list).deep_view() == old(list).deep_view() + builtin_functions_9(),
        final(list).len() == old(list).len() + 10,
{
    let signatures = vec![
        taking(signature("bool"), None, "bvec_type", "x"),
    ];
    assert(signatures.deep_view() =~= seq![
        with_param(returning("bool"@), None, "bvec_type"@, "x"@),
    ]);
    add_function(list, "any", signatures, "true if any component is true, false otherwise.", false);
    let signatures = vec![
        taking(signature("bool"), None, "bvec_type", "x"),
    ];
    assert(signatures.deep_view() =~= seq![
        with_param(returning("bool"@), None, "bvec_type"@, "x"@),
    ]);
    add_function(list, "all", signatures, "true if all components are true, false otherwise.", false);
    let signatures = vec![
        taking(signature("bvec_type"), None, "bvec_type", "x"),
    ];
    assert(signatures.deep_view() =~= seq![
        with_param(returning("bvec_type"@), None, "bvec_type"@, "x"@),
    ]);
    add_function(list, "not", signatures, "Invert boolean vector.", false);
    let signatures = vec![
        taking(taking(signature("ivec2"), None, "gsampler2D", "s"), None, "int", "lod"),
        taking(taking(signature("ivec2"), None, "gsampler2DArray", "s"), None, "int", "lod"),
        taking(taking(signature("ivec3"), None, "gsampler3D", "s"), None, "int", "lod"),
        taking(taking(signature("ivec2"), None, "samplerCube", "s"), None, "int", "lod"),
        taking(taking(signature("ivec2"), None, "samplerCubeArray", "s"), None, "int", "lod"),
    ];
    assert(signatures.deep_view() =~= seq![
        with_param(with_param(returning("ivec2"@), None, "gsampler2D"@, "s"@), None, "int"@, "lod"@),
        with_param(with_param(returning("ivec2"@), None, "gsampler2DArray"@, "s"@), None, "int"@, "lod"@),
        with_param(with_param(returning("ivec3"@), None, "gsampler3D"@, "s"@), None, "int"@, "lod"@),
        with_param(with_param(returning("ivec2"@), None, "samplerCube"@, "s"@), None, "int"@, "lod"@),
        with_param(with_param(returning("ivec2"@), None, "samplerCubeArray"@, "s"@), None, "int"@, "lod"@),
    ]);
    add_function(list, "textureSize", signatures, "Get the size of a texture. The LOD defines which mipmap level is used.
An LOD value of 0 will use the full resolution texture.", false);
    let signatures = vec![
        taking(taking(signature("vec2"), None, "gsampler2D", "s"), None, "vec2", "p"),
        taking(taking(signature("vec3"), None, "gsampler2DArray", "s"), None, "vec2", "p"),
        taking(taking(signature("vec2"), None, "gsampler3D", "s"), None, "vec3", "p"),
        taking(taking(signature("vec2"), None, "samplerCube", "s"), None, "vec3", "p"),
    ];
    assert(signatures.deep_view() =~= seq![
        with_param(with_param(returning("vec2"@), None, "gsampler2D"@, "s"@), None, "vec2"@, "p"@),
        with_param(with_param(returning("vec3"@), None, "gsampler2DArray"@, "s"@), None, "vec2"@, "p"@),
        with_param(with_param(returning("vec2"@), None, "gsampler3D"@, "s"@), None, "vec3"@, "p"@),
        with_param(with_param(returning("vec2"@), None, "samplerCube"@, "s"@), None, "vec3"@, "p"@),
    ]);
    add_function(list, "textureQueryLod", signatures, "Compute the level-of-detail that would be used to sample from a texture.
The x component of the resulted value is the mipmap array that would be accessed.
The y component is computed level-of-detail relative to the base level
(regardless of the mipmap levels of the texture).", false);
    let signatures = vec![
        taking(signature("int"), None, "gsampler2D", "s"),
        taking(signature("int"), None, "gsampler2DArray", "s"),
        taking(signature("int"), None, "gsampler3D", "s"),
        taking(signature("int"), None, "samplerCube", "s"),
    ];
    assert(signatures.deep_view() =~= seq![
        with_param(returning("int"@), None, "gsampler2D"@, "s"@),
        with_param(returning("int"@), None, "gsampler2DArray"@, "s"@),
        with_param(returning("int"@), None, "gsampler3D"@, "s"@),
        with_param(returning("int"@), None, "samplerCube"@, "s"@),
    ]);
    add_function(list, "textureQueryLevels", signatures, "Get the number of accessible mipmap levels of a texture.
If the texture is unassigned to a sampler, 1 is returned
(Godot always internally assigns a texture even to an empty sampler).", false);
    let signatures = vec![
        taking(taking(signature("gvec4_type"), None, "gsampler2D", "s"), None, "vec2", "p"),
        taking(taking(signature("gvec4_type"), None, "gsampler2DArray", "s"), None, "vec3", "p"),
        taking(taking(signature("gvec4_type"), None, "gsampler3D", "s"), None, "vec3", "p"),
        taking(taking(signature("vec4_type"), None, "samplerCube", "s"), None, "vec3", "p"),
        taking(taking(signature("vec4_type"), None, "samplerCubeArray", "s"), None, "vec4", "p"),
    ];
    assert(signatures.deep_view() =~= seq![
        with_param(with_param(returning("gvec4_type"@), None, "gsampler2D"@, "s"@), None, "vec2"@, "p"@),
        with_param(with_param(returning("gvec4_type"@), None, "gsampler2DArray"@, "s"@), None, "vec3"@, "p"@),
        with_param(with_param(returning("gvec4_type"@), None, "gsampler3D"@, "s"@), None, "vec3"@, "p"@),
        with_param(with_param(returning("vec4_type"@), None, "samplerCube"@, "s"@), None, "vec3"@, "p"@),
        with_param(with_param(returning("vec4_type"@), None, "samplerCubeArray"@, "s"@), None, "vec4"@, "p"@),
    ]);
    add_function(list, "texture", signatures, "Perform a texture read.", false);
    let signatures = vec![
        taking(taking(signature("gvec4_type"), None, "gsampler2D", "s"), None, "vec3", "p"),
        taking(taking(signature("gvec4_type"), None, "gsampler2D", "s"), None, "vec4", "p"),
        taking(taking(signature("gvec4_type"), None, "gsampler3D", "s"), None, "vec4", "p"),
    ];
    assert(signatures.deep_view() =~= seq![
        with_param(with_param(returning("gvec4_type"@), None, "gsampler2D"@, "s"@), None, "vec3"@, "p"@),
        with_param(with_param(returning("gvec4_type"@), None, "gsampler2D"@, "s"@), None, "vec4"@, "p"@),
        with_param(with_param(returning("gvec4_type"@), None, "gsampler3D"@, "s"@), None, "vec4"@, "p"@),
    ]);
    add_function(list, "textureProj", signatures, "Perform a texture read with projection.", false);
    let signatures = vec![
        taking(taking(taking(signature("gvec4_type"), None, "gsampler2D", "s"), None, "vec2", "p"), None, "float", "lod"),
        taking(taking(taking(signature("gvec4_type"), None, "gsampler2DArray", "s"), None, "vec3", "p"), None, "float", "lod"),
        taking(taking(taking(signature("gvec4_type"), None, "gsampler3D", "s"), None, "vec3", "p"), None, "float", "lod"),
        taking(taking(taking(signature("vec4_type"), None, "samplerCube", "s"), None, "vec3", "p"), None, "float", "lod"),
        taking(taking(taking(signature("vec4_type"), None, "samplerCubeArray", "s"), None, "vec4", "p"), None, "float", "lod"),
    ];
    assert(signatures.deep_view() =~= seq![
        with_param(with_param(with_param(returning("gvec4_type"@), None, "gsampler2D"@, "s"@), None, "vec2"@, "p"@), None, "float"@, "lod"@),
        with_param(with_param(with_param(returning("gvec4_type"@), None, "gsampler2DArray"@, "s"@), None, "vec3"@, "p"@), None, "float"@, "lod"@),
        with_param(with_param(with_param(returning("gvec4_type"@), None, "gsampler3D"@, "s"@), None, "vec3"@, "p"@), None, "float"@, "lod"@),
        with_param(with_param(with_param(returning("vec4_type"@), None, "samplerCube"@, "s"@), None, "vec3"@, "p"@), None, "float"@, "lod"@),
        with_param(with_param(with_param(returning("vec4_type"@), None, "samplerCubeArray"@, "s"@), None, "vec4"@, "p"@), None, "float"@, "lod"@),
    ]);
    add_function(list, "textureLod", signatures, "Perform a texture read at custom mipmap.", false);
    let signatures = vec![
        taking(taking(taking(signature("gvec4_type"), None, "gsampler2D", "s"), None, "vec3", "p"), None, "float", "lod"),
        taking(taking(taking(signature("gvec4_type"), None, "gsampler2D", "s"), None, "vec4", "p"), None, "float", "lod"),
        taking(taking(taking(signature("gvec4_type"), None, "gsampler3D", "s"), None, "vec4", "p"), None, "float", "lod"),
    ];
    assert(signatures.deep_view() =~= seq![
        with_param(with_param(with_param(returning("gvec4_type"@), None, "gsampler2D"@, "s"@), None, "vec3"@, "p"@), None, "float"@, "lod"@),
        with_param(with_param(with_param(returning("gvec4_type"@), None, "gsampler2D"@, "s"@), None, "vec4"@, "p"@), None, "float"@, "lod"@),
        with_param(with_param(with_param(returning("gvec4_type"@), None, "gsampler3D"@, "s"@), None, "vec4"@, "p"@), None, "float"@, "lod"@),
    ]);
    add_function(list, "textureProjLod", signatures, "Performs a texture read with projection/LOD.", false);
    assert(list.deep_view() =~= old(list).deep_view() + builtin_functions_9());
}

/// Part 10 of the built-in functions.
pub open spec fn builtin_functions_10() -> SpecTable<SpecFunctionInfo> {
    seq![
        builtin_function(
            "textureGrad"@,
            seq![
                with_param(with_param(with_param(with_param(returning("gvec4_type"@), None, "gsampler2D"@, "s"@), None, "vec2"@, "p"@), None, "vec2"@, "dPdx"@), None, "vec2"@, "dPdy"@),
                with_param(with_param(with_param(with_param(returning("gvec4_type"@), None, "gsampler2DArray"@, "s"@), None, "vec3"@, "p"@), None, "vec2"@, "dPdx"@), None, "vec2"@, "dPdy"@),
                with_param(with_param(with_param(with_param(returning("gvec4_type"@), None, "gsampler3D"@, "s"@), None, "vec3"@, "p"@), None, "vec2"@, "dPdx"@), None, "vec2"@, "dPdy"@),
                with_param(with_param(with_param(with_param(returning("vec4_type"@), None, "samplerCube"@, "s"@), None, "vec3"@, "p"@), None, "vec3"@, "dPdx"@), None, "vec3"@, "dPdy"@),
                with_param(with_param(with_param(with_param(returning("vec4_type"@), None, "samplerCubeArray"@, "s"@), None, "vec3"@, "p"@), None, "vec3"@, "dPdx"@), None, "vec3"@, "dPdy"@),
            ],
            "Performs a texture read with explicit gradients."@,
            false,
        ),
        builtin_function(
            "textureProjGrad"@,
            seq![
                with_param(with_param(with_param(with_param(returning("gvec4_type"@), None, "gsampler2D"@, "s"@), None, "vec3"@, "p"@), None, "vec2"@, "dPdx"@), None, "vec2"@, "dPdy"@),
                with_param(with_param(with_param(with_param(returning("gvec4_type"@), None, "gsampler2D"@, "s"@), None, "vec4"@, "p"@), None, "vec2"@, "dPdx"@), None, "vec2"@, "dPdy"@),
                with_param(with_param(with_param(with_param(returning("gvec4_type"@), None, "gsampler3D"@, "s"@), None, "vec4"@, "p"@), None, "vec3"@, "dPdx"@), None, "vec3"@, "dPdy"@),
            ],
            "Performs a texture read with projection/LOD and with explicit gradients."@,
            false,
        ),
        builtin_function(
            "texelFetch"@,
            seq![
                with_param(with_param(with_param(returning("gvec4_type"@), None, "gsampler2D"@, "s"@), None, "ivec2"@, "p"@), None, "int"@, "lod"@),
                with_param(with_param(with_param(returning("gvec4_type"@), None, "gsampler2DArray"@, "s"@), None, "ivec3"@, "p"@), None, "int"@, "lod"@),
                with_param(with_param(with_param(returning("gvec4_type"@), None, "gsampler3D"@, "s"@), None, "ivec3"@, "p"@), None, "int"@, "lod"@),
            ],
            "Fetches a single texel using integer coordinates."@,
            false,
        ),
        builtin_function(
            "textureGather"@,
            seq![
                with_param(with_param(returning("gvec4_type"@), None, "gsampler2D"@, "s"@), None, "vec2"@, "p"@),
                with_param(with_param(returning("gvec4_type"@), None, "gsampler2DArray"@, "s"@), None, "vec3"@, "p"@),
                with_param(with_param(returning("vec4_type"@), None, "samplerCube"@, "s"@), None, "vec3"@, "p"@),
            ],
            "Gathers four texels from a texture."@,
            false,
        ),
        builtin_function(
            "dFdx"@,
            seq![
                with_param(returning("vec_type"@), None, "vec_type"@, "p"@),
            ],
            "Derivative in x using local differencing. Internally, can use either
dFdxCoarse or dFdxFine, but the decision for which to use is made by
the GPU driver."@,
            false,
        ),
        builtin_function(
            "dFdxCoarse"@,
            seq![
                with_param(returning("vec_type"@), None, "vec_type"@, "p"@),
            ],
            "Calculates derivative with respect to x window coordinate using local
differencing based on the value of p for the current fragment neighbour(s),
and will possibly, but not necessarily, include the value for the current
fragment. This function is not available on gl_compatibility profile."@,
            false,
        ),
        builtin_function(
            "dFdxFine"@,
            seq![
                with_param(returning("vec_type"@), None, "vec_type"@, "p"@),
            ],
            "Calculates derivative with respect to x window coordinate using local
differencing based on the value of p for the current fragment and its
immediate neighbour(s). This function is not available on gl_compatibility
profile."@,
            false,
        ),
        builtin_function(
            "dFdy"@,
            seq![
                with_param(returning("vec_type"@), None, "vec_type"@, "p"@),
            ],
            "Derivative in y using local differencing. Internally, can use either
dFdyCoarse or dFdyFine, but the decision for which to use is made by
the GPU driver."@,
            false,
        ),
        builtin_function(
            "dFdyCoarse"@,
            seq![
                with_param(returning("vec_type"@), None, "vec_type"@, "p"@),
            ],
            "Calculates derivative with respect to y window coordinate using local
differencing based on the value of p for the current fragment neighbour(s),
and will possibly, but not necessarily, include the value for the current
fragment. This function is not available on gl_compatibility profile."@,
            false,
        ),
        builtin_function(
            "dFdyFine"@,
            seq![
                with_param(returning("vec_type"@), None, "vec_type"@, "p"@),
            ],
            "Calculates derivative with respect to y window coordinate using local
differencing based on the value of p for the current fragment and its
immediate neighbour(s). This function is not available on gl_compatibility
profile."@,
            false,
        ),
    ]
}

fn add_functions_10(list: &mut Vec<(String, FunctionInfo)>)
    ensures
        final(list).deep_view() == old(list).deep_view() + builtin_functions_10(),
        final(list).len() == old(list).len() + 10,
{
    let signatures = vec![
        taking(taking(taking(taking(signature("gvec4_type"), None, "gsampler2D", "s"), None, "vec2", "p"), None, "vec2", "dPdx"), None, "vec2", "dPdy"),
        taking(taking(taking(taking(signature("gvec4_type"), None, "gsampler2DArray", "s"), None, "vec3", "p"), None, "vec2", "dPdx"), None, "vec2", "dPdy"),
        taking(taking(taking(taking(signature("gvec4_type"), None, "gsampler3D", "s"), None, "vec3", "p"), None, "vec2", "dPdx"), None, "vec2", "dPdy"),
        taking(taking(taking(taking(signature("vec4_type"), None, "samplerCube", "s"), None, "vec3", "p"), None, "vec3", "dPdx"), None, "vec3", "dPdy"),
        taking(taking(taking(taking(signature("vec4_type"), None, "samplerCubeArray", "s"), None, "vec3", "p"), None, "vec3", "dPdx"), None, "vec3", "dPdy"),
    ];
    assert(signatures.deep_view() =~= seq![
        with_param(with_param(with_param(with_param(returning("gvec4_type"@), None, "gsampler2D"@, "s"@), None, "vec2"@, "p"@), None, "vec2"@, "dPdx"@), None, "vec2"@, "dPdy"@),
        with_param(with_param(with_param(with_param(returning("gvec4_type"@), None, "gsampler2DArray"@, "s"@), None, "vec3"@, "p"@), None, "vec2"@, "dPdx"@), None, "vec2"@, "dPdy"@),
        with_param(with_param(with_param(with_param(returning("gvec4_type"@), None, "gsampler3D"@, "s"@), None, "vec3"@, "p"@), None, "vec2"@, "dPdx"@), None, "vec2"@, "dPdy"@),
        with_param(with_param(with_param(with_param(returning("vec4_type"@), None, "samplerCube"@, "s"@), None, "vec3"@, "p"@), None, "vec3"@, "dPdx"@), None, "vec3"@, "dPdy"@),
        with_param(with_param(with_param(with_param(returning("vec4_type"@), None, "samplerCubeArray"@, "s"@), None, "vec3"@, "p"@), None, "vec3"@, "dPdx"@), None, "vec3"@, "dPdy"@),
    ]);
    add_function(list, "textureGrad", signatures, "Performs a texture read with explicit gradients.", false);
    let signatures = vec![
        taking(taking(taking(taking(signature("gvec4_type"), None, "gsampler2D", "s"), None, "vec3", "p"), None, "vec2", "dPdx"), None, "vec2", "dPdy"),
        taking(taking(taking(taking(signature("gvec4_type"), None, "gsampler2D", "s"), None, "vec4", "p"), None, "vec2", "dPdx"), None, "vec2", "dPdy"),
        taking(taking(taking(taking(signature("gvec4_type"), None, "gsampler3D", "s"), None, "vec4", "p"), None, "vec3", "dPdx"), None, "vec3", "dPdy"),
    ];
    assert(signatures.deep_view() =~= seq![
        with_param(with_param(with_param(with_param(returning("gvec4_type"@), None, "gsampler2D"@, "s"@), None, "vec3"@, "p"@), None, "vec2"@, "dPdx"@), None, "vec2"@, "dPdy"@),
        with_param(with_param(with_param(with_param(returning("gvec4_type"@), None, "gsampler2D"@, "s"@), None, "vec4"@, "p"@), None, "vec2"@, "dPdx"@), None, "vec2"@, "dPdy"@),
        with_param(with_param(with_param(with_param(returning("gvec4_type"@), None, "gsampler3D"@, "s"@), None, "vec4"@, "p"@), None, "vec3"@, "dPdx"@), None, "vec3"@, "dPdy"@),
    ]);
    add_function(list, "textureProjGrad", signatures, "Performs a texture read with projection/LOD and with explicit gradients.", false);
    let signatures = vec![
        taking(taking(taking(signature("gvec4_type"), None, "gsampler2D", "s"), None, "ivec2", "p"), None, "int", "lod"),
        taking(taking(taking(signature("gvec4_type"), None, "gsampler2DArray", "s"), None, "ivec3", "p"), None, "int", "lod"),
        taking(taking(taking(signature("gvec4_type"), None, "gsampler3D", "s"), None, "ivec3", "p"), None, "int", "lod"),
    ];
    assert(signatures.deep_view() =~= seq![
        with_param(with_param(with_param(returning("gvec4_type"@), None, "gsampler2D"@, "s"@), None, "ivec2"@, "p"@), None, "int"@, "lod"@),
        with_param(with_param(with_param(returning("gvec4_type"@), None, "gsampler2DArray"@, "s"@), None, "ivec3"@, "p"@), None, "int"@, "lod"@),
        with_param(with_param(with_param(returning("gvec4_type"@), None, "gsampler3D"@, "s"@), None, "ivec3"@, "p"@), None, "int"@, "lod"@),
    ]);
    add_function(list, "texelFetch", signatures, "Fetches a single texel using integer coordinates.", false);
    let signatures = vec![
        taking(taking(signature("gvec4_type"), None, "gsampler2D", "s"), None, "vec2", "p"),
        taking(taking(signature("gvec4_type"), None, "gsampler2DArray", "s"), None, "vec3", "p"),
        taking(taking(signature("vec4_type"), None, "samplerCube", "s"), None, "vec3", "p"),
    ];
    assert(signatures.deep_view() =~= seq![
        with_param(with_param(returning("gvec4_type"@), None, "gsampler2D"@, "s"@), None, "vec2"@, "p"@),
        with_param(with_param(returning("gvec4_type"@), None, "gsampler2DArray"@, "s"@), None, "vec3"@, "p"@),
        with_param(with_param(returning("vec4_type"@), None, "samplerCube"@, "s"@), None, "vec3"@, "p"@),
    ]);
    add_function(list, "textureGather", signatures, "Gathers four texels from a texture.", false);
    let signatures = vec![
        taking(signature("vec_type"), None, "vec_type", "p"),
    ];
    assert(signatures.deep_view() =~= seq![
        with_param(returning("vec_type"@), None, "vec_type"@, "p"@),
    ]);
    add_function(list, "dFdx", signatures, "Derivative in x using local differencing. Internally, can use either
dFdxCoarse or dFdxFine, but the decision for which to use is made by
the GPU driver.", false);
    let signatures = vec![
        taking(signature("vec_type"), None, "vec_type", "p"),
    ];
    assert(signatures.deep_view() =~= seq![
        with_param(returning("vec_type"@), None, "vec_type"@, "p"@),
    ]);
    add_function(list, "dFdxCoarse", signatures, "Calculates derivative with respect to x window coordinate using local
differencing based on the value of p for the current fragment neighbour(s),
and will possibly, but not necessarily, include the value for the current
fragment. This function is not available on gl_compatibility profile.", false);
    let signatures = vec![
        taking(signature("vec_type"), None, "vec_type", "p"),
    ];
    assert(signatures.deep_view() =~= seq![
        with_param(returning("vec_type"@), None, "vec_type"@, "p"@),
    ]);
    add_function(list, "dFdxFine", signatures, "Calculates derivative with respect to x window coordinate using local
differencing based on the value of p for the current fragment and its
immediate neighbour(s). This function is not available on gl_compatibility
profile.", false);
    let signatures = vec![
        taking(signature("vec_type"), None, "vec_type", "p"),
    ];
    assert(signatures.deep_view() =~= seq![
        with_param(returning("vec_type"@), None, "vec_type"@, "p"@),
    ]);
    add_function(list, "dFdy", signatures, "Derivative in y using local differencing. Internally, can use either
dFdyCoarse or dFdyFine, but the decision for which to use is made by
the GPU driver.", false);
    let signatures = vec![
        taking(signature("vec_type"), None, "vec_type", "p"),
    ];
    assert(signatures.deep_view() =~= seq![
        with_param(returning("vec_type"@), None, "vec_type"@, "p"@),
    ]);
    add_function(list, "dFdyCoarse", signatures, "Calculates derivative with respect to y window coordinate using local
differencing based on the value of p for the current fragment neighbour(s),
and will possibly, but not necessarily, include the value for the current
fragment. This function is not available on gl_compatibility profile.", false);
    let signatures = vec![
        taking(signature("vec_type"), None, "vec_type", "p"),
    ];
    assert(signatures.deep_view() =~= seq![
        with_param(returning("vec_type"@), None, "vec_type"@, "p"@),
    ]);
    add_function(list, "dFdyFine", signatures, "Calculates derivative with respect to y window coordinate using local
differencing based on the value of p for the current fragment and its
immediate neighbour(s). This function is not available on gl_compatibility
profile.", false);
    assert(list.deep_view() =~= old(list).deep_view() + builtin_functions_10());
}

/// Part 11 of the built-in functions.
pub open spec fn builtin_functions_11() -> SpecTable<SpecFunctionInfo> {
    seq![
        builtin_function(
            "fwidth"@,
            seq![
                with_param(returning("vec_type"@), None, "vec_type"@, "p"@),
            ],
            "Sum of absolute derivative in x and y. This is the equivalent of using
abs(dFdx(p)) + abs(dFdy(p))."@,
            false,
        ),
        builtin_function(
            "fwidthCoarse"@,
            seq![
                with_param(returning("vec_type"@), None, "vec_type"@, "p"@),
            ],
            "Sum of absolute derivative in x and y. This is the equivalent of using
abs(dFdxCoarse(p)) + abs(dFdyCoarse(p)). This function is not available
on gl_compatibility profile."@,
            false,
        ),
        builtin_function(
            "fwidthFine"@,
            seq![
                with_param(returning("vec_type"@), None, "vec_type"@, "p"@),
            ],
            "Sum of absolute derivative in x and y. This is the equivalent of using
abs(dFdxFine(p)) + abs(dFdyFine(p)). This function is not available on
gl_compatibility profile."@,
            false,
        ),
        builtin_function(
            "packHalf2x16"@,
            seq![
                with_param(returning("uint"@), None, "vec2"@, "v"@),
            ],
            "Convert two 32-bit floating-point numbers into 16-bit and pack them
into a 32-bit unsigned integer and vice-versa."@,
            false,
        ),
        builtin_function(
            "unpackHalf2x16"@,
            seq![
                with_param(returning("vec2"@), None, "uint"@, "v"@),
            ],
            "Convert two 32-bit floating-point numbers into 16-bit and pack them
into a 32-bit unsigned integer and vice-versa."@,
            false,
        ),
        builtin_function(
            "packUnorm2x16"@,
            seq![
                with_param(returning("uint"@), None, "vec2"@, "v"@),
            ],
            "Convert two 32-bit floating-point numbers (clamped within 0..1 range)
into 16-bit and pack them into a 32-bit unsigned integer and vice-versa."@,
            false,
        ),
        builtin_function(
            "unpackUnorm2x16"@,
            seq![
                with_param(returning("vec2"@), None, "uint"@, "v"@),
            ],
            "Convert two 32-bit floating-point numbers (clamped within 0..1 range)
into 16-bit and pack them into a 32-bit unsigned integer and vice-versa."@,
            false,
        ),
        builtin_function(
            "packSnorm2x16"@,
            seq![
                with_param(returning("uint"@), None, "vec2"@, "v"@),
            ],
            "Convert two 32-bit floating-point numbers (clamped within -1..1 range) 
into 16-bit and pack them into a 32-bit unsigned integer and vice-versa."@,
            false,
        ),
        builtin_function(
            "unpackSnorm2x16"@,
            seq![
                with_param(returning("vec2"@), None, "uint"@, "v"@),
            ],
            "Convert two 32-bit floating-point numbers (clamped within -1..1 range) 
into 16-bit and pack them into a 32-bit unsigned integer and vice-versa."@,
            false,
        ),
        builtin_function(
            "packUnorm4x8"@,
            seq![
                with_param(returning("uint"@), None, "vec4"@, "v"@),
            ],
            "Convert four 32-bit floating-point numbers (clamped within 0..1 range) 
into 8-bit and pack them into a 32-bit unsigned integer and vice-versa."@,
            false,
        ),
    ]
}

fn add_functions_11(list: &mut Vec<(String, FunctionInfo)>)
    ensures
        final(list).deep_view() == old(list).deep_view() + builtin_functions_11(),
        final(list).len() == old(list).len() + 10,
{
    let signatures = vec![
        taking(signature("vec_type"), None, "vec_type", "p"),
    ];
    assert(signatures.deep_view() =~= seq![
        with_param(returning("vec_type"@), None, "vec_type"@, "p"@),
    ]);
    add_function(list, "fwidth", signatures, "Sum of absolute derivative in x and y. This is the equivalent of using
abs(dFdx(p)) + abs(dFdy(p)).", false);
    let signatures = vec![
        taking(signature("vec_type"), None, "vec_type", "p"),
    ];
    assert(signatures.deep_view() =~= seq![
        with_param(returning("vec_type"@), None, "vec_type"@, "p"@),
    ]);
    add_function(list, "fwidthCoarse", signatures, "Sum of absolute derivative in x and y. This is the equivalent of using
abs(dFdxCoarse(p)) + abs(dFdyCoarse(p)). This function is not available
on gl_compatibility profile.", false);
    let signatures = vec![
        taking(signature("vec_type"), None, "vec_type", "p"),
    ];
    assert(signatures.deep_view() =~= seq![
        with_param(returning("vec_type"@), None, "vec_type"@, "p"@),
    ]);
    add_function(list, "fwidthFine", signatures, "Sum of absolute derivative in x and y. This is the equivalent of using
abs(dFdxFine(p)) + abs(dFdyFine(p)). This function is not available on
gl_compatibility profile.", false);
    let signatures = vec![
        taking(signature("uint"), None, "vec2", "v"),
    ];
    assert(signatures.deep_view() =~= seq![
        with_param(returning("uint"@), None, "vec2"@, "v"@),
    ]);
    add_function(list, "packHalf2x16", signatures, "Convert two 32-bit floating-point numbers into 16-bit and pack them
into a 32-bit unsigned integer and vice-versa.", false);
    let signatures = vec![
        taking(signature("vec2"), None, "uint", "v"),
    ];
    assert(signatures.deep_view() =~= seq![
        with_param(returning("vec2"@), None, "uint"@, "v"@),
    ]);
    add_function(list, "unpackHalf2x16", signatures, "Convert two 32-bit floating-point numbers into 16-bit and pack them
into a 32-bit unsigned integer and vice-versa.", false);
    let signatures = vec![
        taking(signature("uint"), None, "vec2", "v"),
    ];
    assert(signatures.deep_view() =~= seq![
        with_param(returning("uint"@), None, "vec2"@, "v"@),
    ]);
    add_function(list, "packUnorm2x16", signatures, "Convert two 32-bit floating-point numbers (clamped within 0..1 range)
into 16-bit and pack them into a 32-bit unsigned integer and vice-versa.", false);
    let signatures = vec![
        taking(signature("vec2"), None, "uint", "v"),
    ];
    assert(signatures.deep_view() =~= seq![
        with_param(returning("vec2"@), None, "uint"@, "v"@),
    ]);
    add_function(list, "unpackUnorm2x16", signatures, "Convert two 32-bit floating-point numbers (clamped within 0..1 range)
into 16-bit and pack them into a 32-bit unsigned integer and vice-versa.", false);
    let signatures = vec![
        taking(signature("uint"), None, "vec2", "v"),
    ];
    assert(signatures.deep_view() =~= seq![
        with_param(returning("uint"@), None, "vec2"@, "v"@),
    ]);
    add_function(list, "packSnorm2x16", signatures, "Convert two 32-bit floating-point numbers (clamped within -1..1 range) 
into 16-bit and pack them into a 32-bit unsigned integer and vice-versa.", false);
    let signatures = vec![
        taking(signature("vec2"), None, "uint", "v"),
    ];
    assert(signatures.deep_view() =~= seq![
        with_param(returning("vec2"@), None, "uint"@, "v"@),
    ]);
    add_function(list, "unpackSnorm2x16", signatures, "Convert two 32-bit floating-point numbers (clamped within -1..1 range) 
into 16-bit and pack them into a 32-bit unsigned integer and vice-versa.", false);
    let signatures = vec![
        taking(signature("uint"), None, "vec4", "v"),
    ];
    assert(signatures.deep_view() =~= seq![
        with_param(returning("uint"@), None, "vec4"@, "v"@),
    ]);
    add_function(list, "packUnorm4x8", signatures, "Convert four 32-bit floating-point numbers (clamped within 0..1 range) 
into 8-bit and pack them into a 32-bit unsigned integer and vice-versa.", false);
    assert(list.deep_view() =~= old(list).deep_view() + builtin_functions_11());
}

/// Part 12 of the built-in functions.
pub open spec fn builtin_functions_12() -> SpecTable<SpecFunctionInfo> {
    seq![
        builtin_function(
            "unpackUnorm4x8"@,
            seq![
                with_param(returning("vec4"@), None, "uint"@, "v"@),
            ],
            "Convert four 32-bit floating-point numbers (clamped within 0..1 range) 
into 8-bit and pack them into a 32-bit unsigned integer and vice-versa."@,
            false,
        ),
        builtin_function(
            "packSnorm4x8"@,
            seq![
                with_param(returning("uint"@), None, "vec4"@, "v"@),
            ],
            "Convert four 32-bit floating-point numbers (clamped within -1..1 range) 
into 8-bit and pack them into a 32-bit unsigned integer and vice-versa."@,
            false,
        ),
        builtin_function(
            "unpackSnorm4x8"@,
            seq![
                with_param(returning("vec4"@), None, "uint"@, "v"@),
            ],
            "Convert four 32-bit floating-point numbers (clamped within -1..1 range) 
into 8-bit and pack them into a 32-bit unsigned integer and vice-versa."@,
            false,
        ),
        builtin_function(
            "bitfieldExtract"@,
            seq![
                with_param(with_param(with_param(returning("uvec_type"@), None, "uvec_type"@, "value"@), None, "int"@, "offset"@), None, "int"@, "bits"@),
                with_param(with_param(with_param(returning("ivec_type"@), None, "ivec_type"@, "value"@), None, "int"@, "offset"@), None, "int"@, "bits"@),
            ],
            "Extracts a range of bits from an integer."@,
            false,
        ),
        builtin_function(
            "bitfieldInsert"@,
            seq![
                with_param(with_param(with_param(with_param(returning("ivec_type"@), None, "ivec_type"@, "base"@), None, "ivec_type"@, "insert"@), None, "int"@, "offset"@), None, "int"@, "bits"@),
                with_param(with_param(with_param(with_param(returning("uvec_type"@), None, "uvec_type"@, "base"@), None, "uvec_type"@, "insert"@), None, "int"@, "offset"@), None, "int"@, "bits"@),
            ],
            "Insert a range of bits into an integer."@,
            false,
        ),
        builtin_function(
            "bitfieldReverse"@,
            seq![
                with_param(returning("ivec_type"@), None, "ivec_type"@, "value"@),
                with_param(returning("uvec_type"@), None, "uvec_type"@, "value"@),
            ],
            "Reverse the order of bits in an integer."@,
            false,
        ),
        builtin_function(
            "bitCount"@,
            seq![
                with_param(returning("ivec_type"@), None, "ivec_type"@, "value"@),
                with_param(returning("uvec_type"@), None, "uvec_type"@, "value"@),
            ],
            "Counts the number of 1 bits in an integer."@,
            false,
        ),
        builtin_function(
            "findLSB"@,
            seq![
                with_param(returning("ivec_type"@), None, "ivec_type"@, "value"@),
                with_param(returning("uvec_type"@), None, "uvec_type"@, "value"@),
            ],
            "Find the index of the least significant bit set to 1 in an integer."@,
            false,
        ),
        builtin_function(
            "findMSB"@,
            seq![
                with_param(returning("ivec_type"@), None, "ivec_type"@, "value"@),
                with_param(returning("uvec_type"@), None, "uvec_type"@, "value"@),
            ],
            "Find the index of the most significant bit set to 1 in an integer."@,
            false,
        ),
        builtin_function(
            "imulExtended"@,
            seq![
                with_param(with_param(with_param(with_param(returning("void"@), None, "ivec_type"@, "x"@), None, "ivec_type"@, "y"@), Some(FunctionParamQualifier::Out), "ivec_type"@, "msb"@), Some(FunctionParamQualifier::Out), "ivec_type"@, "lsb"@),
            ],
            "Multiplies two 32-bit numbers and produce a 64-bit result.
x - the first number. y - the second number.
msb - will contain the most significant bits.
lsb - will contain the least significant bits."@,
            false,
        ),
    ]
}

fn add_functions_12(list: &mut Vec<(String, FunctionInfo)>)
    ensures
        final(list).deep_view() == old(list).deep_view() + builtin_functions_12(),
        final(list).len() == old(list).len() + 10,
{
    let signatures = vec![
        taking(signature("vec4"), None, "uint", "v"),
    ];
    assert(signatures.deep_view() =~= seq![
        with_param(returning("vec4"@), None, "uint"@, "v"@),
    ]);
    add_function(list, "unpackUnorm4x8", signatures, "Convert four 32-bit floating-point numbers (clamped within 0..1 range) 
into 8-bit and pack them into a 32-bit unsigned integer and vice-versa.", false);
    let signatures = vec![
        taking(signature("uint"), None, "vec4", "v"),
    ];
    assert(signatures.deep_view() =~= seq![
        with_param(returning("uint"@), None, "vec4"@, "v"@),
    ]);
    add_function(list, "packSnorm4x8", signatures, "Convert four 32-bit floating-point numbers (clamped within -1..1 range) 
into 8-bit and pack them into a 32-bit unsigned integer and vice-versa.", false);
    let signatures = vec![
        taking(signature("vec4"), None, "uint", "v"),
    ];
    assert(signatures.deep_view() =~= seq![
        with_param(returning("vec4"@), None, "uint"@, "v"@),
    ]);
    add_function(list, "unpackSnorm4x8", signatures, "Convert four 32-bit floating-point numbers (clamped within -1..1 range) 
into 8-bit and pack them into a 32-bit unsigned integer and vice-versa.", false);
    let signatures = vec![
        taking(taking(taking(signature("uvec_type"), None, "uvec_type", "value"), None, "int", "offset"), None, "int", "bits"),
        taking(taking(taking(signature("ivec_type"), None, "ivec_type", "value"), None, "int", "offset"), None, "int", "bits"),
    ];
    assert(signatures.deep_view() =~= seq![
        with_param(with_param(with_param(returning("uvec_type"@), None, "uvec_type"@, "value"@), None, "int"@, "offset"@), None, "int"@, "bits"@),
        with_param(with_param(with_param(returning("ivec_type"@), None, "ivec_type"@, "value"@), None, "int"@, "offset"@), None, "int"@, "bits"@),
    ]);
    add_function(list, "bitfieldExtract", signatures, "Extracts a range of bits from an integer.", false);
    let signatures = vec![
        taking(taking(taking(taking(signature("ivec_type"), None, "ivec_type", "base"), None, "ivec_type", "insert"), None, "int", "offset"), None, "int", "bits"),
        taking(taking(taking(taking(signature("uvec_type"), None, "uvec_type", "base"), None, "uvec_type", "insert"), None, "int", "offset"), None, "int", "bits"),
    ];
    assert(signatures.deep_view() =~= seq![
        with_param(with_param(with_param(with_param(returning("ivec_type"@), None, "ivec_type"@, "base"@), None, "ivec_type"@, "insert"@), None, "int"@, "offset"@), None, "int"@, "bits"@),
        with_param(with_param(with_param(with_param(returning("uvec_type"@), None, "uvec_type"@, "base"@), None, "uvec_type"@, "insert"@), None, "int"@, "offset"@), None, "int"@, "bits"@),
    ]);
    add_function(list, "bitfieldInsert", signatures, "Insert a range of bits into an integer.", false);
    let signatures = vec![
        taking(signature("ivec_type"), None, "ivec_type", "value"),
        taking(signature("uvec_type"), None, "uvec_type", "value"),
    ];
    assert(signatures.deep_view() =~= seq![
        with_param(returning("ivec_type"@), None, "ivec_type"@, "value"@),
        with_param(returning("uvec_type"@), None, "uvec_type"@, "value"@),
    ]);
    add_function(list, "bitfieldReverse", signatures, "Reverse the order of bits in an integer.", false);
    let signatures = vec![
        taking(signature("ivec_type"), None, "ivec_type", "value"),
        taking(signature("uvec_type"), None, "uvec_type", "value"),
    ];
    assert(signatures.deep_view() =~= seq![
        with_param(returning("ivec_type"@), None, "ivec_type"@, "value"@),
        with_param(returning("uvec_type"@), None, "uvec_type"@, "value"@),
    ]);
    add_function(list, "bitCount", signatures, "Counts the number of 1 bits in an integer.", false);
    let signatures = vec![
        taking(signature("ivec_type"), None, "ivec_type", "value"),
        taking(signature("uvec_type"), None, "uvec_type", "value"),
    ];
    assert(signatures.deep_view() =~= seq![
        with_param(returning("ivec_type"@), None, "ivec_type"@, "value"@),
        with_param(returning("uvec_type"@), None, "uvec_type"@, "value"@),
    ]);
    add_function(list, "findLSB", signatures, "Find the index of the least significant bit set to 1 in an integer.", false);
    let signatures = vec![
        taking(signature("ivec_type"), None, "ivec_type", "value"),
        taking(signature("uvec_type"), None, "uvec_type", "value"),
    ];
    assert(signatures.deep_view() =~= seq![
        with_param(returning("ivec_type"@), None, "ivec_type"@, "value"@),
        with_param(returning("uvec_type"@), None, "uvec_type"@, "value"@),
    ]);
    add_function(list, "findMSB", signatures, "Find the index of the most significant bit set to 1 in an integer.", false);
    let signatures = vec![
        taking(taking(taking(taking(signature("void"), None, "ivec_type", "x"), None, "ivec_type", "y"), Some(FunctionParamQualifier::Out), "ivec_type", "msb"), Some(FunctionParamQualifier::Out), "ivec_type", "lsb"),
    ];
    assert(signatures.deep_view() =~= seq![
        with_param(with_param(with_param(with_param(returning("void"@), None, "ivec_type"@, "x"@), None, "ivec_type"@, "y"@), Some(FunctionParamQualifier::Out), "ivec_type"@, "msb"@), Some(FunctionParamQualifier::Out), "ivec_type"@, "lsb"@),
    ]);
    add_function(list, "imulExtended", signatures, "Multiplies two 32-bit numbers and produce a 64-bit result.
x - the first number. y - the second number.
msb - will contain the most significant bits.
lsb - will contain the least significant bits.", false);
    assert(list.deep_view() =~= old(list).deep_view() + builtin_functions_12());
}

/// Part 13 of the built-in functions.
pub open spec fn builtin_functions_13() -> SpecTable<SpecFunctionInfo> {
    seq![
        builtin_function(
            "umulExtended"@,
            seq![
                with_param(with_param(with_param(with_param(returning("void"@), None, "uvec_type"@, "x"@), None, "uvec_type"@, "y"@), Some(FunctionParamQualifier::Out), "uvec_type"@, "msb"@), Some(FunctionParamQualifier::Out), "uvec_type"@, "lsb"@),
            ],
            "Multiplies two 32-bit numbers and produce a 64-bit result.
x - the first number. y - the second number.
msb - will contain the most significant bits.
lsb - will contain the least significant bits."@,
            false,
        ),
        builtin_function(
            "uadCarry"@,
            seq![
                with_param(with_param(with_param(returning("uvec_type"@), None, "uvec_type"@, "x"@), None, "uvec_type"@, "y"@), Some(FunctionParamQualifier::Out), "uvec_type"@, "carry"@),
            ],
            "Adds two unsigned integers and generates carry."@,
            false,
        ),
        builtin_function(
            "usubBorrow"@,
            seq![
                with_param(with_param(with_param(returning("uvec_type"@), None, "uvec_type"@, "x"@), None, "uvec_type"@, "y"@), Some(FunctionParamQualifier::Out), "uvec_type"@, "borrow"@),
            ],
            "Subtracts two unsigned integers and generates borrow."@,
            false,
        ),
        builtin_function(
            "ldexp"@,
            seq![
                with_param(with_param(returning("vec_type"@), None, "vec_type"@, "x"@), Some(FunctionParamQualifier::Out), "ivec_type"@, "exp"@),
            ],
            "Assemble a floating-point number from a value and exponent. If this
product is too large to be represented in the floating-point type the
result is undefined."@,
            false,
        ),
        builtin_function(
            "frexp"@,
            seq![
                with_param(with_param(returning("vec_type"@), None, "vec_type"@, "x"@), Some(FunctionParamQualifier::Out), "ivec_type"@, "exp"@),
            ],
            "Splits a floating-point number(x) into significand (in the range of [0.5, 1.0])
and an integral exponent. For x equals zero the significand and exponent are
both zero. For x of infinity or NaN, the results are undefined."@,
            false,
        ),
    ]
}

fn add_functions_13(list: &mut Vec<(String, FunctionInfo)>)
    ensures
        final(list).deep_view() == old(list).deep_view() + builtin_functions_13(),
        final(list).len() == old(list).len() + 5,
{
    let signatures = vec![
        taking(taking(taking(taking(signature("void"), None, "uvec_type", "x"), None, "uvec_type", "y"), Some(FunctionParamQualifier::Out), "uvec_type", "msb"), Some(FunctionParamQualifier::Out), "uvec_type", "lsb"),
    ];
    assert(signatures.deep_view() =~= seq![
        with_param(with_param(with_param(with_param(returning("void"@), None, "uvec_type"@, "x"@), None, "uvec_type"@, "y"@), Some(FunctionParamQualifier::Out), "uvec_type"@, "msb"@), Some(FunctionParamQualifier::Out), "uvec_type"@, "lsb"@),
    ]);
    add_function(list, "umulExtended", signatures, "Multiplies two 32-bit numbers and produce a 64-bit result.
x - the first number. y - the second number.
msb - will contain the most significant bits.
lsb - will contain the least significant bits.", false);
    let signatures = vec![
        taking(taking(taking(signature("uvec_type"), None, "uvec_type", "x"), None, "uvec_type", "y"), Some(FunctionParamQualifier::Out), "uvec_type", "carry"),
    ];
    assert(signatures.deep_view() =~= seq![
        with_param(with_param(with_param(returning("uvec_type"@), None, "uvec_type"@, "x"@), None, "uvec_type"@, "y"@), Some(FunctionParamQualifier::Out), "uvec_type"@, "carry"@),
    ]);
    add_function(list, "uadCarry", signatures, "Adds two unsigned integers and generates carry.", false);
    let signatures = vec![
        taking(taking(taking(signature("uvec_type"), None, "uvec_type", "x"), None, "uvec_type", "y"), Some(FunctionParamQualifier::Out), "uvec_type", "borrow"),
    ];
    assert(signatures.deep_view() =~= seq![
        with_param(with_param(with_param(returning("uvec_type"@), None, "uvec_type"@, "x"@), None, "uvec_type"@, "y"@), Some(FunctionParamQualifier::Out), "uvec_type"@, "borrow"@),
    ]);
    add_function(list, "usubBorrow", signatures, "Subtracts two unsigned integers and generates borrow.", false);
    let signatures = vec![
        taking(taking(signature("vec_type"), None, "vec_type", "x"), Some(FunctionParamQualifier::Out), "ivec_type", "exp"),
    ];
    assert(signatures.deep_view() =~= seq![
        with_param(with_param(returning("vec_type"@), None, "vec_type"@, "x"@), Some(FunctionParamQualifier::Out), "ivec_type"@, "exp"@),
    ]);
    add_function(list, "ldexp", signatures, "Assemble a floating-point number from a value and exponent. If this
product is too large to be represented in the floating-point type the
result is undefined.", false);
    let signatures = vec![
        taking(taking(signature("vec_type"), None, "vec_type", "x"), Some(FunctionParamQualifier::Out), "ivec_type", "exp"),
    ];
    assert(signatures.deep_view() =~= seq![
        with_param(with_param(returning("vec_type"@), None, "vec_type"@, "x"@), Some(FunctionParamQualifier::Out), "ivec_type"@, "exp"@),
    ]);
    add_function(list, "frexp", signatures, "Splits a floating-point number(x) into significand (in the range of [0.5, 1.0])
and an integral exponent. For x equals zero the significand and exponent are
both zero. For x of infinity or NaN, the results are undefined.", false);
    assert(list.deep_view() =~= old(list).deep_view() + builtin_functions_13());
}

/// The built-in functions.
pub open spec fn builtin_function_table() -> SpecTable<SpecFunctionInfo> {
    builtin_functions_1() + builtin_functions_2() + builtin_functions_3() + builtin_functions_4() + builtin_functions_5() + builtin_functions_6() + builtin_functions_7() + builtin_functions_8() + builtin_functions_9() + builtin_functions_10() + builtin_functions_11() + builtin_functions_12() + builtin_functions_13()
}

/// The built-in functions.
pub fn make_builtin_functions() -> (r: Vec<(String, FunctionInfo)>)
    ensures
        r.deep_view() == builtin_function_table(),
        r.len() == 125,
{
    let mut r: Vec<(String, FunctionInfo)> = Vec::new();
    assert(r.deep_view() =~= Seq::empty());
    add_functions_1(&mut r);
    add_functions_2(&mut r);
    add_functions_3(&mut r);
    add_functions_4(&mut r);
    add_functions_5(&mut r);
    add_functions_6(&mut r);
    add_functions_7(&mut r);
    add_functions_8(&mut r);
    add_functions_9(&mut r);
    add_functions_10(&mut r);
    add_functions_11(&mut r);
    add_functions_12(&mut r);
    add_functions_13(&mut r);
    assert(r.deep_view() =~= builtin_function_table());
    r
}

} // verus!

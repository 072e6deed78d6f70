//! Top-level nodes.

use vstd::prelude::*;
use crate::lexer::token::Token;
use crate::lexer::token_stream::TokenError;
use crate::nodes::expression_node::{ExpressionNode, SpecExpression};
use crate::nodes::statement_node::{block_view, BlockNode, SpecStatement};
use crate::nodes::{SpecTypeNode, SpecValueNode, TypeNode, ValueNode};

verus! {

/// A top-level declaration, or why none could be read.
pub type TopLevelResult = Result<TopLevelNode, TokenError>;

/// A top-level declaration.
#[derive(Debug)]
pub enum TopLevelNode {
    ShaderType(ShaderTypeNode),
    RenderMode(RenderModeNode),
    GroupUniforms(GroupUniformsNode),
    Const(ConstNode),
    Varying(VaryingNode),
    Uniform(UniformNode),
    Struct(StructNode),
    Function(FunctionNode),
}

/// The declaration of the kind of shader.
#[derive(Debug)]
pub struct ShaderTypeNode {
    pub keyword: Token,
    pub shader_type: Token,
}

/// The declaration of render modes.
#[derive(Debug)]
pub struct RenderModeNode {
    pub keyword: Token,
    pub render_modes: Vec<Token>,
}

/// A marker that groups the uniforms behind it.
#[derive(Debug)]
pub struct GroupUniformsNode {
    pub keyword: Token,
    pub group: Option<Token>,
    pub subgroup: Option<Token>,
}

/// The declaration of a constant.
#[derive(Debug)]
pub struct ConstNode {
    pub keyword: Token,
    pub precision: Option<Token>,
    pub value: Box<ValueNode>,
    pub expression: Box<ExpressionNode>,
}

/// The declaration of a varying.
#[derive(Debug)]
pub struct VaryingNode {
    pub keyword: Token,
    pub interpolation: Option<Token>,
    pub precision: Option<Token>,
    pub value: Box<ValueNode>,
}

/// The declaration of a uniform.
#[derive(Debug)]
pub struct UniformNode {
    pub global_instance: Option<Token>,
    pub keyword: Token,
    pub precision: Option<Token>,
    pub value: Box<ValueNode>,
    pub hint: Option<HintNode>,
    pub expression: Option<Box<ExpressionNode>>,
}

/// The hint of a uniform.
#[derive(Debug)]
pub struct HintNode {
    pub identifier: Token,
    pub params: Option<Vec<Token>>,
}

/// The declaration of a struct.
#[derive(Debug)]
pub struct StructNode {
    pub keyword: Token,
    pub identifier: Token,
    pub fields: Vec<ValueNode>,
}

/// The declaration of a function.
#[derive(Debug)]
pub struct FunctionNode {
    pub type_node: TypeNode,
    pub identifier: Token,
    pub params: Vec<ParamNode>,
    pub block: BlockNode,
}

/// One parameter of a function.
#[derive(Debug)]
pub struct ParamNode {
    pub qualifier: Option<Token>,
    pub value_node: ValueNode,
}

/// A hint annotation as a mathematical value.
pub struct SpecHint {
    pub identifier: Token,
    pub params: Option<Seq<Token>>,
}

/// A function parameter as a mathematical value.
pub struct SpecParam {
    pub qualifier: Option<Token>,
    pub value_node: SpecValueNode,
}

/// A top-level declaration as a mathematical tree.
#[allow(inconsistent_fields)]
pub enum SpecTopLevel {
    ShaderType { keyword: Token, shader_type: Token },
    RenderMode { keyword: Token, render_modes: Seq<Token> },
    GroupUniforms { keyword: Token, group: Option<Token>, subgroup: Option<Token> },
    Const {
        keyword: Token,
        precision: Option<Token>,
        value: SpecValueNode,
        expression: SpecExpression,
    },
    Varying {
        keyword: Token,
        interpolation: Option<Token>,
        precision: Option<Token>,
        value: SpecValueNode,
    },
    Uniform {
        global_instance: Option<Token>,
        keyword: Token,
        precision: Option<Token>,
        value: SpecValueNode,
        hint: Option<SpecHint>,
        expression: Option<SpecExpression>,
    },
    Struct { keyword: Token, identifier: Token, fields: Seq<SpecValueNode> },
    Function {
        type_node: SpecTypeNode,
        identifier: Token,
        params: Seq<SpecParam>,
        block: SpecStatement,
    },
}

impl View for HintNode {
    type V = SpecHint;

    open spec fn view(&self) -> SpecHint {
        SpecHint {
            identifier: self.identifier,
            params: match self.params {
                Some(p) => Some(p@),
                None => None,
            },
        }
    }
}

impl View for ParamNode {
    type V = SpecParam;

    open spec fn view(&self) -> SpecParam {
        SpecParam { qualifier: self.qualifier, value_node: self.value_node@ }
    }
}

/// The values of a list of typed names.
pub open spec fn values_view(list: Seq<ValueNode>) -> Seq<SpecValueNode> {
    list.map_values(|v: ValueNode| v@)
}

/// The values of a list of parameters.
pub open spec fn params_view(list: Seq<ParamNode>) -> Seq<SpecParam> {
    list.map_values(|p: ParamNode| p@)
}

impl View for TopLevelNode {
    type V = SpecTopLevel;

    open spec fn view(&self) -> SpecTopLevel {
        match *self {
            TopLevelNode::ShaderType(x) => SpecTopLevel::ShaderType {
                keyword: x.keyword,
                shader_type: x.shader_type,
            },
            TopLevelNode::RenderMode(x) => SpecTopLevel::RenderMode {
                keyword: x.keyword,
                render_modes: x.render_modes@,
            },
            TopLevelNode::GroupUniforms(x) => SpecTopLevel::GroupUniforms {
                keyword: x.keyword,
                group: x.group,
                subgroup: x.subgroup,
            },
            TopLevelNode::Const(x) => SpecTopLevel::Const {
                keyword: x.keyword,
                precision: x.precision,
                value: x.value@,
                expression: x.expression@,
            },
            TopLevelNode::Varying(x) => SpecTopLevel::Varying {
                keyword: x.keyword,
                interpolation: x.interpolation,
                precision: x.precision,
                value: x.value@,
            },
            TopLevelNode::Uniform(x) => SpecTopLevel::Uniform {
                global_instance: x.global_instance,
                keyword: x.keyword,
                precision: x.precision,
                value: x.value@,
                hint: match x.hint {
                    Some(h) => Some(h@),
                    None => None,
                },
                expression: match x.expression {
                    Some(e) => Some(e@),
                    None => None,
                },
            },
            TopLevelNode::Struct(x) => SpecTopLevel::Struct {
                keyword: x.keyword,
                identifier: x.identifier,
                fields: values_view(x.fields@),
            },
            TopLevelNode::Function(x) => SpecTopLevel::Function {
                type_node: x.type_node@,
                identifier: x.identifier,
                params: params_view(x.params@),
                block: block_view(x.block),
            },
        }
    }
}

/// The trees of a list of top-level nodes.
pub open spec fn top_levels_view(list: Seq<TopLevelNode>) -> Seq<SpecTopLevel> {
    list.map_values(|n: TopLevelNode| n@)
}

} // verus!

//! The syntax tree: top-level declarations, statements and expressions,
//! each able to report the source range it covers.

use vstd::prelude::*;
use crate::lexer::token::Token;
use crate::lexer::token_stream::TokenError;
use crate::memory::types::{SpecTypeInfo, TypeInfo};
use crate::position::Range;

pub mod expression_node;
pub mod statement_node;
pub mod top_level_nodes;

pub use expression_node::{
    ArrayAccessNode, AssignmentNode, BinaryNode, CallArgumentNode, CallNode, ConditionalNode,
    ExpressionNode, ExpressionResult, IncrementNode, MemberAccessNode, SpecCallArgument,
    SpecExpression, UnaryNode,
};
pub use statement_node::{
    BlockNode, ElseNode, ForNode, IfNode, ReturnNode, SpecStatement, SpecSwitchCase,
    StatementNode, StatementResult, SwitchCaseNode, SwitchNode, VarDeclarationNode, WhileNode,
};
pub use top_level_nodes::{
    ConstNode, FunctionNode, GroupUniformsNode, HintNode, ParamNode, RenderModeNode,
    ShaderTypeNode, SpecHint, SpecParam, SpecTopLevel, StructNode, TopLevelNode, TopLevelResult,
    UniformNode, VaryingNode,
};

verus! {

/// A typed name, or why none could be read.
pub type ValueResult = Result<ValueNode, TokenError>;

/// A type, or why none could be read.
pub type TypeResult = Result<TypeNode, TokenError>;

/// A type as written in the source.
#[derive(Debug)]
pub struct TypeNode {
    pub info: TypeInfo,
    pub range: Range,
}

/// The mathematical value of a [`TypeNode`].
pub struct SpecTypeNode {
    pub info: SpecTypeInfo,
    pub range: Range,
}

impl View for TypeNode {
    type V = SpecTypeNode;

    open spec fn view(&self) -> SpecTypeNode {
        SpecTypeNode { info: self.info@, range: self.range }
    }
}

impl Clone for TypeNode {
    fn clone(&self) -> (r: Self)
        ensures
            r == *self,
    {
        TypeNode { info: self.info.clone(), range: self.range }
    }
}

/// A typed name as written in the source: `type name` or `type name[size]`.
#[derive(Debug)]
pub struct ValueNode {
    pub identifier: Token,
    pub type_node: TypeNode,
    pub range: Range,
}

/// The mathematical value of a [`ValueNode`].
pub struct SpecValueNode {
    pub identifier: Token,
    pub type_node: SpecTypeNode,
    pub range: Range,
}

impl View for ValueNode {
    type V = SpecValueNode;

    open spec fn view(&self) -> SpecValueNode {
        SpecValueNode {
            identifier: self.identifier,
            type_node: self.type_node@,
            range: self.range,
        }
    }
}

impl Clone for ValueNode {
    fn clone(&self) -> (r: Self)
        ensures
            r == *self,
    {
        ValueNode {
            identifier: self.identifier,
            type_node: self.type_node.clone(),
            range: self.range,
        }
    }
}

} // verus!

//! Statement nodes.

use vstd::prelude::*;
use crate::lexer::token::Token;
use crate::lexer::token_stream::TokenError;
use crate::nodes::expression_node::{ExpressionNode, SpecExpression};
use crate::nodes::{SpecValueNode, ValueNode};
use crate::position::Range;

verus! {

/// A statement, or why none could be read.
pub type StatementResult = Result<StatementNode, TokenError>;

/// A statement.
#[derive(Debug)]
pub enum StatementNode {
    VarDeclaration(VarDeclarationNode),
    If(IfNode),
    While(WhileNode),
    For(ForNode),
    Switch(SwitchNode),
    Expression(Box<ExpressionNode>),
    Continue(Token),
    Break(Token),
    Return(ReturnNode),
    Block(BlockNode),
}

/// An ordered sequence of statements; its range is the place of the scope
/// that the block opens.
#[derive(Debug)]
pub struct BlockNode {
    pub range: Range,
    pub statements: Vec<StatementNode>,
}

/// The declaration of a variable or of a local constant.
#[derive(Debug)]
pub struct VarDeclarationNode {
    pub keyword: Option<Token>,
    pub value: Box<ValueNode>,
    pub expression: Option<Box<ExpressionNode>>,
    pub is_const: bool,
}

/// An `if` statement.
#[derive(Debug)]
pub struct IfNode {
    pub keyword: Token,
    pub condition: Box<ExpressionNode>,
    pub action: Box<StatementNode>,
    pub alternate: Option<ElseNode>,
}

/// The `else` branch of an `if` statement.
#[derive(Debug)]
pub struct ElseNode {
    pub keyword: Token,
    pub action: Box<StatementNode>,
}

/// A `while` statement.
#[derive(Debug)]
pub struct WhileNode {
    pub keyword: Token,
    pub condition: Box<ExpressionNode>,
    pub action: Box<StatementNode>,
}

/// A `for` statement.
#[derive(Debug)]
pub struct ForNode {
    pub keyword: Token,
    pub initializer: Box<StatementNode>,
    pub condition: Box<ExpressionNode>,
    pub update: Box<ExpressionNode>,
    pub action: Box<StatementNode>,
}

/// A `switch` statement.
#[derive(Debug)]
pub struct SwitchNode {
    pub keyword: Token,
    pub condition: Box<ExpressionNode>,
    pub cases: Vec<SwitchCaseNode>,
}

/// One arm of a `switch` statement.
#[derive(Debug)]
pub struct SwitchCaseNode {
    pub keyword: Token,
    pub statements: Vec<StatementNode>,
}

/// A `return` statement.
#[derive(Debug)]
pub struct ReturnNode {
    pub keyword: Token,
    pub expression: Option<Box<ExpressionNode>>,
}

/// A statement as a mathematical tree.
#[allow(inconsistent_fields)]
pub enum SpecStatement {
    VarDeclaration {
        keyword: Option<Token>,
        value: SpecValueNode,
        expression: Option<SpecExpression>,
        is_const: bool,
    },
    If {
        keyword: Token,
        condition: SpecExpression,
        action: Box<SpecStatement>,
        alternate: Option<(Token, Box<SpecStatement>)>,
    },
    While { keyword: Token, condition: SpecExpression, action: Box<SpecStatement> },
    For {
        keyword: Token,
        initializer: Box<SpecStatement>,
        condition: SpecExpression,
        update: SpecExpression,
        action: Box<SpecStatement>,
    },
    Switch { keyword: Token, condition: SpecExpression, cases: Seq<SpecSwitchCase> },
    Expression(SpecExpression),
    Continue(Token),
    Break(Token),
    Return { keyword: Token, expression: Option<SpecExpression> },
    Block { range: Range, statements: Seq<SpecStatement> },
}

/// One arm of a switch as a mathematical value.
pub struct SpecSwitchCase {
    pub keyword: Token,
    pub statements: Seq<SpecStatement>,
}

/// The tree that a statement node stands for.
pub open spec fn statement_view(s: StatementNode) -> SpecStatement
    decreases s,
{
    match s {
        StatementNode::VarDeclaration(x) => SpecStatement::VarDeclaration {
            keyword: x.keyword,
            value: x.value@,
            expression: match x.expression {
                Some(e) => Some(e@),
                None => None,
            },
            is_const: x.is_const,
        },
        StatementNode::If(x) => SpecStatement::If {
            keyword: x.keyword,
            condition: x.condition@,
            action: Box::new(statement_view(*x.action)),
            alternate: match x.alternate {
                Some(other) => Some((other.keyword, Box::new(statement_view(*other.action)))),
                None => None,
            },
        },
        StatementNode::While(x) => SpecStatement::While {
            keyword: x.keyword,
            condition: x.condition@,
            action: Box::new(statement_view(*x.action)),
        },
        StatementNode::For(x) => SpecStatement::For {
            keyword: x.keyword,
            initializer: Box::new(statement_view(*x.initializer)),
            condition: x.condition@,
            update: x.update@,
            action: Box::new(statement_view(*x.action)),
        },
        StatementNode::Switch(x) => SpecStatement::Switch {
            keyword: x.keyword,
            condition: x.condition@,
            cases: Seq::new(
                x.cases@.len(),
                |i: int|
                    if 0 <= i < x.cases@.len() {
                        SpecSwitchCase {
                            keyword: x.cases@[i].keyword,
                            statements: Seq::new(
                                x.cases@[i].statements@.len(),
                                |j: int|
                                    if 0 <= j < x.cases@[i].statements@.len() {
                                        statement_view(x.cases@[i].statements@[j])
                                    } else {
                                        arbitrary()
                                    },
                            ),
                        }
                    } else {
                        arbitrary()
                    },
            ),
        },
        StatementNode::Expression(e) => SpecStatement::Expression(e@),
        StatementNode::Continue(t) => SpecStatement::Continue(t),
        StatementNode::Break(t) => SpecStatement::Break(t),
        StatementNode::Return(x) => SpecStatement::Return {
            keyword: x.keyword,
            expression: match x.expression {
                Some(e) => Some(e@),
                None => None,
            },
        },
        StatementNode::Block(b) => SpecStatement::Block {
            range: b.range,
            statements: Seq::new(
                b.statements@.len(),
                |i: int|
                    if 0 <= i < b.statements@.len() {
                        statement_view(b.statements@[i])
                    } else {
                        arbitrary()
                    },
            ),
        },
    }
}

impl View for StatementNode {
    type V = SpecStatement;

    open spec fn view(&self) -> SpecStatement {
        statement_view(*self)
    }
}

/// The trees of a list of statement nodes.
pub open spec fn statements_view(list: Seq<StatementNode>) -> Seq<SpecStatement> {
    list.map_values(|s: StatementNode| s@)
}

impl View for SwitchCaseNode {
    type V = SpecSwitchCase;

    open spec fn view(&self) -> SpecSwitchCase {
        SpecSwitchCase { keyword: self.keyword, statements: statements_view(self.statements@) }
    }
}

/// The values of a list of switch arms.
pub open spec fn cases_view(list: Seq<SwitchCaseNode>) -> Seq<SpecSwitchCase> {
    list.map_values(|c: SwitchCaseNode| c@)
}

/// The statements of a block, as the block statement that holds them.
pub open spec fn block_view(b: BlockNode) -> SpecStatement {
    SpecStatement::Block { range: b.range, statements: statements_view(b.statements@) }
}

/// The view of a block statement is its range and the list of the views of
/// its statements.
pub proof fn lemma_block_view(b: BlockNode)
    ensures
        StatementNode::Block(b)@ == block_view(b),
{
    assert(StatementNode::Block(b)@->Block_statements =~= statements_view(b.statements@));
}

/// The view of a switch statement holds the views of its arms.
pub proof fn lemma_switch_view(x: SwitchNode)
    ensures
        StatementNode::Switch(x)@ == (SpecStatement::Switch {
            keyword: x.keyword,
            condition: x.condition@,
            cases: cases_view(x.cases@),
        }),
{
    let a = StatementNode::Switch(x)@->Switch_cases;
    let b = cases_view(x.cases@);
    assert(a.len() == b.len());
    assert forall|i: int| 0 <= i < a.len() implies a[i] == b[i] by {
        assert(a[i].statements =~= b[i].statements);
    }
    assert(a =~= b);
}

} // verus!

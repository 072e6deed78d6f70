//! Expression nodes.

use vstd::prelude::*;
use crate::lexer::token::Token;
use crate::lexer::token_stream::TokenError;
use crate::position::{Position, Range};

verus! {

/// An expression, or why none could be read.
pub type ExpressionResult = Result<ExpressionNode, TokenError>;

/// An expression.
#[derive(Debug)]
pub enum ExpressionNode {
    Primitive(Token),
    Identifier(Token),
    Unary(UnaryNode),
    Binary(BinaryNode),
    Assignment(AssignmentNode),
    Increment(IncrementNode),
    Paren(Box<ExpressionNode>),
    Conditional(ConditionalNode),
    Call(CallNode),
    ArrayAccess(ArrayAccessNode),
    MemberAccess(MemberAccessNode),
    ArrayLiteral(Vec<ExpressionNode>),
}

/// A prefix operator with its operand.
#[derive(Debug)]
pub struct UnaryNode {
    pub op: Token,
    pub arg: Box<ExpressionNode>,
}

/// A binary operator with its operands.
#[derive(Debug)]
pub struct BinaryNode {
    pub op: Token,
    pub left: Box<ExpressionNode>,
    pub right: Box<ExpressionNode>,
}

/// An assignment operator with its target and its right side.
#[derive(Debug)]
pub struct AssignmentNode {
    pub op: Token,
    pub left: Box<ExpressionNode>,
    pub right: Box<ExpressionNode>,
}

/// `++` or `--`, before or behind its operand.
#[derive(Debug)]
pub struct IncrementNode {
    pub op: Token,
    pub is_prefix: bool,
    pub arg: Box<ExpressionNode>,
}

/// A condition with the expressions for its two outcomes.
#[derive(Debug)]
pub struct ConditionalNode {
    pub condition: Box<ExpressionNode>,
    pub action: Box<ExpressionNode>,
    pub alternate: Box<ExpressionNode>,
}

/// A call: the name and the arguments.
#[derive(Debug)]
pub struct CallNode {
    pub identifier: Token,
    pub args: Vec<CallArgumentNode>,
}

/// One argument of a call.
#[derive(Debug)]
pub struct CallArgumentNode {
    pub qualifier: Option<Token>,
    pub expression: ExpressionNode,
}

/// An indexed value with its index.
#[derive(Debug)]
pub struct ArrayAccessNode {
    pub argument: Box<ExpressionNode>,
    pub index: Box<ExpressionNode>,
}

/// A value with the member selected from it.
#[derive(Debug)]
pub struct MemberAccessNode {
    pub argument: Box<ExpressionNode>,
    pub member: Token,
}

/// An expression as a mathematical tree.
pub enum SpecExpression {
    Primitive(Token),
    Identifier(Token),
    Unary { op: Token, arg: Box<SpecExpression> },
    Binary { op: Token, left: Box<SpecExpression>, right: Box<SpecExpression> },
    Assignment { op: Token, left: Box<SpecExpression>, right: Box<SpecExpression> },
    Increment { op: Token, is_prefix: bool, arg: Box<SpecExpression> },
    Paren(Box<SpecExpression>),
    Conditional {
        condition: Box<SpecExpression>,
        action: Box<SpecExpression>,
        alternate: Box<SpecExpression>,
    },
    Call { identifier: Token, args: Seq<SpecCallArgument> },
    ArrayAccess { argument: Box<SpecExpression>, index: Box<SpecExpression> },
    MemberAccess { argument: Box<SpecExpression>, member: Token },
    ArrayLiteral(Seq<SpecExpression>),
}

/// A call argument as a mathematical value.
pub struct SpecCallArgument {
    pub qualifier: Option<Token>,
    pub expression: SpecExpression,
}

/// The tree that an expression node stands for.
pub open spec fn expression_view(e: ExpressionNode) -> SpecExpression
    decreases e,
{
    match e {
        ExpressionNode::Primitive(t) => SpecExpression::Primitive(t),
        ExpressionNode::Identifier(t) => SpecExpression::Identifier(t),
        ExpressionNode::Unary(x) => SpecExpression::Unary {
            op: x.op,
            arg: Box::new(expression_view(*x.arg)),
        },
        ExpressionNode::Binary(x) => SpecExpression::Binary {
            op: x.op,
            left: Box::new(expression_view(*x.left)),
            right: Box::new(expression_view(*x.right)),
        },
        ExpressionNode::Assignment(x) => SpecExpression::Assignment {
            op: x.op,
            left: Box::new(expression_view(*x.left)),
            right: Box::new(expression_view(*x.right)),
        },
        ExpressionNode::Increment(x) => SpecExpression::Increment {
            op: x.op,
            is_prefix: x.is_prefix,
            arg: Box::new(expression_view(*x.arg)),
        },
        ExpressionNode::Paren(x) => SpecExpression::Paren(Box::new(expression_view(*x))),
        ExpressionNode::Conditional(x) => SpecExpression::Conditional {
            condition: Box::new(expression_view(*x.condition)),
            action: Box::new(expression_view(*x.action)),
            alternate: Box::new(expression_view(*x.alternate)),
        },
        ExpressionNode::Call(x) => SpecExpression::Call {
            identifier: x.identifier,
            args: Seq::new(
                x.args@.len(),
                |i: int|
                    if 0 <= i < x.args@.len() {
                        SpecCallArgument {
                            qualifier: x.args@[i].qualifier,
                            expression: expression_view(x.args@[i].expression),
                        }
                    } else {
                        arbitrary()
                    },
            ),
        },
        ExpressionNode::ArrayAccess(x) => SpecExpression::ArrayAccess {
            argument: Box::new(expression_view(*x.argument)),
            index: Box::new(expression_view(*x.index)),
        },
        ExpressionNode::MemberAccess(x) => SpecExpression::MemberAccess {
            argument: Box::new(expression_view(*x.argument)),
            member: x.member,
        },
        ExpressionNode::ArrayLiteral(v) => SpecExpression::ArrayLiteral(
            Seq::new(
                v@.len(),
                |i: int|
                    if 0 <= i < v@.len() {
                        expression_view(v@[i])
                    } else {
                        arbitrary()
                    },
            ),
        ),
    }
}

impl View for ExpressionNode {
    type V = SpecExpression;

    open spec fn view(&self) -> SpecExpression {
        expression_view(*self)
    }
}

impl View for CallArgumentNode {
    type V = SpecCallArgument;

    open spec fn view(&self) -> SpecCallArgument {
        SpecCallArgument { qualifier: self.qualifier, expression: self.expression@ }
    }
}

/// The trees of a list of expression nodes.
pub open spec fn expressions_view(list: Seq<ExpressionNode>) -> Seq<SpecExpression> {
    list.map_values(|e: ExpressionNode| e@)
}

/// The values of a list of call arguments.
pub open spec fn arguments_view(list: Seq<CallArgumentNode>) -> Seq<SpecCallArgument> {
    list.map_values(|a: CallArgumentNode| a@)
}

/// The view of an array literal is the list of the views of its elements.
pub proof fn lemma_array_literal_view(v: Vec<ExpressionNode>)
    ensures
        ExpressionNode::ArrayLiteral(v)@ == SpecExpression::ArrayLiteral(expressions_view(v@)),
{
    assert(ExpressionNode::ArrayLiteral(v)@->ArrayLiteral_0 =~= expressions_view(v@));
}

/// The view of a call is its name and the list of the views of its
/// arguments.
pub proof fn lemma_call_view(x: CallNode)
    ensures
        ExpressionNode::Call(x)@ == (SpecExpression::Call {
            identifier: x.identifier,
            args: arguments_view(x.args@),
        }),
{
    assert(ExpressionNode::Call(x)@->Call_args =~= arguments_view(x.args@));
}

/// The range from the start of one range to the end of another.
pub open spec fn join(first: Range, last: Range) -> Range {
    Range { start: first.start, end: last.end }
}

/// The source range of an expression, composed from the ranges of its
/// tokens and operands. An array literal without elements has nothing to
/// compose and reports the empty range at the origin.
pub open spec fn expression_range(e: SpecExpression) -> Range
    decreases e,
{
    match e {
        SpecExpression::Primitive(t) => t.range,
        SpecExpression::Identifier(t) => t.range,
        SpecExpression::Paren(x) => expression_range(*x),
        SpecExpression::Unary { op, arg } => join(op.range, expression_range(*arg)),
        SpecExpression::Binary { op, left, right } => join(
            expression_range(*left),
            expression_range(*right),
        ),
        SpecExpression::Assignment { op, left, right } => join(
            expression_range(*left),
            expression_range(*right),
        ),
        SpecExpression::MemberAccess { argument, member } => join(
            expression_range(*argument),
            member.range,
        ),
        SpecExpression::ArrayAccess { argument, index } => join(
            expression_range(*argument),
            expression_range(*index),
        ),
        SpecExpression::Conditional { condition, action, alternate } => join(
            expression_range(*condition),
            expression_range(*alternate),
        ),
        SpecExpression::Increment { op, is_prefix, arg } => if is_prefix {
            join(op.range, expression_range(*arg))
        } else {
            join(expression_range(*arg), op.range)
        },
        SpecExpression::ArrayLiteral(items) => if items.len() == 0 {
            Range {
                start: Position { line: 0, character: 0 },
                end: Position { line: 0, character: 0 },
            }
        } else {
            join(expression_range(items[0]), expression_range(items[items.len() - 1]))
        },
        SpecExpression::Call { identifier, args } => if args.len() == 0 {
            identifier.range
        } else {
            join(identifier.range, expression_range(args[args.len() - 1].expression))
        },
    }
}

impl ExpressionNode {
    /// The source range of the expression.
    pub fn range(&self) -> (r: Range)
        ensures
            r == expression_range(self@),
        decreases self,
    {
        match self {
            ExpressionNode::Primitive(x) => x.range,
            ExpressionNode::Identifier(x) => x.range,
            ExpressionNode::Paren(x) => x.range(),
            ExpressionNode::Unary(x) => Range::new(x.op.range.start, x.arg.range().end),
            ExpressionNode::Binary(x) => Range::new(x.left.range().start, x.right.range().end),
            ExpressionNode::Assignment(x) => Range::new(
                x.left.range().start,
                x.right.range().end,
            ),
            ExpressionNode::MemberAccess(x) => Range::new(
                x.argument.range().start,
                x.member.range.end,
            ),
            ExpressionNode::ArrayAccess(x) => Range::new(
                x.argument.range().start,
                x.index.range().end,
            ),
            ExpressionNode::Conditional(x) => Range::new(
                x.condition.range().start,
                x.alternate.range().end,
            ),
            ExpressionNode::Increment(x) => if x.is_prefix {
                Range::new(x.op.range.start, x.arg.range().end)
            } else {
                Range::new(x.arg.range().start, x.op.range.end)
            },
            ExpressionNode::ArrayLiteral(x) => {
                if x.len() == 0 {
                    Range::default()
                } else {
                    let start = x[0].range().start;
                    let end = x[x.len() - 1].range().end;
                    Range::new(start, end)
                }
            },
            ExpressionNode::Call(x) => {
                if x.args.len() == 0 {
                    x.identifier.range
                } else {
                    let last = &x.args[x.args.len() - 1];
                    Range::new(x.identifier.range.start, last.expression.range().end)
                }
            },
        }
    }
}

/// A copy of a list of expressions.
fn copy_expressions(list: &Vec<ExpressionNode>) -> (r: Vec<ExpressionNode>)
    ensures
        expressions_view(r@) == expressions_view(list@),
    decreases list,
{
    let mut out: Vec<ExpressionNode> = Vec::new();
    let mut i: usize = 0;
    while i < list.len()
        invariant
            i <= list.len(),
            out.len() == i,
            forall|j: int| 0 <= j < i ==> out@[j]@ == list@[j]@,
        decreases list.len() - i,
    {
        out.push(copy_expression(&list[i]));
        i += 1;
    }
    assert(expressions_view(out@) =~= expressions_view(list@));
    out
}

/// A copy of a list of call arguments.
fn copy_arguments(list: &Vec<CallArgumentNode>) -> (r: Vec<CallArgumentNode>)
    ensures
        arguments_view(r@) == arguments_view(list@),
    decreases list,
{
    let mut out: Vec<CallArgumentNode> = Vec::new();
    let mut i: usize = 0;
    while i < list.len()
        invariant
            i <= list.len(),
            out.len() == i,
            forall|j: int| 0 <= j < i ==> out@[j]@ == list@[j]@,
        decreases list.len() - i,
    {
        let item = &list[i];
        out.push(
            CallArgumentNode {
                qualifier: item.qualifier,
                expression: copy_expression(&item.expression),
            },
        );
        i += 1;
    }
    assert(arguments_view(out@) =~= arguments_view(list@));
    out
}

/// A copy of an expression: a new tree with the same view.
pub fn copy_expression(e: &ExpressionNode) -> (r: ExpressionNode)
    ensures
        r@ == e@,
    decreases e,
{
    match e {
        ExpressionNode::Primitive(t) => ExpressionNode::Primitive(*t),
        ExpressionNode::Identifier(t) => ExpressionNode::Identifier(*t),
        ExpressionNode::Unary(x) => ExpressionNode::Unary(
            UnaryNode { op: x.op, arg: Box::new(copy_expression(&x.arg)) },
        ),
        ExpressionNode::Binary(x) => ExpressionNode::Binary(
            BinaryNode {
                op: x.op,
                left: Box::new(copy_expression(&x.left)),
                right: Box::new(copy_expression(&x.right)),
            },
        ),
        ExpressionNode::Assignment(x) => ExpressionNode::Assignment(
            AssignmentNode {
                op: x.op,
                left: Box::new(copy_expression(&x.left)),
                right: Box::new(copy_expression(&x.right)),
            },
        ),
        ExpressionNode::Increment(x) => ExpressionNode::Increment(
            IncrementNode {
                op: x.op,
                is_prefix: x.is_prefix,
                arg: Box::new(copy_expression(&x.arg)),
            },
        ),
        ExpressionNode::Paren(x) => ExpressionNode::Paren(Box::new(copy_expression(x))),
        ExpressionNode::Conditional(x) => ExpressionNode::Conditional(
            ConditionalNode {
                condition: Box::new(copy_expression(&x.condition)),
                action: Box::new(copy_expression(&x.action)),
                alternate: Box::new(copy_expression(&x.alternate)),
            },
        ),
        ExpressionNode::Call(x) => {
            let args = copy_arguments(&x.args);
            let node = CallNode { identifier: x.identifier, args };
            proof {
                lemma_call_view(node);
                lemma_call_view(*x);
            }
            ExpressionNode::Call(node)
        },
        ExpressionNode::ArrayAccess(x) => ExpressionNode::ArrayAccess(
            ArrayAccessNode {
                argument: Box::new(copy_expression(&x.argument)),
                index: Box::new(copy_expression(&x.index)),
            },
        ),
        ExpressionNode::MemberAccess(x) => ExpressionNode::MemberAccess(
            MemberAccessNode { argument: Box::new(copy_expression(&x.argument)), member: x.member },
        ),
        ExpressionNode::ArrayLiteral(v) => {
            let items = copy_expressions(v);
            proof {
                lemma_array_literal_view(items);
                lemma_array_literal_view(*v);
            }
            ExpressionNode::ArrayLiteral(items)
        },
    }
}

impl Clone for ExpressionNode {
    fn clone(&self) -> (r: Self)
        ensures
            r@ == self@,
    {
        copy_expression(self)
    }
}

} // verus!

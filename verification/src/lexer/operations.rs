//! Operator classes: which kind of operands an operator token accepts.

use vstd::prelude::*;
use crate::lexer::token::{Token, TokenKind};

verus! {

/// The class of an operator: what it demands of its operands.
#[derive(Clone, Copy, Debug, PartialEq, Eq, Structural)]
pub enum OperationType {
    Comparison,
    Equal,
    Number,
    Int,
    Bool,
}

/// The class of a token kind used as a prefix operator.
pub open spec fn unary_op_of(kind: TokenKind) -> Option<OperationType> {
    match kind {
        TokenKind::Plus | TokenKind::Dash => Some(OperationType::Number),
        TokenKind::Bang => Some(OperationType::Bool),
        TokenKind::Tilde => Some(OperationType::Int),
        _ => None,
    }
}

/// The class of a token kind used between two operands.
pub open spec fn binary_op_of(kind: TokenKind) -> Option<OperationType> {
    match kind {
        TokenKind::LeftOp
        | TokenKind::RightOp
        | TokenKind::Percent
        | TokenKind::VerticalBar
        | TokenKind::Caret
        | TokenKind::Ampersand => Some(OperationType::Int),
        TokenKind::LeqOp
        | TokenKind::GeqOp
        | TokenKind::LeftAngle
        | TokenKind::RightAngle
        | TokenKind::And
        | TokenKind::Or => Some(OperationType::Comparison),
        TokenKind::Plus | TokenKind::Dash | TokenKind::Star | TokenKind::Slash => Some(
            OperationType::Number,
        ),
        TokenKind::EqOp | TokenKind::NeqOp => Some(OperationType::Equal),
        _ => None,
    }
}

/// The class of a token kind used as an assignment operator.
pub open spec fn assignment_op_of(kind: TokenKind) -> Option<OperationType> {
    match kind {
        TokenKind::AddAssign
        | TokenKind::SubAssign
        | TokenKind::MulAssign
        | TokenKind::DivAssign
        | TokenKind::ModAssign => Some(OperationType::Number),
        TokenKind::Equal => Some(OperationType::Equal),
        _ => None,
    }
}

/// A token that may stand for an operator.
pub trait MaybeOperator {
    spec fn unary_op(&self) -> Option<OperationType>;

    spec fn binary_op(&self) -> Option<OperationType>;

    spec fn assignment_op(&self) -> Option<OperationType>;

    fn to_unary_op(&self) -> (r: Option<OperationType>)
        ensures
            r == self.unary_op(),
    ;

    fn to_binary_op(&self) -> (r: Option<OperationType>)
        ensures
            r == self.binary_op(),
    ;

    fn to_assignment_op(&self) -> (r: Option<OperationType>)
        ensures
            r == self.assignment_op(),
    ;
}

impl MaybeOperator for Token {
    open spec fn unary_op(&self) -> Option<OperationType> {
        unary_op_of(self.kind)
    }

    open spec fn binary_op(&self) -> Option<OperationType> {
        binary_op_of(self.kind)
    }

    open spec fn assignment_op(&self) -> Option<OperationType> {
        assignment_op_of(self.kind)
    }

    fn to_unary_op(&self) -> (r: Option<OperationType>) {
        match self.kind {
            TokenKind::Plus | TokenKind::Dash => Some(OperationType::Number),
            TokenKind::Bang => Some(OperationType::Bool),
            TokenKind::Tilde => Some(OperationType::Int),
            _ => None,
        }
    }

    fn to_binary_op(&self) -> (r: Option<OperationType>) {
        match self.kind {
            TokenKind::LeftOp
            | TokenKind::RightOp
            | TokenKind::Percent
            | TokenKind::VerticalBar
            | TokenKind::Caret
            | TokenKind::Ampersand => Some(OperationType::Int),
            TokenKind::LeqOp
            | TokenKind::GeqOp
            | TokenKind::LeftAngle
            | TokenKind::RightAngle
            | TokenKind::And
            | TokenKind::Or => Some(OperationType::Comparison),
            TokenKind::Plus | TokenKind::Dash | TokenKind::Star | TokenKind::Slash => Some(
                OperationType::Number,
            ),
            TokenKind::EqOp | TokenKind::NeqOp => Some(OperationType::Equal),
            _ => None,
        }
    }

    fn to_assignment_op(&self) -> (r: Option<OperationType>) {
        match self.kind {
            TokenKind::AddAssign
            | TokenKind::SubAssign
            | TokenKind::MulAssign
            | TokenKind::DivAssign
            | TokenKind::ModAssign => Some(OperationType::Number),
            TokenKind::Equal => Some(OperationType::Equal),
            _ => None,
        }
    }
}

/// No token kind is both a binary and an assignment operator, so the
/// order in which a parser tries the two does not matter.
pub proof fn lemma_binary_and_assignment_disjoint(kind: TokenKind)
    ensures
        !(binary_op_of(kind) is Some && assignment_op_of(kind) is Some),
{
}

} // verus!

//! Tokens: a kind and the range of source text it covers.

use vstd::prelude::*;
use crate::position::Range;

verus! {

/// The closed set of token kinds. `Comment` and `Newline` name lexical
/// classes that the lexer skips; `Error` stands for a character that starts
/// no token.
#[derive(Clone, Copy, Debug, PartialEq, Eq, Structural)]
pub enum TokenKind {
    Include,
    ShaderType,
    RenderMode,
    GroupUniforms,
    Global,
    Instance,
    Const,
    Uniform,
    Varying,
    Struct,
    Void,
    Break,
    Continue,
    While,
    Do,
    Else,
    For,
    If,
    Discard,
    Return,
    Switch,
    Case,
    Default,
    In,
    Out,
    InOut,
    Interpolation,
    Precision,
    AddAssign,
    SubAssign,
    MulAssign,
    DivAssign,
    ModAssign,
    Increment,
    Decrement,
    And,
    Or,
    LeftOp,
    RightOp,
    LeqOp,
    GeqOp,
    EqOp,
    NeqOp,
    Equal,
    Bang,
    Dash,
    Tilde,
    Plus,
    Star,
    Slash,
    Percent,
    LeftAngle,
    RightAngle,
    VerticalBar,
    Caret,
    Ampersand,
    Question,
    LeftParen,
    RightParen,
    LeftBracket,
    RightBracket,
    LeftBrace,
    RightBrace,
    Dot,
    Comma,
    Colon,
    Semicolon,
    Identifier,
    IntConstant,
    UintConstant,
    FloatConstant,
    BoolConstant,
    String,
    Comment,
    Newline,
    Error,
}

/// The name of a token kind, as it appears in messages.
pub open spec fn kind_name(kind: TokenKind) -> Seq<char> {
    match kind {
        TokenKind::Include => "Include"@,
        TokenKind::ShaderType => "ShaderType"@,
        TokenKind::RenderMode => "RenderMode"@,
        TokenKind::GroupUniforms => "GroupUniforms"@,
        TokenKind::Global => "Global"@,
        TokenKind::Instance => "Instance"@,
        TokenKind::Const => "Const"@,
        TokenKind::Uniform => "Uniform"@,
        TokenKind::Varying => "Varying"@,
        TokenKind::Struct => "Struct"@,
        TokenKind::Void => "Void"@,
        TokenKind::Break => "Break"@,
        TokenKind::Continue => "Continue"@,
        TokenKind::While => "While"@,
        TokenKind::Do => "Do"@,
        TokenKind::Else => "Else"@,
        TokenKind::For => "For"@,
        TokenKind::If => "If"@,
        TokenKind::Discard => "Discard"@,
        TokenKind::Return => "Return"@,
        TokenKind::Switch => "Switch"@,
        TokenKind::Case => "Case"@,
        TokenKind::Default => "Default"@,
        TokenKind::In => "In"@,
        TokenKind::Out => "Out"@,
        TokenKind::InOut => "InOut"@,
        TokenKind::Interpolation => "Interpolation"@,
        TokenKind::Precision => "Precision"@,
        TokenKind::AddAssign => "AddAssign"@,
        TokenKind::SubAssign => "SubAssign"@,
        TokenKind::MulAssign => "MulAssign"@,
        TokenKind::DivAssign => "DivAssign"@,
        TokenKind::ModAssign => "ModAssign"@,
        TokenKind::Increment => "Increment"@,
        TokenKind::Decrement => "Decrement"@,
        TokenKind::And => "And"@,
        TokenKind::Or => "Or"@,
        TokenKind::LeftOp => "LeftOp"@,
        TokenKind::RightOp => "RightOp"@,
        TokenKind::LeqOp => "LeqOp"@,
        TokenKind::GeqOp => "GeqOp"@,
        TokenKind::EqOp => "EqOp"@,
        TokenKind::NeqOp => "NeqOp"@,
        TokenKind::Equal => "Equal"@,
        TokenKind::Bang => "Bang"@,
        TokenKind::Dash => "Dash"@,
        TokenKind::Tilde => "Tilde"@,
        TokenKind::Plus => "Plus"@,
        TokenKind::Star => "Star"@,
        TokenKind::Slash => "Slash"@,
        TokenKind::Percent => "Percent"@,
        TokenKind::LeftAngle => "LeftAngle"@,
        TokenKind::RightAngle => "RightAngle"@,
        TokenKind::VerticalBar => "VerticalBar"@,
        TokenKind::Caret => "Caret"@,
        TokenKind::Ampersand => "Ampersand"@,
        TokenKind::Question => "Question"@,
        TokenKind::LeftParen => "LeftParen"@,
        TokenKind::RightParen => "RightParen"@,
        TokenKind::LeftBracket => "LeftBracket"@,
        TokenKind::RightBracket => "RightBracket"@,
        TokenKind::LeftBrace => "LeftBrace"@,
        TokenKind::RightBrace => "RightBrace"@,
        TokenKind::Dot => "Dot"@,
        TokenKind::Comma => "Comma"@,
        TokenKind::Colon => "Colon"@,
        TokenKind::Semicolon => "Semicolon"@,
        TokenKind::Identifier => "Identifier"@,
        TokenKind::IntConstant => "IntConstant"@,
        TokenKind::UintConstant => "UintConstant"@,
        TokenKind::FloatConstant => "FloatConstant"@,
        TokenKind::BoolConstant => "BoolConstant"@,
        TokenKind::String => "String"@,
        TokenKind::Comment => "Comment"@,
        TokenKind::Newline => "Newline"@,
        TokenKind::Error => "Error"@,
    }
}

impl TokenKind {
    /// The kind's name.
    pub fn as_ref(&self) -> (r: &'static str)
        ensures
            r@ == kind_name(*self),
    {
        match self {
            TokenKind::Include => "Include",
            TokenKind::ShaderType => "ShaderType",
            TokenKind::RenderMode => "RenderMode",
            TokenKind::GroupUniforms => "GroupUniforms",
            TokenKind::Global => "Global",
            TokenKind::Instance => "Instance",
            TokenKind::Const => "Const",
            TokenKind::Uniform => "Uniform",
            TokenKind::Varying => "Varying",
            TokenKind::Struct => "Struct",
            TokenKind::Void => "Void",
            TokenKind::Break => "Break",
            TokenKind::Continue => "Continue",
            TokenKind::While => "While",
            TokenKind::Do => "Do",
            TokenKind::Else => "Else",
            TokenKind::For => "For",
            TokenKind::If => "If",
            TokenKind::Discard => "Discard",
            TokenKind::Return => "Return",
            TokenKind::Switch => "Switch",
            TokenKind::Case => "Case",
            TokenKind::Default => "Default",
            TokenKind::In => "In",
            TokenKind::Out => "Out",
            TokenKind::InOut => "InOut",
            TokenKind::Interpolation => "Interpolation",
            TokenKind::Precision => "Precision",
            TokenKind::AddAssign => "AddAssign",
            TokenKind::SubAssign => "SubAssign",
            TokenKind::MulAssign => "MulAssign",
            TokenKind::DivAssign => "DivAssign",
            TokenKind::ModAssign => "ModAssign",
            TokenKind::Increment => "Increment",
            TokenKind::Decrement => "Decrement",
            TokenKind::And => "And",
            TokenKind::Or => "Or",
            TokenKind::LeftOp => "LeftOp",
            TokenKind::RightOp => "RightOp",
            TokenKind::LeqOp => "LeqOp",
            TokenKind::GeqOp => "GeqOp",
            TokenKind::EqOp => "EqOp",
            TokenKind::NeqOp => "NeqOp",
            TokenKind::Equal => "Equal",
            TokenKind::Bang => "Bang",
            TokenKind::Dash => "Dash",
            TokenKind::Tilde => "Tilde",
            TokenKind::Plus => "Plus",
            TokenKind::Star => "Star",
            TokenKind::Slash => "Slash",
            TokenKind::Percent => "Percent",
            TokenKind::LeftAngle => "LeftAngle",
            TokenKind::RightAngle => "RightAngle",
            TokenKind::VerticalBar => "VerticalBar",
            TokenKind::Caret => "Caret",
            TokenKind::Ampersand => "Ampersand",
            TokenKind::Question => "Question",
            TokenKind::LeftParen => "LeftParen",
            TokenKind::RightParen => "RightParen",
            TokenKind::LeftBracket => "LeftBracket",
            TokenKind::RightBracket => "RightBracket",
            TokenKind::LeftBrace => "LeftBrace",
            TokenKind::RightBrace => "RightBrace",
            TokenKind::Dot => "Dot",
            TokenKind::Comma => "Comma",
            TokenKind::Colon => "Colon",
            TokenKind::Semicolon => "Semicolon",
            TokenKind::Identifier => "Identifier",
            TokenKind::IntConstant => "IntConstant",
            TokenKind::UintConstant => "UintConstant",
            TokenKind::FloatConstant => "FloatConstant",
            TokenKind::BoolConstant => "BoolConstant",
            TokenKind::String => "String",
            TokenKind::Comment => "Comment",
            TokenKind::Newline => "Newline",
            TokenKind::Error => "Error",
        }
    }
}

/// A token: immutable once produced.
#[derive(Clone, Copy, Debug, PartialEq, Eq, Structural)]
pub struct Token {
    pub kind: TokenKind,
    pub range: Range,
}

} // verus!

//! The type checker: walks the syntax tree against the semantic
//! environment, reporting what does not fit.

use vstd::prelude::*;
use vstd::string::*;
use crate::lexer::operations::OperationType;
use crate::lexer::token::Token;
use crate::memory::types::{
    generic_type_of, lemma_pieces_round_trip, name_of_pieces, plain_type, type_eq, type_text,
    GenericSize, Primitive, SpecTypeInfo, TypeInfo,
};
use crate::memory::{Memory, SpecMemory};
use crate::nodes::expression_node::{expression_range, ExpressionNode, SpecExpression};
use crate::nodes::{SpecTypeNode, SpecValueNode, TypeNode, ValueNode};
use crate::position::Range;
use crate::source_code::{error_at, SpecDiagnostic};
use crate::interpreter::expression_interpreter::{arity_of, evaluate, expression_ok};
use crate::text::{concat2, concat3, concat5};

pub mod expression_interpreter;
pub mod statement_interpreter;
pub mod top_level_interpreter;

pub use expression_interpreter::{
    evaluate_expression, type_of, ExprEvalResult, ExpressionEvaluation, SpecEvaluation,
};
pub use statement_interpreter::{after_statement, eval_block, evaluate_statement};
pub use top_level_interpreter::{
    after_top_level, after_top_levels, evaluate_all, evaluate_const, evaluate_function,
    evaluate_render_mode, evaluate_shader_type, evaluate_struct, evaluate_top_level_node,
    evaluate_uniform, evaluate_varying, top_level_ok,
};

verus! {

/// Why an evaluation failed.
#[derive(Clone, Copy, Debug, PartialEq, Eq, Structural)]
pub enum EvaluateError {
    Warning,
    SemanticsError,
}

/// What evaluating a statement or a declaration gives.
pub type EvaluateResult = Result<(), EvaluateError>;

/// The pattern of the member names that select components of a vector of
/// `base_length` components: one to four letters, all from one of the
/// three alphabets, cut to the components that the vector has.
pub open spec fn swizzle_pattern(base_length: int) -> Seq<char> {
    if base_length == 2 {
        "^(?:[xy]{1,4}|[rg]{1,4}|[st]{1,4})$"@
    } else if base_length == 3 {
        "^(?:[xyz]{1,4}|[rgb]{1,4}|[stp]{1,4})$"@
    } else {
        "^(?:[xyzw]{1,4}|[rgba]{1,4}|[stpq]{1,4})$"@
    }
}

/// Whether every character of `text` is one of `letters`.
pub open spec fn within(text: Seq<char>, letters: Seq<char>) -> bool {
    forall|i: int| 0 <= i < text.len() ==> letters.contains(#[trigger] text[i])
}

/// Whether `text` has one to four characters, all of them from `first`,
/// all of them from `second`, or all of them from `third`.
pub open spec fn one_alphabet(
    text: Seq<char>,
    first: Seq<char>,
    second: Seq<char>,
    third: Seq<char>,
) -> bool {
    1 <= text.len() <= 4 && (within(text, first) || within(text, second) || within(text, third))
}

/// Whether `text` selects components of a vector of `base_length`
/// components: one to four letters, all from one of the three alphabets,
/// cut to the components that the vector has.
pub open spec fn is_swizzle(text: Seq<char>, base_length: int) -> bool {
    if base_length == 2 {
        one_alphabet(text, "xy"@, "rg"@, "st"@)
    } else if base_length == 3 {
        one_alphabet(text, "xyz"@, "rgb"@, "stp"@)
    } else {
        one_alphabet(text, "xyzw"@, "rgba"@, "stpq"@)
    }
}

/// Compiles `pattern` with `regex::Regex::new` and asks `Regex::is_match`
/// whether `text` matches it; `None` where the pattern does not compile.
/// The contract speaks of three patterns only. Each is anchored at both
/// ends of the text and offers three classes of letters, one to four
/// times: the text matches exactly if it has one to four characters and
/// one of the classes holds them all. Of other patterns nothing is
/// claimed.
#[verifier::external_body]
fn regex_is_match(pattern: &str, text: &str) -> (r: Option<bool>)
    ensures
        pattern@ == swizzle_pattern(2) ==> r == Some(is_swizzle(text@, 2)),
        pattern@ == swizzle_pattern(3) ==> r == Some(is_swizzle(text@, 3)),
        pattern@ == swizzle_pattern(4) ==> r == Some(is_swizzle(text@, 4)),
{
    match regex::Regex::new(pattern) {
        Ok(re) => Some(re.is_match(text)),
        Err(_) => None,
    }
}

/// The shape of a value of `length` components, for `length` from 1 to 4.
pub open spec fn shape_of_length(length: int) -> GenericSize {
    if length == 1 {
        GenericSize::Number
    } else if length == 2 {
        GenericSize::GVec2Type
    } else if length == 3 {
        GenericSize::GVec3Type
    } else {
        GenericSize::GVec4Type
    }
}

/// The type that a member name of `length` letters selects from a vector,
/// given the outcome of matching the name against the vector's pattern:
/// as many components as the name has letters, of the vector's element
/// type.
pub open spec fn swizzle_type(matched: Option<bool>, length: int, base_type: Primitive) -> Option<
    SpecTypeInfo,
> {
    if matched == Some(true) && 1 <= length <= 4 {
        Some(plain_type(name_of_pieces(base_type, shape_of_length(length))))
    } else {
        None
    }
}

/// The type that a member name of `length` letters selects, given the
/// outcome of matching it against the vector's pattern.
pub fn swizzle_result(matched: Option<bool>, length: usize, base_type: Primitive) -> (r: Option<
    TypeInfo,
>)
    ensures
        r.deep_view() == swizzle_type(matched, length as int, base_type),
{
    match matched {
        Some(true) => {
            if 1 <= length && length <= 4 {
                let shape = if length == 1 {
                    GenericSize::Number
                } else if length == 2 {
                    GenericSize::GVec2Type
                } else if length == 3 {
                    GenericSize::GVec3Type
                } else {
                    GenericSize::GVec4Type
                };
                Some(TypeInfo::from_pieces(base_type, shape))
            } else {
                None
            }
        },
        _ => None,
    }
}

/// The type that the member name `member` selects from a vector of
/// `base_length` components of type `base_type`: none unless the name has
/// one to four letters from one alphabet; else as many components as the
/// name has letters, of the vector's element type.
pub open spec fn swizzle_of(member: Seq<char>, base_type: Primitive, base_length: int) -> Option<
    SpecTypeInfo,
> {
    if is_swizzle(member, base_length) {
        Some(plain_type(name_of_pieces(base_type, shape_of_length(member.len() as int))))
    } else {
        None
    }
}

/// The type that the member name `swizzle` selects from a vector of
/// `base_length` components of type `base_type`, if it selects any.
pub fn eval_swizzle(swizzle: &str, base_type: Primitive, base_length: usize) -> (r: Option<
    TypeInfo,
>)
    requires
        2 <= base_length <= 4,
    ensures
        r.deep_view() == swizzle_of(swizzle@, base_type, base_length as int),
{
    let pattern = if base_length == 2 {
        "^(?:[xy]{1,4}|[rg]{1,4}|[st]{1,4})$"
    } else if base_length == 3 {
        "^(?:[xyz]{1,4}|[rgb]{1,4}|[stp]{1,4})$"
    } else {
        "^(?:[xyzw]{1,4}|[rgba]{1,4}|[stpq]{1,4})$"
    };
    let matched = regex_is_match(pattern, swizzle);
    swizzle_result(matched, swizzle.unicode_len(), base_type)
}

/// Which of the three alphabets a letter belongs to: 0, 1 or 2, and 3
/// for a character that names no component.
pub open spec fn alphabet_of(letter: char) -> int {
    if letter == 'x' || letter == 'y' || letter == 'z' || letter == 'w' {
        0
    } else if letter == 'r' || letter == 'g' || letter == 'b' || letter == 'a' {
        1
    } else if letter == 's' || letter == 't' || letter == 'p' || letter == 'q' {
        2
    } else {
        3
    }
}

/// The place of a letter in its alphabet, from 0 to 3.
pub open spec fn component_of(letter: char) -> int {
    if letter == 'x' || letter == 'r' || letter == 's' {
        0
    } else if letter == 'y' || letter == 'g' || letter == 't' {
        1
    } else if letter == 'z' || letter == 'b' || letter == 'p' {
        2
    } else {
        3
    }
}

/// What the alphabets hold, letter by letter: a name selects components of
/// a vector exactly if it has one to four letters, all of one alphabet,
/// each naming a component that the vector has.
pub proof fn lemma_swizzle_letters(member: Seq<char>, base_length: int)
    requires
        2 <= base_length <= 4,
    ensures
        is_swizzle(member, base_length) <==> {
            &&& 1 <= member.len() <= 4
            &&& alphabet_of(member[0]) < 3
            &&& forall|i: int|
                0 <= i < member.len() ==> alphabet_of(#[trigger] member[i]) == alphabet_of(
                    member[0],
                ) && component_of(member[i]) < base_length
        },
{
    reveal_strlit("xy");
    reveal_strlit("rg");
    reveal_strlit("st");
    reveal_strlit("xyz");
    reveal_strlit("rgb");
    reveal_strlit("stp");
    reveal_strlit("xyzw");
    reveal_strlit("rgba");
    reveal_strlit("stpq");
    let first = if base_length == 2 {
        "xy"@
    } else if base_length == 3 {
        "xyz"@
    } else {
        "xyzw"@
    };
    let second = if base_length == 2 {
        "rg"@
    } else if base_length == 3 {
        "rgb"@
    } else {
        "rgba"@
    };
    let third = if base_length == 2 {
        "st"@
    } else if base_length == 3 {
        "stp"@
    } else {
        "stpq"@
    };
    assert forall|i: int| 0 <= i < member.len() implies (first.contains(#[trigger] member[i])
        <==> alphabet_of(member[i]) == 0 && component_of(member[i]) < base_length) && (
    second.contains(member[i]) <==> alphabet_of(member[i]) == 1 && component_of(member[i])
        < base_length) && (third.contains(member[i]) <==> alphabet_of(member[i]) == 2
        && component_of(member[i]) < base_length) by {
        lemma_letters_of(first, member[i]);
        lemma_letters_of(second, member[i]);
        lemma_letters_of(third, member[i]);
    }
    assert(is_swizzle(member, base_length) == one_alphabet(member, first, second, third));
    if 1 <= member.len() <= 4 {
        let lead = member[0];
        if within(member, first) || within(member, second) || within(member, third) {
            assert(first.contains(lead) || second.contains(lead) || third.contains(lead));
        }
        if alphabet_of(lead) < 3 && (forall|i: int|
            0 <= i < member.len() ==> alphabet_of(#[trigger] member[i]) == alphabet_of(lead)
                && component_of(member[i]) < base_length) {
            if alphabet_of(lead) == 0 {
                assert(within(member, first));
            } else if alphabet_of(lead) == 1 {
                assert(within(member, second));
            } else {
                assert(within(member, third));
            }
        }
    }
}

/// A sequence of at most four letters contains what stands at one of its
/// four places, and nothing else.
proof fn lemma_letters_of(letters: Seq<char>, c: char)
    requires
        2 <= letters.len() <= 4,
    ensures
        letters.contains(c) <==> c == letters[0] || c == letters[1] || (letters.len() > 2 && c
            == letters[2]) || (letters.len() > 3 && c == letters[3]),
{
    if c == letters[0] || c == letters[1] || (letters.len() > 2 && c == letters[2]) || (
    letters.len() > 3 && c == letters[3]) {
        let i: int = if c == letters[0] {
            0
        } else if c == letters[1] {
            1
        } else if letters.len() > 2 && c == letters[2] {
            2
        } else {
            3
        };
        assert(letters[i] == c);
    }
}

/// Swizzle validity: a member name selects components of a vector exactly
/// if it has one to four letters from one alphabet. What it selects has as
/// many components as the name has letters and the element type of the
/// vector; a name of more than four letters, and one that mixes two
/// alphabets, select nothing.
pub proof fn lemma_swizzle_validity(member: Seq<char>, base_type: Primitive, base_length: int)
    requires
        2 <= base_length <= 4,
    ensures
        swizzle_of(member, base_type, base_length) is Some <==> is_swizzle(member, base_length),
        is_swizzle(member, base_length) ==> {
            let selected = swizzle_of(member, base_type, base_length)->0;
            &&& selected.size == 0
            &&& generic_type_of(selected.base) == Some(base_type)
            &&& base_type != Primitive::Bool ==> arity_of(selected) == Some(member.len() as u32)
        },
        member.len() == 0 || member.len() > 4 ==> swizzle_of(member, base_type, base_length)
            is None,
        forall|i: int, j: int|
            0 <= i < member.len() && 0 <= j < member.len() && alphabet_of(member[i])
                != alphabet_of(member[j]) ==> swizzle_of(member, base_type, base_length) is None,
        forall|i: int|
            0 <= i < member.len() && component_of(member[i]) >= base_length ==> swizzle_of(
                member,
                base_type,
                base_length,
            ) is None,
{
    lemma_swizzle_letters(member, base_length);
    if is_swizzle(member, base_length) {
        lemma_pieces_round_trip(base_type, shape_of_length(member.len() as int));
    }
}

/// What an operator of class `op` yields on an operand of type `ty`, or
/// `None` where the class does not accept the type. Arithmetic takes
/// scalars, vectors and matrices and keeps the type; integer operators take
/// integers and integer vectors and keep the type; logical operators take
/// `bool`; comparisons take the scalar numbers and give `bool`; equality
/// takes anything and gives `bool`. No class but equality takes an array.
pub open spec fn operation_type(op: OperationType, ty: SpecTypeInfo) -> Option<SpecTypeInfo> {
    match op {
        OperationType::Number => if type_eq(ty, plain_type("vec_type"@)) || type_eq(
            ty,
            plain_type("ivec_type"@),
        ) || type_eq(ty, plain_type("uvec_type"@)) || type_eq(ty, plain_type("bvec_type"@))
            || type_eq(ty, plain_type("mat_type"@)) {
            Some(ty)
        } else {
            None
        },
        OperationType::Int => if type_eq(ty, plain_type("ivec_type"@)) || type_eq(
            ty,
            plain_type("uvec_type"@),
        ) {
            Some(ty)
        } else {
            None
        },
        OperationType::Bool => if type_eq(ty, plain_type("bool"@)) {
            Some(plain_type("bool"@))
        } else {
            None
        },
        OperationType::Comparison => if type_eq(ty, plain_type("number"@)) {
            Some(plain_type("bool"@))
        } else {
            None
        },
        OperationType::Equal => Some(plain_type("bool"@)),
    }
}

/// The error for an operand that its operator does not accept.
pub open spec fn invalid_operation(ty: SpecTypeInfo, range: Range) -> SpecDiagnostic {
    error_at(range, "Invalid type for operation: "@ + type_text(ty))
}

/// Applies an operator of class `op` to an operand of type `ty`: gives the type
/// of the result, or puts on record that the class does not take the type.
pub fn eval_operation(memory: &mut Memory, op: OperationType, ty: TypeInfo, range: Range) -> (r:
    Result<TypeInfo, EvaluateError>)
    ensures
        match operation_type(op, ty@) {
            Some(t) => r is Ok && r->Ok_0@ == t && final(memory)@ == old(memory)@,
            None => r == Err::<TypeInfo, EvaluateError>(EvaluateError::SemanticsError)
                && final(memory)@ == old(memory)@.alert(invalid_operation(ty@, range)),
        },
{
    let accepted: Option<TypeInfo> = match op {
        OperationType::Number => {
            if ty == TypeInfo::from_str("vec_type") || ty == TypeInfo::from_str("ivec_type") || ty
                == TypeInfo::from_str("uvec_type") || ty == TypeInfo::from_str("bvec_type") || ty
                == TypeInfo::from_str("mat_type") {
                Some(ty.clone())
            } else {
                None
            }
        },
        OperationType::Int => {
            if ty == TypeInfo::from_str("ivec_type") || ty == TypeInfo::from_str("uvec_type") {
                Some(ty.clone())
            } else {
                None
            }
        },
        OperationType::Bool => {
            if ty == TypeInfo::from_str("bool") {
                Some(TypeInfo::from_str("bool"))
            } else {
                None
            }
        },
        OperationType::Comparison => {
            if ty == TypeInfo::from_str("number") {
                Some(TypeInfo::from_str("bool"))
            } else {
                None
            }
        },
        OperationType::Equal => Some(TypeInfo::from_str("bool")),
    };
    match accepted {
        Some(t) => Ok(t),
        None => {
            let message = concat2("Invalid type for operation: ", ty.to_string().as_str());
            Err(memory.alert_error(message.as_str(), range))
        },
    }
}

/// The error for a name that is already taken.
pub open spec fn name_in_use(name: Seq<char>, range: Range) -> SpecDiagnostic {
    error_at(range, "Identifier '"@ + name + "' is in use."@)
}

/// The error for a type that is neither built in nor a struct.
pub open spec fn invalid_type(ty: SpecTypeInfo, range: Range) -> SpecDiagnostic {
    error_at(range, "Invalid type '"@ + type_text(ty) + "'."@)
}

/// The error for two types that should match and do not.
pub open spec fn quoted_mismatch(a: SpecTypeInfo, b: SpecTypeInfo, range: Range) -> SpecDiagnostic {
    error_at(range, "Type mismatch: '"@ + type_text(a) + "' and '"@ + type_text(b) + "'."@)
}

/// The finding, if any, that forbids declaring the name `id`.
pub open spec fn id_fault(m: SpecMemory, id: Token) -> Option<SpecDiagnostic> {
    if m.id_in_use(m.token_text(id)) {
        Some(name_in_use(m.token_text(id), id.range))
    } else {
        None
    }
}

/// The finding, if any, that forbids using the type `ty`.
pub open spec fn type_fault(m: SpecMemory, ty: SpecTypeNode) -> Option<SpecDiagnostic> {
    if !m.id_valid_type(ty.info.base) {
        Some(invalid_type(ty.info, ty.range))
    } else {
        None
    }
}

/// The environment after an optional finding.
pub open spec fn alert_if(m: SpecMemory, fault: Option<SpecDiagnostic>) -> SpecMemory {
    match fault {
        Some(d) => m.alert(d),
        None => m,
    }
}

/// Checks that the name `id` is free to be declared.
pub fn ensure_valid_id(memory: &mut Memory, id: Token) -> (r: Result<(), EvaluateError>)
    ensures
        final(memory)@ == alert_if(old(memory)@, id_fault(old(memory)@, id)),
        r == if id_fault(old(memory)@, id) is Some {
            Err::<(), EvaluateError>(EvaluateError::SemanticsError)
        } else {
            Ok::<(), EvaluateError>(())
        },
{
    let id_text = memory.get_token_text(id);
    if memory.is_id_in_use(id_text.as_str()) {
        let message = concat3("Identifier '", id_text.as_str(), "' is in use.");
        Err(memory.alert_error(message.as_str(), id.range))
    } else {
        Ok(())
    }
}

/// Checks that `ty` names a built-in type or a struct.
pub fn ensure_valid_type(memory: &mut Memory, ty: &TypeNode) -> (r: Result<(), EvaluateError>)
    ensures
        final(memory)@ == alert_if(old(memory)@, type_fault(old(memory)@, ty@)),
        r == if type_fault(old(memory)@, ty@) is Some {
            Err::<(), EvaluateError>(EvaluateError::SemanticsError)
        } else {
            Ok::<(), EvaluateError>(())
        },
{
    if !memory.is_id_valid_type(ty.info.base.as_str()) {
        let message = concat3("Invalid type '", ty.info.to_string().as_str(), "'.");
        Err(memory.alert_error(message.as_str(), ty.range))
    } else {
        Ok(())
    }
}

/// The finding, if any, about the initializer of a declared value: it must
/// evaluate, match the declared type, and be constant where the
/// declaration is.
pub open spec fn initializer_fault(
    m: SpecMemory,
    value: SpecValueNode,
    expression: SpecExpression,
    is_const: bool,
) -> Option<SpecDiagnostic> {
    let range = expression_range(expression);
    match type_of(m, expression) {
        Err(d) => Some(d),
        Ok(result) => if !type_eq(result.type_info, value.type_node.info) {
            Some(
                quoted_mismatch(
                    value.type_node.info,
                    result.type_info,
                    Range { start: value.range.start, end: range.end },
                ),
            )
        } else if is_const && !result.is_const {
            Some(error_at(range, "Invalid constant expression."@))
        } else {
            None
        },
    }
}

/// The outcome of checking a declared value: a name that is taken or a
/// type that is unknown fails the declaration; a fault of the initializer
/// is put on record and the declaration stands.
pub open spec fn value_check(
    m: SpecMemory,
    value: SpecValueNode,
    expression: Option<SpecExpression>,
    is_const: bool,
) -> (SpecMemory, bool) {
    if id_fault(m, value.identifier) is Some {
        (m.alert(id_fault(m, value.identifier)->0), false)
    } else if type_fault(m, value.type_node) is Some {
        (m.alert(type_fault(m, value.type_node)->0), false)
    } else {
        match expression {
            Some(e) => (alert_if(m, initializer_fault(m, value, e, is_const)), true),
            None => (m, true),
        }
    }
}

/// `Ok` for `true`, the semantics error for `false`.
pub open spec fn verdict(ok: bool) -> EvaluateResult {
    if ok {
        Ok(())
    } else {
        Err(EvaluateError::SemanticsError)
    }
}

/// Checks a declared value: its name, its type and its initializer.
pub fn ensure_valid_value(
    memory: &mut Memory,
    value: &ValueNode,
    expression: Option<ExpressionNode>,
    is_const: bool,
) -> (r: EvaluateResult)
    requires
        expression is Some ==> expression_ok(expression->0@),
    ensures
        final(memory)@ == value_check(
            old(memory)@,
            value@,
            match expression {
                Some(e) => Some(e@),
                None => None,
            },
            is_const,
        ).0,
        r == verdict(
            value_check(
                old(memory)@,
                value@,
                match expression {
                    Some(e) => Some(e@),
                    None => None,
                },
                is_const,
            ).1,
        ),
{
    match &expression {
        Some(e) => check_value(memory, value, Some(e), is_const),
        None => check_value(memory, value, None, is_const),
    }
}

/// Checks a declared value, with the initializer in place.
pub fn check_value(
    memory: &mut Memory,
    value: &ValueNode,
    expression: Option<&ExpressionNode>,
    is_const: bool,
) -> (r: EvaluateResult)
    requires
        expression is Some ==> expression_ok(expression->0@),
    ensures
        final(memory)@ == value_check(
            old(memory)@,
            value@,
            match expression {
                Some(e) => Some(e@),
                None => None,
            },
            is_const,
        ).0,
        r == verdict(
            value_check(
                old(memory)@,
                value@,
                match expression {
                    Some(e) => Some(e@),
                    None => None,
                },
                is_const,
            ).1,
        ),
{
    ensure_valid_id(memory, value.identifier)?;
    ensure_valid_type(memory, &value.type_node)?;
    if let Some(expr) = expression {
        let expr_range = expr.range();
        if let Ok(result) = evaluate(memory, expr) {
            if !(result.type_info == value.type_node.info) {
                let message = concat5(
                    "Type mismatch: '",
                    value.type_node.info.to_string().as_str(),
                    "' and '",
                    result.type_info.to_string().as_str(),
                    "'.",
                );
                memory.alert_error(
                    message.as_str(),
                    Range::new(value.range.start, expr_range.end),
                );
            } else if is_const && !result.is_const {
                memory.alert_error("Invalid constant expression.", expr_range);
            }
        }
    }
    Ok(())
}

} // verus!

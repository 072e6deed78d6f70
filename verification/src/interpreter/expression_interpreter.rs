//! Expression evaluation: the type of an expression, whether it is
//! constant, and whether it can be assigned to.

use vstd::prelude::*;
use vstd::string::*;
use crate::interpreter::{
    eval_operation, eval_swizzle, invalid_operation, operation_type, swizzle_of, EvaluateError,
};
use crate::lexer::operations::MaybeOperator;
use crate::memory::functions::{FunctionParam, FunctionSignature};
use crate::memory::table::find_entry;
use crate::memory::StructField;
use crate::nodes::expression_node::{
    arguments_view, expressions_view, lemma_array_literal_view, lemma_call_view,
    ArrayAccessNode, AssignmentNode, BinaryNode, CallArgumentNode, CallNode, ConditionalNode,
    IncrementNode, MemberAccessNode, UnaryNode,
};
use crate::text::{concat2, concat3, concat4, concat5, str_eq};
use crate::lexer::operations::{assignment_op_of, binary_op_of, unary_op_of, OperationType};
use crate::lexer::token::{Token, TokenKind};
use crate::memory::functions::{
    qualifier_kind, FunctionParamQualifier, SpecFunctionParam, SpecFunctionSignature,
};
use crate::memory::table::{has_name, lookup};
use crate::memory::types::{
    generic_size_of, generic_type_of, generically_sized, generically_typed, is_constant_kind,
    name_of_pieces, pieces_exist, plain_type, primitive_type, reveal_type_names, size_of_shape,
    type_eq, type_text, GenericSize, Primitive, SpecTypeInfo, TypeInfo,
};
use crate::memory::{find_visible, Memory, SpecMemory, SpecStructField};
use crate::nodes::expression_node::{
    expression_range, ExpressionNode, SpecCallArgument, SpecExpression,
};
use crate::position::Range;
use crate::source_code::{error_at, saturate_u32, SpecDiagnostic};

verus! {

/// What is known of an expression once it has been evaluated.
#[derive(Debug)]
pub struct ExpressionEvaluation {
    pub type_info: TypeInfo,
    pub is_const: bool,
    pub is_assignable: bool,
}

/// The mathematical value of an [`ExpressionEvaluation`].
pub struct SpecEvaluation {
    pub type_info: SpecTypeInfo,
    pub is_const: bool,
    pub is_assignable: bool,
}

impl View for ExpressionEvaluation {
    type V = SpecEvaluation;

    open spec fn view(&self) -> SpecEvaluation {
        SpecEvaluation {
            type_info: self.type_info@,
            is_const: self.is_const,
            is_assignable: self.is_assignable,
        }
    }
}

impl ExpressionEvaluation {
    /// Puts together what is known of an expression.
    pub fn new(type_info: TypeInfo, is_const: bool, is_assignable: bool) -> (r: Self)
        ensures
            r == (ExpressionEvaluation { type_info, is_const, is_assignable }),
    {
        Self { type_info, is_const, is_assignable }
    }
}

/// What evaluating an expression gives.
pub type ExprEvalResult = Result<ExpressionEvaluation, EvaluateError>;

/// The outcome of evaluating an expression: what is known of it, or the
/// one error that stopped the evaluation.
pub type Typing = Result<SpecEvaluation, SpecDiagnostic>;

/// What is known of an expression.
pub open spec fn evaluation(type_info: SpecTypeInfo, is_const: bool, is_assignable: bool)
    -> SpecEvaluation {
    SpecEvaluation { type_info, is_const, is_assignable }
}

/// Whether an expression can be evaluated at all: its operator tokens are
/// operators of the right place, and its literals are literals.
pub open spec fn expression_ok(e: SpecExpression) -> bool
    decreases e,
{
    match e {
        SpecExpression::Primitive(t) => is_constant_kind(t.kind),
        SpecExpression::Identifier(t) => true,
        SpecExpression::Unary { op, arg } => unary_op_of(op.kind) is Some && expression_ok(*arg),
        SpecExpression::Binary { op, left, right } => binary_op_of(op.kind) is Some
            && expression_ok(*left) && expression_ok(*right),
        SpecExpression::Assignment { op, left, right } => assignment_op_of(op.kind) is Some
            && expression_ok(*left) && expression_ok(*right),
        SpecExpression::Increment { op, is_prefix, arg } => expression_ok(*arg),
        SpecExpression::Paren(x) => expression_ok(*x),
        SpecExpression::Conditional { condition, action, alternate } => expression_ok(*condition)
            && expression_ok(*action) && expression_ok(*alternate),
        SpecExpression::Call { identifier, args } => forall|i: int|
            0 <= i < args.len() ==> expression_ok((#[trigger] args[i]).expression),
        SpecExpression::ArrayAccess { argument, index } => expression_ok(*argument)
            && expression_ok(*index),
        SpecExpression::MemberAccess { argument, member } => expression_ok(*argument),
        SpecExpression::ArrayLiteral(items) => forall|i: int|
            0 <= i < items.len() ==> expression_ok(#[trigger] items[i]),
    }
}

/// An identifier has the type of the nearest binding of its name and can
/// be assigned to; a name without binding is an error.
pub open spec fn identifier_type(m: SpecMemory, token: Token, range: Range) -> Typing {
    let name = m.token_text(token);
    match find_visible(m.scopes.visible(), name, 0) {
        Some(value) => Ok(evaluation(value.ty, value.is_const, true)),
        None => Err(error_at(range, "Identifier '"@ + name + "' is undefined."@)),
    }
}

/// The type that an operator of class `op` gives on `ty`, or the error for
/// an operand that the class does not accept.
pub open spec fn apply_operation(op: OperationType, ty: SpecTypeInfo, range: Range) -> Result<
    SpecTypeInfo,
    SpecDiagnostic,
> {
    match operation_type(op, ty) {
        Some(t) => Ok(t),
        None => Err(invalid_operation(ty, range)),
    }
}

/// A prefix operator yields what its class gives on the operand; the
/// result is constant if the operand is, and cannot be assigned to.
pub open spec fn unary_type(arg: SpecEvaluation, op: Token, range: Range) -> Typing {
    match apply_operation(unary_op_of(op.kind)->0, arg.type_info, range) {
        Ok(t) => Ok(evaluation(t, arg.is_const, false)),
        Err(d) => Err(d),
    }
}

/// The error for two operands that do not combine.
pub open spec fn mismatch(a: SpecTypeInfo, b: SpecTypeInfo, range: Range) -> SpecDiagnostic {
    error_at(range, "Type mismatch: "@ + type_text(a) + " & "@ + type_text(b))
}

/// The number of components of a type: 1 for a scalar, 2 to 4 for a
/// vector; none for anything else.
pub open spec fn arity_of(ty: SpecTypeInfo) -> Option<u32> {
    match generic_size_of(ty.base) {
        Some(shape) => size_of_shape(shape),
        None => None,
    }
}

/// The type on which a binary operator works, given its two operands: both
/// must have an arity and an element type, the element types must be the
/// same, and the arities must be equal unless one operand is a scalar,
/// which then spreads over the components of the other. `None` where the
/// operands do not combine.
pub open spec fn binary_operand_type(left: SpecTypeInfo, right: SpecTypeInfo) -> Option<
    SpecTypeInfo,
> {
    match (arity_of(left), arity_of(right), generic_type_of(left.base), generic_type_of(right.base)) {
        (Some(left_size), Some(right_size), Some(left_element), Some(right_element)) => {
            if left_element != right_element {
                None
            } else if left_size == right_size {
                Some(left)
            } else if left_size == 1 {
                Some(right)
            } else if right_size == 1 {
                Some(left)
            } else {
                None
            }
        },
        _ => None,
    }
}

/// A binary operator yields what its class gives on the combined operand
/// type; the result is constant if both operands are.
pub open spec fn binary_type(left: SpecEvaluation, right: SpecEvaluation, op: Token, range: Range)
    -> Typing {
    match binary_operand_type(left.type_info, right.type_info) {
        None => Err(mismatch(left.type_info, right.type_info, range)),
        Some(ty) => match apply_operation(binary_op_of(op.kind)->0, ty, range) {
            Ok(t) => Ok(evaluation(t, left.is_const && right.is_const, false)),
            Err(d) => Err(d),
        },
    }
}

/// An assignment needs a target that can be assigned to and is not
/// constant, two sides whose types match, and an operator that accepts
/// both; it has the type of its target.
pub open spec fn assignment_type(
    left: SpecEvaluation,
    right: SpecEvaluation,
    op: Token,
    left_range: Range,
    range: Range,
) -> Typing {
    let class = assignment_op_of(op.kind)->0;
    if !left.is_assignable || left.is_const {
        Err(error_at(left_range, "Cannot assign to a constant value."@))
    } else if !type_eq(left.type_info, right.type_info) {
        Err(
            error_at(
                range,
                "Type mismatch: '"@ + type_text(left.type_info) + "' and '"@ + type_text(
                    right.type_info,
                ) + "'."@,
            ),
        )
    } else {
        match apply_operation(class, left.type_info, left_range) {
            Err(d) => Err(d),
            Ok(_) => match apply_operation(class, right.type_info, left_range) {
                Err(d) => Err(d),
                Ok(_) => Ok(evaluation(left.type_info, left.is_const, false)),
            },
        }
    }
}

/// An increment or decrement needs an operand that can be assigned to, is
/// not constant, and is a number.
pub open spec fn increment_type(arg: SpecEvaluation, range: Range) -> Typing {
    if !arg.is_assignable || arg.is_const {
        Err(error_at(range, "Cannot change a constant value."@))
    } else {
        match apply_operation(OperationType::Number, arg.type_info, range) {
            Err(d) => Err(d),
            Ok(_) => Ok(evaluation(arg.type_info, arg.is_const, false)),
        }
    }
}

/// The error, if any, for the condition of a conditional expression.
pub open spec fn condition_fault(condition: SpecEvaluation, range: Range) -> Option<
    SpecDiagnostic,
> {
    if !type_eq(condition.type_info, plain_type("bool"@)) {
        Some(
            error_at(
                range,
                "Condition type must be bool, not "@ + type_text(condition.type_info),
            ),
        )
    } else {
        None
    }
}

/// A conditional expression has the type of its branches, which must
/// match; it is constant if the condition and both branches are.
pub open spec fn conditional_type(
    condition: SpecEvaluation,
    action: SpecEvaluation,
    alternate: SpecEvaluation,
    range: Range,
) -> Typing {
    if !type_eq(action.type_info, alternate.type_info) {
        Err(mismatch(action.type_info, alternate.type_info, range))
    } else {
        Ok(
            evaluation(
                action.type_info,
                action.is_const && alternate.is_const && condition.is_const,
                false,
            ),
        )
    }
}

/// The element type and the number of components of a vector type.
pub open spec fn vector_shape(base: Seq<char>) -> Option<(Primitive, int)> {
    if base == "vec2"@ {
        Some((Primitive::Float, 2int))
    } else if base == "vec3"@ {
        Some((Primitive::Float, 3int))
    } else if base == "vec4"@ {
        Some((Primitive::Float, 4int))
    } else if base == "ivec2"@ {
        Some((Primitive::Int, 2int))
    } else if base == "ivec3"@ {
        Some((Primitive::Int, 3int))
    } else if base == "ivec4"@ {
        Some((Primitive::Int, 4int))
    } else if base == "uvec2"@ {
        Some((Primitive::Uint, 2int))
    } else if base == "uvec3"@ {
        Some((Primitive::Uint, 3int))
    } else if base == "uvec4"@ {
        Some((Primitive::Uint, 4int))
    } else if base == "bvec2"@ {
        Some((Primitive::Bool, 2int))
    } else if base == "bvec3"@ {
        Some((Primitive::Bool, 3int))
    } else if base == "bvec4"@ {
        Some((Primitive::Bool, 4int))
    } else {
        None
    }
}

/// The column type of a matrix type.
pub open spec fn matrix_column(base: Seq<char>) -> Option<Seq<char>> {
    if base == "mat2"@ {
        Some("vec2"@)
    } else if base == "mat3"@ {
        Some("vec3"@)
    } else if base == "mat4"@ {
        Some("vec4"@)
    } else {
        None
    }
}

/// What indexing a value of type `ty` gives: an array loses its array
/// size, a vector gives its element type, a matrix its column type; nothing
/// else can be indexed.
pub open spec fn indexed_type(ty: SpecTypeInfo) -> Option<SpecTypeInfo> {
    if ty.size != 0 {
        Some(SpecTypeInfo { base: ty.base, size: 0 })
    } else if vector_shape(ty.base) is Some {
        let (element, _) = vector_shape(ty.base)->0;
        Some(plain_type(name_of_pieces(element, GenericSize::Number)))
    } else if matrix_column(ty.base) is Some {
        Some(plain_type(matrix_column(ty.base)->0))
    } else {
        None
    }
}

/// An index must be an `int` or a `uint`; the result is constant if both
/// the indexed value and the index are, and can be assigned to if the
/// indexed value can.
pub open spec fn array_access_type(argument: SpecEvaluation, index: SpecEvaluation, range: Range)
    -> Typing {
    if !type_eq(index.type_info, plain_type("int"@)) && !type_eq(
        index.type_info,
        plain_type("uint"@),
    ) {
        Err(error_at(range, "Cannot index with type "@ + type_text(index.type_info)))
    } else {
        match indexed_type(argument.type_info) {
            Some(ty) => Ok(
                evaluation(ty, argument.is_const && index.is_const, argument.is_assignable),
            ),
            None => Err(
                error_at(
                    range,
                    "Type "@ + type_text(argument.type_info) + " cannot be indexed."@,
                ),
            ),
        }
    }
}

/// The type of the first field called `name`.
pub open spec fn field_type(fields: Seq<SpecStructField>, name: Seq<char>, from: int) -> Option<
    SpecTypeInfo,
>
    decreases fields.len() - from,
{
    if from < 0 || from >= fields.len() {
        None
    } else if fields[from].name == name {
        Some(fields[from].ty)
    } else {
        field_type(fields, name, from + 1)
    }
}

/// The type of the member `member` of a value of type `ty`: a selection of
/// components for a vector, a field for a struct.
pub open spec fn member_of(m: SpecMemory, ty: SpecTypeInfo, member: Seq<char>) -> Option<
    SpecTypeInfo,
> {
    match vector_shape(ty.base) {
        Some((element, length)) => swizzle_of(member, element, length),
        None => match lookup(m.structs, ty.base) {
            Some(info) => field_type(info.fields, member, 0),
            None => None,
        },
    }
}

/// A member access on an array is an error; otherwise the member must
/// exist, and the result is as constant and as assignable as the value.
pub open spec fn member_access_type(
    m: SpecMemory,
    argument: SpecEvaluation,
    member: Seq<char>,
    range: Range,
) -> Typing {
    if argument.type_info.size != 0 {
        Err(
            error_at(
                range,
                "Cannot access member of array type "@ + type_text(argument.type_info),
            ),
        )
    } else {
        match member_of(m, argument.type_info, member) {
            Some(ty) => Ok(evaluation(ty, argument.is_const, argument.is_assignable)),
            None => Err(
                error_at(
                    range,
                    "Type "@ + type_text(argument.type_info) + " has no member "@ + member,
                ),
            ),
        }
    }
}

/// What a call passes for one argument: the kind of its qualifier, if it
/// has one, and its type.
pub type PassedArgument = (Option<TokenKind>, SpecTypeInfo);

/// Whether the arguments are the fields of a struct, one for one.
pub open spec fn constructs(fields: Seq<SpecStructField>, args: Seq<PassedArgument>) -> bool {
    &&& fields.len() == args.len()
    &&& forall|i: int| 0 <= i < fields.len() ==> type_eq(fields[i].ty, (#[trigger] args[i]).1)
}

/// The kind of the keyword of an optional qualifier.
pub open spec fn qualifier_kind_of(qualifier: Option<FunctionParamQualifier>) -> Option<
    TokenKind,
> {
    match qualifier {
        Some(q) => Some(qualifier_kind(q)),
        None => None,
    }
}

/// Whether a signature takes exactly these arguments: as many as it has
/// parameters, each with the parameter's qualifier and a matching type.
pub open spec fn accepts(signature: SpecFunctionSignature, args: Seq<PassedArgument>) -> bool {
    &&& signature.params.len() == args.len()
    &&& forall|i: int|
        0 <= i < args.len() ==> (#[trigger] args[i]).0 == qualifier_kind_of(
            signature.params[i].qualifier,
        ) && type_eq(args[i].1, signature.params[i].ty)
}

/// Whether parameter `i` is a slot of the generic kind in question: one
/// that leaves the size open (`sized`), or one that leaves the element type
/// open.
pub open spec fn is_slot(params: Seq<SpecFunctionParam>, i: int, sized: bool) -> bool {
    if sized {
        generically_sized(params[i].ty.base) is Some
    } else {
        generically_typed(params[i].ty.base) is Some
    }
}

/// The first generic slot at or behind `from`.
pub open spec fn first_slot(params: Seq<SpecFunctionParam>, from: int, sized: bool) -> Option<int>
    decreases params.len() - from,
{
    if from < 0 || from >= params.len() {
        None
    } else if is_slot(params, from, sized) {
        Some(from)
    } else {
        first_slot(params, from + 1, sized)
    }
}

/// What the argument in a slot fixes: its shape for a slot that leaves the
/// size open, else nothing.
pub open spec fn slot_shape(arg: PassedArgument) -> Option<GenericSize> {
    generic_size_of(arg.1.base)
}

/// What the argument in a slot fixes: its element type.
pub open spec fn slot_element(arg: PassedArgument) -> Option<Primitive> {
    generic_type_of(arg.1.base)
}

/// The return type of a call through `signature`, whose parameters the
/// arguments are known to fit. A return type that leaves the size open
/// takes the shape of the arguments in the slots that leave it open too; a
/// return type that leaves the element type open takes theirs. All those
/// slots must agree, there must be one, and the type so described must
/// exist; else the signature does not serve (`None`).
pub open spec fn return_type_for(signature: SpecFunctionSignature, args: Seq<PassedArgument>)
    -> Option<SpecTypeInfo> {
    let params = signature.params;
    if generically_sized(signature.return_type.base) is Some {
        let element = generically_sized(signature.return_type.base)->0;
        match first_slot(params, 0, true) {
            Some(first) => {
                let shape = slot_shape(args[first]);
                if shape is Some && pieces_exist(element, shape->0) && (forall|i: int|
                    0 <= i < params.len() && is_slot(params, i, true) ==> slot_shape(
                        #[trigger] args[i],
                    ) == shape) {
                    Some(plain_type(name_of_pieces(element, shape->0)))
                } else {
                    None
                }
            },
            None => None,
        }
    } else if generically_typed(signature.return_type.base) is Some {
        let shape = generically_typed(signature.return_type.base)->0;
        match first_slot(params, 0, false) {
            Some(first) => {
                let element = slot_element(args[first]);
                if element is Some && pieces_exist(element->0, shape) && (forall|i: int|
                    0 <= i < params.len() && is_slot(params, i, false) ==> slot_element(
                        #[trigger] args[i],
                    ) == element) {
                    Some(plain_type(name_of_pieces(element->0, shape)))
                } else {
                    None
                }
            },
            None => None,
        }
    } else {
        Some(signature.return_type)
    }
}

/// The return type by the first signature, at or behind `from`, that
/// accepts the arguments and serves.
pub open spec fn resolve(
    signatures: Seq<SpecFunctionSignature>,
    args: Seq<PassedArgument>,
    from: int,
) -> Option<SpecTypeInfo>
    decreases signatures.len() - from,
{
    if from < 0 || from >= signatures.len() {
        None
    } else if accepts(signatures[from], args) && return_type_for(signatures[from], args)
        is Some {
        return_type_for(signatures[from], args)
    } else {
        resolve(signatures, args, from + 1)
    }
}

/// The error for a call whose arguments fit nothing.
pub open spec fn invalid_arguments(name: Seq<char>, range: Range) -> SpecDiagnostic {
    error_at(range, "Invalid arguments for function '"@ + name + "'"@)
}

/// A call of a struct's name constructs the struct from its fields; a call
/// of a function's name goes through the first signature that fits. The
/// result is constant if all arguments are and, for a function, the
/// function is.
pub open spec fn call_type(
    m: SpecMemory,
    name: Seq<char>,
    args: Seq<PassedArgument>,
    args_const: bool,
    range: Range,
) -> Typing {
    if has_name(m.structs, name) {
        if constructs(lookup(m.structs, name)->0.fields, args) {
            Ok(evaluation(plain_type(name), args_const, false))
        } else {
            Err(invalid_arguments(name, range))
        }
    } else if has_name(m.functions, name) {
        let function = lookup(m.functions, name)->0;
        match resolve(function.signatures, args, 0) {
            Some(ty) => Ok(evaluation(ty, args_const && function.is_const, false)),
            None => Err(invalid_arguments(name, range)),
        }
    } else {
        Err(error_at(range, "Function '"@ + name + "' does not exist."@))
    }
}

/// The type of an array literal of `count` elements whose first element
/// evaluated to `first`.
pub open spec fn array_type(first: SpecEvaluation, count: nat, is_const: bool) -> SpecEvaluation {
    evaluation(
        SpecTypeInfo { base: first.type_info.base, size: saturate_u32(count as int) },
        is_const,
        false,
    )
}

/// The outcome of evaluating an expression in the environment `m`.
pub open spec fn type_of(m: SpecMemory, e: SpecExpression) -> Typing
    decreases e, 0nat,
{
    let range = expression_range(e);
    match e {
        SpecExpression::Primitive(t) => Ok(evaluation(primitive_type(t.kind), true, false)),
        SpecExpression::Identifier(t) => identifier_type(m, t, range),
        SpecExpression::Paren(x) => type_of(m, *x),
        SpecExpression::Unary { op, arg } => match type_of(m, *arg) {
            Err(d) => Err(d),
            Ok(a) => unary_type(a, op, range),
        },
        SpecExpression::Binary { op, left, right } => match type_of(m, *left) {
            Err(d) => Err(d),
            Ok(l) => match type_of(m, *right) {
                Err(d) => Err(d),
                Ok(r) => binary_type(l, r, op, range),
            },
        },
        SpecExpression::Assignment { op, left, right } => match type_of(m, *left) {
            Err(d) => Err(d),
            Ok(l) => match type_of(m, *right) {
                Err(d) => Err(d),
                Ok(r) => assignment_type(l, r, op, expression_range(*left), range),
            },
        },
        SpecExpression::Increment { op, is_prefix, arg } => match type_of(m, *arg) {
            Err(d) => Err(d),
            Ok(a) => increment_type(a, range),
        },
        SpecExpression::Conditional { condition, action, alternate } => match type_of(
            m,
            *condition,
        ) {
            Err(d) => Err(d),
            Ok(c) => match condition_fault(c, range) {
                Some(d) => Err(d),
                None => match type_of(m, *action) {
                    Err(d) => Err(d),
                    Ok(l) => match type_of(m, *alternate) {
                        Err(d) => Err(d),
                        Ok(r) => conditional_type(c, l, r, range),
                    },
                },
            },
        },
        SpecExpression::ArrayAccess { argument, index } => match type_of(m, *argument) {
            Err(d) => Err(d),
            Ok(a) => match type_of(m, *index) {
                Err(d) => Err(d),
                Ok(i) => array_access_type(a, i, range),
            },
        },
        SpecExpression::MemberAccess { argument, member } => match type_of(m, *argument) {
            Err(d) => Err(d),
            Ok(a) => member_access_type(m, a, m.token_text(member), range),
        },
        SpecExpression::Call { identifier, args } => match arguments_of(
            m,
            args,
            0,
            Seq::empty(),
            true,
        ) {
            Err(d) => Err(d),
            Ok((passed, all_const)) => call_type(
                m,
                m.token_text(identifier),
                passed,
                all_const,
                range,
            ),
        },
        SpecExpression::ArrayLiteral(items) => if items.len() == 0 {
            Err(error_at(range, "Empty array literal."@))
        } else {
            match type_of(m, items[0]) {
                Err(d) => Err(d),
                Ok(first) => if first.type_info.size != 0 {
                    Err(
                        error_at(
                            expression_range(items[0]),
                            "Nested array types are not allowed."@,
                        ),
                    )
                } else {
                    match elements_of(m, items, 1, first, first.is_const, range) {
                        Err(d) => Err(d),
                        Ok(all_const) => Ok(array_type(first, items.len(), all_const)),
                    }
                },
            }
        },
    }
}

/// The arguments of a call from `from` on, evaluated in order and added to
/// those already `passed`; the first error stops the evaluation.
pub open spec fn arguments_of(
    m: SpecMemory,
    args: Seq<SpecCallArgument>,
    from: nat,
    passed: Seq<PassedArgument>,
    all_const: bool,
) -> Result<(Seq<PassedArgument>, bool), SpecDiagnostic>
    decreases args, args.len() - from,
{
    if from >= args.len() {
        Ok((passed, all_const))
    } else {
        match type_of(m, args[from as int].expression) {
            Err(d) => Err(d),
            Ok(a) => arguments_of(
                m,
                args,
                from + 1,
                passed.push(
                    (
                        match args[from as int].qualifier {
                            Some(q) => Some(q.kind),
                            None => None,
                        },
                        a.type_info,
                    ),
                ),
                all_const && a.is_const,
            ),
        }
    }
}

/// The elements of an array literal from `from` on, evaluated in order:
/// each must match the first element. Gives whether all elements are
/// constant.
pub open spec fn elements_of(
    m: SpecMemory,
    items: Seq<SpecExpression>,
    from: nat,
    first: SpecEvaluation,
    all_const: bool,
    range: Range,
) -> Result<bool, SpecDiagnostic>
    decreases items, items.len() - from,
{
    if from >= items.len() {
        Ok(all_const)
    } else {
        match type_of(m, items[from as int]) {
            Err(d) => Err(d),
            Ok(item) => if !type_eq(item.type_info, first.type_info) {
                Err(
                    error_at(
                        range,
                        "Mismatched types: "@ + type_text(first.type_info) + " and "@ + type_text(
                            item.type_info,
                        ),
                    ),
                )
            } else {
                elements_of(m, items, from + 1, first, all_const && item.is_const, range)
            },
        }
    }
}

/// The environment after evaluating an expression: unchanged on success,
/// with the error on record otherwise.
pub open spec fn after_expression(m: SpecMemory, e: SpecExpression) -> SpecMemory {
    match type_of(m, e) {
        Ok(_) => m,
        Err(d) => m.alert(d),
    }
}

/// Whether an exec result and the environment behind it are what a typing
/// outcome asks for.
pub open spec fn fulfils(
    before: SpecMemory,
    after: SpecMemory,
    result: ExprEvalResult,
    typing: Typing,
) -> bool {
    match typing {
        Ok(v) => result is Ok && result->Ok_0@ == v && after == before,
        Err(d) => result is Err && result->Err_0 == EvaluateError::SemanticsError && after
            == before.alert(d),
    }
}

/// The values of the arguments that a call passes.
pub open spec fn passed_view(list: Seq<(Option<TokenKind>, TypeInfo)>) -> Seq<PassedArgument> {
    list.map_values(|p: (Option<TokenKind>, TypeInfo)| (p.0, p.1@))
}

/// Records `message` at `range` and fails.
fn fail(memory: &mut Memory, message: &str, range: Range) -> (r: ExprEvalResult)
    ensures
        fulfils(old(memory)@, final(memory)@, r, Err(error_at(range, message@))),
{
    Err(memory.alert_error(message, range))
}

/// Applies an operator class to a type.
fn operate(memory: &mut Memory, op: OperationType, ty: &TypeInfo, range: Range) -> (r: Result<
    TypeInfo,
    EvaluateError,
>)
    ensures
        match apply_operation(op, ty@, range) {
            Ok(t) => r is Ok && r->Ok_0@ == t && final(memory)@ == old(memory)@,
            Err(d) => r is Err && r->Err_0 == EvaluateError::SemanticsError && final(memory)@
                == old(memory)@.alert(d),
        },
{
    eval_operation(memory, op, ty.clone(), range)
}

fn vector_shape_of(base: &str) -> (r: Option<(Primitive, usize)>)
    ensures
        match vector_shape(base@) {
            Some((element, length)) => r == Some((element, length as usize)) && 2 <= length <= 4,
            None => r is None,
        },
{
    if str_eq(base, "vec2") {
        Some((Primitive::Float, 2))
    } else if str_eq(base, "vec3") {
        Some((Primitive::Float, 3))
    } else if str_eq(base, "vec4") {
        Some((Primitive::Float, 4))
    } else if str_eq(base, "ivec2") {
        Some((Primitive::Int, 2))
    } else if str_eq(base, "ivec3") {
        Some((Primitive::Int, 3))
    } else if str_eq(base, "ivec4") {
        Some((Primitive::Int, 4))
    } else if str_eq(base, "uvec2") {
        Some((Primitive::Uint, 2))
    } else if str_eq(base, "uvec3") {
        Some((Primitive::Uint, 3))
    } else if str_eq(base, "uvec4") {
        Some((Primitive::Uint, 4))
    } else if str_eq(base, "bvec2") {
        Some((Primitive::Bool, 2))
    } else if str_eq(base, "bvec3") {
        Some((Primitive::Bool, 3))
    } else if str_eq(base, "bvec4") {
        Some((Primitive::Bool, 4))
    } else {
        None
    }
}

fn index_type(ty: &TypeInfo) -> (r: Option<TypeInfo>)
    ensures
        r.deep_view() == indexed_type(ty@),
{
    let base = ty.base.as_str();
    if ty.size != 0 {
        Some(TypeInfo { base: ty.base.clone(), size: 0 })
    } else if let Some((element, _)) = vector_shape_of(base) {
        Some(TypeInfo::from_pieces(element, GenericSize::Number))
    } else if str_eq(base, "mat2") {
        Some(TypeInfo::from_str("vec2"))
    } else if str_eq(base, "mat3") {
        Some(TypeInfo::from_str("vec3"))
    } else if str_eq(base, "mat4") {
        Some(TypeInfo::from_str("vec4"))
    } else {
        None
    }
}

fn field_type_of(fields: &Vec<StructField>, name: &str) -> (r: Option<TypeInfo>)
    ensures
        r.deep_view() == field_type(fields.deep_view(), name@, 0),
{
    let mut i: usize = 0;
    while i < fields.len()
        invariant
            i <= fields.len(),
            field_type(fields.deep_view(), name@, 0) == field_type(
                fields.deep_view(),
                name@,
                i as int,
            ),
        decreases fields.len() - i,
    {
        assert(fields.deep_view()[i as int] == fields@[i as int].deep_view());
        if str_eq(fields[i].name.as_str(), name) {
            return Some(fields[i].ty.clone());
        }
        i += 1;
    }
    None
}

fn member_type(memory: &Memory, ty: &TypeInfo, member: &str) -> (r: Option<TypeInfo>)
    ensures
        r.deep_view() == member_of(memory@, ty@, member@),
{
    match vector_shape_of(ty.base.as_str()) {
        Some((element, length)) => eval_swizzle(member, element, length),
        None => match find_entry(&memory.structs, ty.base.as_str()) {
            Some(i) => {
                assert(memory@.structs[i as int].1 == memory.structs@[i as int].1.deep_view());
                field_type_of(&memory.structs[i].1.fields, member)
            },
            None => None,
        },
    }
}

fn constructs_struct(fields: &Vec<StructField>, args: &Vec<(Option<TokenKind>, TypeInfo)>) -> (r:
    bool)
    ensures
        r == constructs(fields.deep_view(), passed_view(args@)),
{
    if fields.len() != args.len() {
        return false;
    }
    let mut i: usize = 0;
    while i < fields.len()
        invariant
            i <= fields.len(),
            fields.len() == args.len(),
            forall|j: int|
                0 <= j < i ==> type_eq(fields.deep_view()[j].ty, (#[trigger] passed_view(
                    args@,
                )[j]).1),
        decreases fields.len() - i,
    {
        assert(fields.deep_view()[i as int] == fields@[i as int].deep_view());
        assert(passed_view(args@)[i as int].1 == args@[i as int].1@);
        if !(fields[i].ty == args[i].1) {
            return false;
        }
        i += 1;
    }
    true
}

fn qualifier_kind_at(param: &FunctionParam) -> (r: Option<TokenKind>)
    ensures
        r == qualifier_kind_of(param.qualifier),
{
    match param.qualifier {
        Some(q) => Some(q.kind()),
        None => None,
    }
}

fn same_kind(a: Option<TokenKind>, b: Option<TokenKind>) -> (r: bool)
    ensures
        r == (a == b),
{
    match (a, b) {
        (Some(x), Some(y)) => x == y,
        (None, None) => true,
        _ => false,
    }
}

fn signature_accepts(signature: &FunctionSignature, args: &Vec<(Option<TokenKind>, TypeInfo)>)
    -> (r: bool)
    ensures
        r == accepts(signature.deep_view(), passed_view(args@)),
{
    let params = &signature.params;
    if params.len() != args.len() {
        return false;
    }
    let ghost sig = signature.deep_view();
    let ghost passed = passed_view(args@);
    let mut i: usize = 0;
    while i < args.len()
        invariant
            i <= args.len(),
            params.len() == args.len(),
            sig == signature.deep_view(),
            passed == passed_view(args@),
            params == &signature.params,
            forall|j: int|
                0 <= j < i ==> (#[trigger] passed[j]).0 == qualifier_kind_of(
                    sig.params[j].qualifier,
                ) && type_eq(passed[j].1, sig.params[j].ty),
        decreases args.len() - i,
    {
        assert(sig.params[i as int] == params@[i as int].deep_view());
        assert(passed[i as int] == (args@[i as int].0, args@[i as int].1@));
        if !same_kind(args[i].0, qualifier_kind_at(&params[i])) {
            return false;
        }
        if !(args[i].1 == params[i].ty) {
            return false;
        }
        i += 1;
    }
    true
}

fn param_is_slot(param: &FunctionParam, sized: bool) -> (r: bool)
    ensures
        r == if sized {
            generically_sized(param.deep_view().ty.base) is Some
        } else {
            generically_typed(param.deep_view().ty.base) is Some
        },
{
    if sized {
        param.ty.is_generically_sized().is_some()
    } else {
        param.ty.is_generically_typed().is_some()
    }
}

fn same_shape(a: Option<GenericSize>, b: Option<GenericSize>) -> (r: bool)
    ensures
        r == (a == b),
{
    match (a, b) {
        (Some(x), Some(y)) => x == y,
        (None, None) => true,
        _ => false,
    }
}

fn same_element(a: Option<Primitive>, b: Option<Primitive>) -> (r: bool)
    ensures
        r == (a == b),
{
    match (a, b) {
        (Some(x), Some(y)) => x == y,
        (None, None) => true,
        _ => false,
    }
}

/// The index of the first generic slot among the parameters.
fn find_slot(params: &Vec<FunctionParam>, sized: bool) -> (r: Option<usize>)
    ensures
        r is Some <==> first_slot(params.deep_view(), 0, sized) is Some,
        r is Some ==> r->0 == first_slot(params.deep_view(), 0, sized)->0 && r->0 < params.len(),
{
    let mut i: usize = 0;
    while i < params.len()
        invariant
            i <= params.len(),
            first_slot(params.deep_view(), 0, sized) == first_slot(
                params.deep_view(),
                i as int,
                sized,
            ),
        decreases params.len() - i,
    {
        assert(params.deep_view()[i as int] == params@[i as int].deep_view());
        if param_is_slot(&params[i], sized) {
            return Some(i);
        }
        i += 1;
    }
    None
}

/// Whether the arguments in all slots that leave the size open have the
/// shape `shape`.
fn slots_share_shape(
    params: &Vec<FunctionParam>,
    args: &Vec<(Option<TokenKind>, TypeInfo)>,
    shape: Option<GenericSize>,
) -> (r: bool)
    requires
        params.len() == args.len(),
    ensures
        r == (forall|i: int|
            0 <= i < params.len() && is_slot(params.deep_view(), i, true) ==> slot_shape(
                #[trigger] passed_view(args@)[i],
            ) == shape),
{
    let ghost passed = passed_view(args@);
    let mut i: usize = 0;
    while i < params.len()
        invariant
            i <= params.len(),
            params.len() == args.len(),
            passed == passed_view(args@),
            forall|j: int|
                0 <= j < i && is_slot(params.deep_view(), j, true) ==> slot_shape(
                    #[trigger] passed[j],
                ) == shape,
        decreases params.len() - i,
    {
        assert(params.deep_view()[i as int] == params@[i as int].deep_view());
        assert(passed[i as int] == (args@[i as int].0, args@[i as int].1@));
        if param_is_slot(&params[i], true) {
            if !same_shape(args[i].1.get_generic_size(), shape) {
                return false;
            }
        }
        i += 1;
    }
    true
}

/// Whether the arguments in all slots that leave the element type open
/// have the element type `element`.
fn slots_share_element(
    params: &Vec<FunctionParam>,
    args: &Vec<(Option<TokenKind>, TypeInfo)>,
    element: Option<Primitive>,
) -> (r: bool)
    requires
        params.len() == args.len(),
    ensures
        r == (forall|i: int|
            0 <= i < params.len() && is_slot(params.deep_view(), i, false) ==> slot_element(
                #[trigger] passed_view(args@)[i],
            ) == element),
{
    let ghost passed = passed_view(args@);
    let mut i: usize = 0;
    while i < params.len()
        invariant
            i <= params.len(),
            params.len() == args.len(),
            passed == passed_view(args@),
            forall|j: int|
                0 <= j < i && is_slot(params.deep_view(), j, false) ==> slot_element(
                    #[trigger] passed[j],
                ) == element,
        decreases params.len() - i,
    {
        assert(params.deep_view()[i as int] == params@[i as int].deep_view());
        assert(passed[i as int] == (args@[i as int].0, args@[i as int].1@));
        if param_is_slot(&params[i], false) {
            if !same_element(args[i].1.get_generic_type(), element) {
                return false;
            }
        }
        i += 1;
    }
    true
}

fn exists_type(element: Primitive, shape: GenericSize) -> (r: bool)
    ensures
        r == pieces_exist(element, shape),
{
    match element {
        Primitive::Bool => shape.as_size().is_some(),
        _ => true,
    }
}

/// The return type of a call through a signature that accepts the
/// arguments.
fn signature_return(signature: &FunctionSignature, args: &Vec<(Option<TokenKind>, TypeInfo)>)
    -> (r: Option<TypeInfo>)
    requires
        signature.params.len() == args.len(),
    ensures
        r.deep_view() == return_type_for(signature.deep_view(), passed_view(args@)),
{
    let params = &signature.params;
    let ghost passed = passed_view(args@);
    if let Some(element) = signature.return_type.is_generically_sized() {
        match find_slot(params, true) {
            Some(first) => {
                assert(passed[first as int] == (args@[first as int].0, args@[first as int].1@));
                let shape = args[first].1.get_generic_size();
                match shape {
                    Some(s) => {
                        if exists_type(element, s) && slots_share_shape(params, args, shape) {
                            Some(TypeInfo::from_pieces(element, s))
                        } else {
                            None
                        }
                    },
                    None => None,
                }
            },
            None => None,
        }
    } else if let Some(shape) = signature.return_type.is_generically_typed() {
        match find_slot(params, false) {
            Some(first) => {
                assert(passed[first as int] == (args@[first as int].0, args@[first as int].1@));
                let element = args[first].1.get_generic_type();
                match element {
                    Some(e) => {
                        if exists_type(e, shape) && slots_share_element(params, args, element) {
                            Some(TypeInfo::from_pieces(e, shape))
                        } else {
                            None
                        }
                    },
                    None => None,
                }
            },
            None => None,
        }
    } else {
        Some(signature.return_type.clone())
    }
}

/// The return type by the first signature that fits the arguments.
fn resolve_call(signatures: &Vec<FunctionSignature>, args: &Vec<(Option<TokenKind>, TypeInfo)>)
    -> (r: Option<TypeInfo>)
    ensures
        r.deep_view() == resolve(signatures.deep_view(), passed_view(args@), 0),
{
    let mut i: usize = 0;
    while i < signatures.len()
        invariant
            i <= signatures.len(),
            resolve(signatures.deep_view(), passed_view(args@), 0) == resolve(
                signatures.deep_view(),
                passed_view(args@),
                i as int,
            ),
        decreases signatures.len() - i,
    {
        assert(signatures.deep_view()[i as int] == signatures@[i as int].deep_view());
        assert(signatures@[i as int].deep_view().params.len() == signatures@[i
            as int].params.len());
        if signature_accepts(&signatures[i], args) {
            let found = signature_return(&signatures[i], args);
            if found.is_some() {
                return found;
            }
        }
        i += 1;
    }
    None
}

/// Decides a call once its arguments are evaluated.
fn finish_call(
    memory: &mut Memory,
    name: &str,
    args: &Vec<(Option<TokenKind>, TypeInfo)>,
    args_const: bool,
    range: Range,
) -> (r: ExprEvalResult)
    ensures
        fulfils(
            old(memory)@,
            final(memory)@,
            r,
            call_type(old(memory)@, name@, passed_view(args@), args_const, range),
        ),
{
    let mut found: Option<ExpressionEvaluation> = None;
    let mut known = true;
    match find_entry(&memory.structs, name) {
        Some(i) => {
            assert(memory@.structs[i as int].1 == memory.structs@[i as int].1.deep_view());
            if constructs_struct(&memory.structs[i].1.fields, args) {
                found = Some(ExpressionEvaluation::new(TypeInfo::from_str(name), args_const, false));
            }
        },
        None => match find_entry(&memory.functions, name) {
            Some(i) => {
                assert(memory@.functions[i as int].1 == memory.functions@[i
                    as int].1.deep_view());
                let function = &memory.functions[i].1;
                match resolve_call(&function.signatures, args) {
                    Some(ty) => {
                        found = Some(
                            ExpressionEvaluation::new(ty, args_const && function.is_const, false),
                        );
                    },
                    None => {},
                }
            },
            None => {
                known = false;
            },
        },
    }
    match found {
        Some(evaluation) => Ok(evaluation),
        None => {
            if known {
                let message = concat3("Invalid arguments for function '", name, "'");
                fail(memory, message.as_str(), range)
            } else {
                let message = concat3("Function '", name, "' does not exist.");
                fail(memory, message.as_str(), range)
            }
        },
    }
}

/// Evaluates an expression: gives its type, whether it is constant and whether it
/// can be assigned to, or puts the one error that stopped the evaluation on
/// record.
pub fn evaluate_expression(memory: &mut Memory, expr: ExpressionNode) -> (r: ExprEvalResult)
    requires
        expression_ok(expr@),
    ensures
        fulfils(old(memory)@, final(memory)@, r, type_of(old(memory)@, expr@)),
{
    evaluate(memory, &expr)
}

/// Evaluates an expression in place.
pub fn evaluate(memory: &mut Memory, expr: &ExpressionNode) -> (r: ExprEvalResult)
    requires
        expression_ok(expr@),
    ensures
        fulfils(old(memory)@, final(memory)@, r, type_of(old(memory)@, expr@)),
    decreases expr,
{
    let range = expr.range();
    match expr {
        ExpressionNode::Identifier(x) => eval_identifier_expr(memory, *x, range),
        ExpressionNode::Unary(x) => eval_unary_expr(memory, x, range),
        ExpressionNode::Binary(x) => eval_binary_expr(memory, x, range),
        ExpressionNode::Paren(x) => evaluate(memory, x),
        ExpressionNode::Conditional(x) => eval_conditional(memory, x, range),
        ExpressionNode::Call(x) => eval_call_expr(memory, x, range),
        ExpressionNode::ArrayAccess(x) => eval_array_access(memory, x, range),
        ExpressionNode::MemberAccess(x) => eval_member_access(memory, x, range),
        ExpressionNode::ArrayLiteral(x) => eval_array_literal(memory, x, range),
        ExpressionNode::Assignment(x) => eval_assignment_expr(memory, x, range),
        ExpressionNode::Increment(x) => eval_increment_expr(memory, x, range),
        ExpressionNode::Primitive(p) => Ok(
            ExpressionEvaluation::new(TypeInfo::from_primitive(*p), true, false),
        ),
    }
}

fn eval_increment_expr(memory: &mut Memory, increment: &IncrementNode, range: Range) -> (r:
    ExprEvalResult)
    requires
        expression_ok(ExpressionNode::Increment(*increment)@),
        range == expression_range(ExpressionNode::Increment(*increment)@),
    ensures
        fulfils(
            old(memory)@,
            final(memory)@,
            r,
            type_of(old(memory)@, ExpressionNode::Increment(*increment)@),
        ),
    decreases increment,
{
    let result = evaluate(memory, &increment.arg)?;
    if !result.is_assignable || result.is_const {
        return fail(memory, "Cannot change a constant value.", range);
    }
    operate(memory, OperationType::Number, &result.type_info, range)?;
    Ok(ExpressionEvaluation::new(result.type_info, result.is_const, false))
}

fn eval_assignment_expr(memory: &mut Memory, assignment: &AssignmentNode, range: Range) -> (r:
    ExprEvalResult)
    requires
        expression_ok(ExpressionNode::Assignment(*assignment)@),
        range == expression_range(ExpressionNode::Assignment(*assignment)@),
    ensures
        fulfils(
            old(memory)@,
            final(memory)@,
            r,
            type_of(old(memory)@, ExpressionNode::Assignment(*assignment)@),
        ),
    decreases assignment,
{
    let left_range = assignment.left.range();
    let left_result = evaluate(memory, &assignment.left)?;
    let right_result = evaluate(memory, &assignment.right)?;
    if !left_result.is_assignable || left_result.is_const {
        return fail(memory, "Cannot assign to a constant value.", left_range);
    }
    if !(left_result.type_info == right_result.type_info) {
        let message = concat5(
            "Type mismatch: '",
            left_result.type_info.to_string().as_str(),
            "' and '",
            right_result.type_info.to_string().as_str(),
            "'.",
        );
        return fail(memory, message.as_str(), range);
    }
    let class = match assignment.op.to_assignment_op() {
        Some(class) => class,
        None => OperationType::Equal,
    };
    operate(memory, class, &left_result.type_info, left_range)?;
    operate(memory, class, &right_result.type_info, left_range)?;
    Ok(ExpressionEvaluation::new(left_result.type_info, left_result.is_const, false))
}

/// Evaluates the elements of an array literal behind the first.
fn eval_elements(
    memory: &mut Memory,
    items: &Vec<ExpressionNode>,
    first: &ExpressionEvaluation,
    range: Range,
) -> (r: Result<bool, EvaluateError>)
    requires
        forall|i: int| 0 <= i < items.len() ==> expression_ok(#[trigger] items@[i]@),
    ensures
        match elements_of(
            old(memory)@,
            expressions_view(items@),
            1,
            first@,
            first.is_const,
            range,
        ) {
            Ok(all_const) => r == Ok::<bool, EvaluateError>(all_const) && final(memory)@ == old(
                memory,
            )@,
            Err(d) => r is Err && r->Err_0 == EvaluateError::SemanticsError && final(memory)@
                == old(memory)@.alert(d),
        },
    decreases items, 0nat,
{
    let ghost m = memory@;
    let ghost views = expressions_view(items@);
    let mut all_const = first.is_const;
    let mut i: usize = 1;
    while i < items.len()
        invariant
            1 <= i,
            memory@ == m,
            m == old(memory)@,
            views == expressions_view(items@),
            forall|j: int| 0 <= j < items.len() ==> expression_ok(#[trigger] items@[j]@),
            elements_of(m, views, 1, first@, first.is_const, range) == elements_of(
                m,
                views,
                i as nat,
                first@,
                all_const,
                range,
            ),
        decreases items.len() - i,
    {
        assert(views[i as int] == items@[i as int]@);
        let result = evaluate(memory, &items[i])?;
        if !(result.type_info == first.type_info) {
            let message = concat4(
                "Mismatched types: ",
                first.type_info.to_string().as_str(),
                " and ",
                result.type_info.to_string().as_str(),
            );
            return Err(memory.alert_error(message.as_str(), range));
        }
        if !result.is_const {
            all_const = false;
        }
        i += 1;
    }
    Ok(all_const)
}

fn eval_array_literal(memory: &mut Memory, array_literal: &Vec<ExpressionNode>, range: Range) -> (r:
    ExprEvalResult)
    requires
        expression_ok(ExpressionNode::ArrayLiteral(*array_literal)@),
        range == expression_range(ExpressionNode::ArrayLiteral(*array_literal)@),
    ensures
        fulfils(
            old(memory)@,
            final(memory)@,
            r,
            type_of(old(memory)@, ExpressionNode::ArrayLiteral(*array_literal)@),
        ),
    decreases array_literal, 1nat,
{
    proof {
        lemma_array_literal_view(*array_literal);
    }
    let len = array_literal.len();
    if len == 0 {
        return fail(memory, "Empty array literal.", range);
    }
    assert(expressions_view(array_literal@)[0] == array_literal@[0]@);
    assert forall|i: int| 0 <= i < array_literal.len() implies expression_ok(
        #[trigger] array_literal@[i]@,
    ) by {
        assert(expressions_view(array_literal@)[i] == array_literal@[i]@);
    }
    let first_range = array_literal[0].range();
    let first_result = evaluate(memory, &array_literal[0])?;
    if first_result.type_info.size != 0 {
        return fail(memory, "Nested array types are not allowed.", first_range);
    }
    let is_const = eval_elements(memory, array_literal, &first_result, range)?;
    let size: u32 = if len > 0xffff_ffff {
        0xffff_ffff
    } else {
        len as u32
    };
    Ok(
        ExpressionEvaluation::new(
            TypeInfo { base: first_result.type_info.base, size },
            is_const,
            false,
        ),
    )
}

fn eval_member_access(memory: &mut Memory, member_access: &MemberAccessNode, range: Range) -> (r:
    ExprEvalResult)
    requires
        expression_ok(ExpressionNode::MemberAccess(*member_access)@),
        range == expression_range(ExpressionNode::MemberAccess(*member_access)@),
    ensures
        fulfils(
            old(memory)@,
            final(memory)@,
            r,
            type_of(old(memory)@, ExpressionNode::MemberAccess(*member_access)@),
        ),
    decreases member_access,
{
    let member = memory.get_token_text(member_access.member);
    let argument_result = evaluate(memory, &member_access.argument)?;
    if argument_result.type_info.size != 0 {
        let message = concat2(
            "Cannot access member of array type ",
            argument_result.type_info.to_string().as_str(),
        );
        return fail(memory, message.as_str(), range);
    }
    match member_type(memory, &argument_result.type_info, member.as_str()) {
        Some(ty) => Ok(
            ExpressionEvaluation::new(
                ty,
                argument_result.is_const,
                argument_result.is_assignable,
            ),
        ),
        None => {
            let message = concat4(
                "Type ",
                argument_result.type_info.to_string().as_str(),
                " has no member ",
                member.as_str(),
            );
            fail(memory, message.as_str(), range)
        },
    }
}

fn eval_array_access(memory: &mut Memory, array_access: &ArrayAccessNode, range: Range) -> (r:
    ExprEvalResult)
    requires
        expression_ok(ExpressionNode::ArrayAccess(*array_access)@),
        range == expression_range(ExpressionNode::ArrayAccess(*array_access)@),
    ensures
        fulfils(
            old(memory)@,
            final(memory)@,
            r,
            type_of(old(memory)@, ExpressionNode::ArrayAccess(*array_access)@),
        ),
    decreases array_access,
{
    let argument_result = evaluate(memory, &array_access.argument)?;
    let index_result = evaluate(memory, &array_access.index)?;
    let is_const = argument_result.is_const && index_result.is_const;
    let is_assignable = argument_result.is_assignable;
    if !(index_result.type_info == TypeInfo::from_str("int")) && !(index_result.type_info
        == TypeInfo::from_str("uint")) {
        let message = concat2(
            "Cannot index with type ",
            index_result.type_info.to_string().as_str(),
        );
        return fail(memory, message.as_str(), range);
    }
    match index_type(&argument_result.type_info) {
        Some(ty) => Ok(ExpressionEvaluation::new(ty, is_const, is_assignable)),
        None => {
            let message = concat3(
                "Type ",
                argument_result.type_info.to_string().as_str(),
                " cannot be indexed.",
            );
            fail(memory, message.as_str(), range)
        },
    }
}

/// Evaluates the arguments of a call in order.
fn eval_arguments(memory: &mut Memory, args: &Vec<CallArgumentNode>) -> (r: Result<
    (Vec<(Option<TokenKind>, TypeInfo)>, bool),
    EvaluateError,
>)
    requires
        forall|i: int| 0 <= i < args.len() ==> expression_ok((#[trigger] args@[i]).expression@),
    ensures
        match arguments_of(old(memory)@, arguments_view(args@), 0, Seq::empty(), true) {
            Ok((passed, all_const)) => r is Ok && passed_view(r->Ok_0.0@) == passed && r->Ok_0.1
                == all_const && final(memory)@ == old(memory)@,
            Err(d) => r is Err && r->Err_0 == EvaluateError::SemanticsError && final(memory)@
                == old(memory)@.alert(d),
        },
    decreases args,
{
    let ghost m = memory@;
    let ghost views = arguments_view(args@);
    let mut passed: Vec<(Option<TokenKind>, TypeInfo)> = Vec::new();
    let mut all_const = true;
    let mut i: usize = 0;
    assert(passed_view(passed@) =~= Seq::empty());
    while i < args.len()
        invariant
            i <= args.len(),
            memory@ == m,
            m == old(memory)@,
            views == arguments_view(args@),
            forall|j: int|
                0 <= j < args.len() ==> expression_ok((#[trigger] args@[j]).expression@),
            arguments_of(m, views, 0, Seq::empty(), true) == arguments_of(
                m,
                views,
                i as nat,
                passed_view(passed@),
                all_const,
            ),
        decreases args.len() - i,
    {
        assert(views[i as int] == args@[i as int]@);
        let ghost before = passed_view(passed@);
        let result = evaluate(memory, &args[i].expression)?;
        if !result.is_const {
            all_const = false;
        }
        let kind = match args[i].qualifier {
            Some(q) => Some(q.kind),
            None => None,
        };
        passed.push((kind, result.type_info));
        assert(passed_view(passed@) =~= before.push((kind, result.type_info@)));
        i += 1;
    }
    Ok((passed, all_const))
}

fn eval_call_expr(memory: &mut Memory, call: &CallNode, range: Range) -> (r: ExprEvalResult)
    requires
        expression_ok(ExpressionNode::Call(*call)@),
        range == expression_range(ExpressionNode::Call(*call)@),
    ensures
        fulfils(
            old(memory)@,
            final(memory)@,
            r,
            type_of(old(memory)@, ExpressionNode::Call(*call)@),
        ),
    decreases call,
{
    proof {
        lemma_call_view(*call);
    }
    assert forall|i: int| 0 <= i < call.args.len() implies expression_ok(
        (#[trigger] call.args@[i]).expression@,
    ) by {
        assert(arguments_view(call.args@)[i] == call.args@[i]@);
    }
    let call_name = memory.get_token_text(call.identifier);
    let (passed, is_const) = eval_arguments(memory, &call.args)?;
    finish_call(memory, call_name.as_str(), &passed, is_const, range)
}

fn eval_conditional(memory: &mut Memory, conditional: &ConditionalNode, range: Range) -> (r:
    ExprEvalResult)
    requires
        expression_ok(ExpressionNode::Conditional(*conditional)@),
        range == expression_range(ExpressionNode::Conditional(*conditional)@),
    ensures
        fulfils(
            old(memory)@,
            final(memory)@,
            r,
            type_of(old(memory)@, ExpressionNode::Conditional(*conditional)@),
        ),
    decreases conditional,
{
    let condition_result = evaluate(memory, &conditional.condition)?;
    if !(condition_result.type_info == TypeInfo::from_str("bool")) {
        let message = concat2(
            "Condition type must be bool, not ",
            condition_result.type_info.to_string().as_str(),
        );
        return fail(memory, message.as_str(), range);
    }
    let left_result = evaluate(memory, &conditional.action)?;
    let right_result = evaluate(memory, &conditional.alternate)?;
    let is_const = left_result.is_const && right_result.is_const && condition_result.is_const;
    if !(left_result.type_info == right_result.type_info) {
        let message = concat4(
            "Type mismatch: ",
            left_result.type_info.to_string().as_str(),
            " & ",
            right_result.type_info.to_string().as_str(),
        );
        fail(memory, message.as_str(), range)
    } else {
        Ok(ExpressionEvaluation::new(left_result.type_info, is_const, false))
    }
}

/// The number of components of a type.
fn arity(ty: &TypeInfo) -> (r: Option<u32>)
    ensures
        r == arity_of(ty@),
{
    match ty.get_generic_size() {
        Some(shape) => shape.as_size(),
        None => None,
    }
}

/// The type on which a binary operator works.
fn operand_type(left: &TypeInfo, right: &TypeInfo) -> (r: Option<TypeInfo>)
    ensures
        r.deep_view() == binary_operand_type(left@, right@),
{
    match (arity(left), arity(right), left.get_generic_type(), right.get_generic_type()) {
        (Some(left_size), Some(right_size), Some(left_element), Some(right_element)) => {
            if left_element != right_element {
                None
            } else if left_size == right_size {
                Some(left.clone())
            } else if left_size == 1 {
                Some(right.clone())
            } else if right_size == 1 {
                Some(left.clone())
            } else {
                None
            }
        },
        _ => None,
    }
}

fn eval_binary_expr(memory: &mut Memory, binary: &BinaryNode, range: Range) -> (r: ExprEvalResult)
    requires
        expression_ok(ExpressionNode::Binary(*binary)@),
        range == expression_range(ExpressionNode::Binary(*binary)@),
    ensures
        fulfils(
            old(memory)@,
            final(memory)@,
            r,
            type_of(old(memory)@, ExpressionNode::Binary(*binary)@),
        ),
    decreases binary,
{
    let left = evaluate(memory, &binary.left)?;
    let right = evaluate(memory, &binary.right)?;
    let is_const = left.is_const && right.is_const;
    match operand_type(&left.type_info, &right.type_info) {
        None => {
            let message = concat4(
                "Type mismatch: ",
                left.type_info.to_string().as_str(),
                " & ",
                right.type_info.to_string().as_str(),
            );
            fail(memory, message.as_str(), range)
        },
        Some(correct_type) => {
            let class = match binary.op.to_binary_op() {
                Some(class) => class,
                None => OperationType::Equal,
            };
            let ty = operate(memory, class, &correct_type, range)?;
            Ok(ExpressionEvaluation::new(ty, is_const, false))
        },
    }
}

fn eval_unary_expr(memory: &mut Memory, unary: &UnaryNode, range: Range) -> (r: ExprEvalResult)
    requires
        expression_ok(ExpressionNode::Unary(*unary)@),
        range == expression_range(ExpressionNode::Unary(*unary)@),
    ensures
        fulfils(
            old(memory)@,
            final(memory)@,
            r,
            type_of(old(memory)@, ExpressionNode::Unary(*unary)@),
        ),
    decreases unary,
{
    let result = evaluate(memory, &unary.arg)?;
    let class = match unary.op.to_unary_op() {
        Some(class) => class,
        None => OperationType::Equal,
    };
    let ty = operate(memory, class, &result.type_info, range)?;
    Ok(ExpressionEvaluation::new(ty, result.is_const, false))
}

fn eval_identifier_expr(memory: &mut Memory, value: Token, range: Range) -> (r: ExprEvalResult)
    ensures
        fulfils(
            old(memory)@,
            final(memory)@,
            r,
            identifier_type(old(memory)@, value, range),
        ),
{
    let identifier = memory.get_token_text(value);
    let mut found: Option<ExpressionEvaluation> = None;
    {
        let tables = memory.scopes.collect_scopes();
        match crate::memory::find_in_tables(&tables, identifier.as_str()) {
            Some(info) => {
                found = Some(ExpressionEvaluation::new(info.ty.clone(), info.is_const, true));
            },
            None => {},
        }
    }
    match found {
        Some(evaluation) => Ok(evaluation),
        None => {
            let message = concat3("Identifier '", identifier.as_str(), "' is undefined.");
            fail(memory, message.as_str(), range)
        },
    }
}

/// A scalar spreads over a vector: a scalar and a vector of the same
/// element type combine, on either side, to the type of the vector.
pub proof fn lemma_scalar_spreads_over_vector(scalar: SpecTypeInfo, vector: SpecTypeInfo)
    requires
        arity_of(scalar) == Some(1u32),
        arity_of(vector) is Some,
        arity_of(vector)->0 > 1,
        generic_type_of(scalar.base) is Some,
        generic_type_of(scalar.base) == generic_type_of(vector.base),
    ensures
        binary_operand_type(scalar, vector) == Some(vector),
        binary_operand_type(vector, scalar) == Some(vector),
{
}

/// Two vectors of different numbers of components never combine, whatever
/// their element types.
pub proof fn lemma_vectors_of_different_size_do_not_combine(a: SpecTypeInfo, b: SpecTypeInfo)
    requires
        arity_of(a) is Some,
        arity_of(b) is Some,
        arity_of(a)->0 > 1,
        arity_of(b)->0 > 1,
        arity_of(a) != arity_of(b),
    ensures
        binary_operand_type(a, b) is None,
{
}

/// Arithmetic accepts every type that has a number of components and an
/// element type, unless it is an array.
pub proof fn lemma_arithmetic_takes_numbers_and_vectors(ty: SpecTypeInfo)
    requires
        arity_of(ty) is Some,
        generic_type_of(ty.base) is Some,
        ty.size == 0,
    ensures
        operation_type(OperationType::Number, ty) == Some(ty),
{
    reveal_type_names();
}

/// The scalar broadcast law: an arithmetic operator between a scalar and a
/// vector of the same element type succeeds and yields the type of the
/// vector; between two vectors of different numbers of components it is a
/// type mismatch.
pub proof fn lemma_scalar_broadcast(
    left: SpecEvaluation,
    right: SpecEvaluation,
    op: Token,
    range: Range,
)
    requires
        binary_op_of(op.kind) == Some(OperationType::Number),
        arity_of(left.type_info) is Some,
        arity_of(right.type_info) is Some,
    ensures
        arity_of(left.type_info)->0 == 1 && arity_of(right.type_info)->0 > 1 && generic_type_of(
            left.type_info.base,
        ) is Some && generic_type_of(left.type_info.base) == generic_type_of(right.type_info.base)
            && right.type_info.size == 0 ==> binary_type(left, right, op, range) == Ok::<
            SpecEvaluation,
            SpecDiagnostic,
        >(evaluation(right.type_info, left.is_const && right.is_const, false)),
        arity_of(right.type_info)->0 == 1 && arity_of(left.type_info)->0 > 1 && generic_type_of(
            left.type_info.base,
        ) is Some && generic_type_of(left.type_info.base) == generic_type_of(right.type_info.base)
            && left.type_info.size == 0 ==> binary_type(left, right, op, range) == Ok::<
            SpecEvaluation,
            SpecDiagnostic,
        >(evaluation(left.type_info, left.is_const && right.is_const, false)),
        arity_of(left.type_info)->0 > 1 && arity_of(right.type_info)->0 > 1 && arity_of(
            left.type_info,
        ) != arity_of(right.type_info) ==> binary_type(left, right, op, range) == Err::<
            SpecEvaluation,
            SpecDiagnostic,
        >(mismatch(left.type_info, right.type_info, range)),
{
    if generic_type_of(left.type_info.base) is Some && generic_type_of(left.type_info.base)
        == generic_type_of(right.type_info.base) {
        if arity_of(left.type_info)->0 == 1 && arity_of(right.type_info)->0 > 1
            && right.type_info.size == 0 {
            lemma_scalar_spreads_over_vector(left.type_info, right.type_info);
            lemma_arithmetic_takes_numbers_and_vectors(right.type_info);
        }
        if arity_of(right.type_info)->0 == 1 && arity_of(left.type_info)->0 > 1
            && left.type_info.size == 0 {
            lemma_scalar_spreads_over_vector(right.type_info, left.type_info);
            lemma_arithmetic_takes_numbers_and_vectors(left.type_info);
        }
    }
}

} // verus!

//! Top-level evaluation: what each declaration of a document does to the
//! semantic environment.

use vstd::prelude::*;
use vstd::string::*;
use crate::interpreter::expression_interpreter::expression_ok;
use crate::interpreter::statement_interpreter::{
    after_binding, after_statement, after_statements, carried_out, declare_checked, declared,
    execute_all, lemma_binding_grows, lemma_binding_keeps_basis, lemma_block_statements_ok,
    lemma_statement_grows, lemma_statement_keeps_basis, lemma_statements_grow, statement_ok,
};
use crate::interpreter::{
    ensure_valid_id, ensure_valid_type, id_fault, type_fault, EvaluateError, EvaluateResult,
};
use crate::lexer::token::Token;
use crate::memory::builtins::{copy_values, entry_variables, modes_of};
use crate::memory::functions::{
    is_qualifier_kind, qualifier_of_kind, FunctionInfo, FunctionParam, FunctionParamQualifier,
    FunctionSignature, SpecFunctionInfo, SpecFunctionParam, SpecFunctionSignature,
};

use crate::memory::scope::{
    lemma_binding_keeps_root, lemma_extending_keeps_root, lemma_growth_adds_up,
    lemma_root_is_visible_everywhere, lemma_root_keeping_adds_up,
    lemma_scope_ends_with_its_body, lemma_settled_sees_the_same, FunctionReturn, ScopeType,
    SpecFunctionReturn, SpecScopeType,
};
use crate::memory::table::{
    find_entry, has_name, lemma_lookup_after_put, lookup, put_entry, with_entry, SpecTable,
};
use crate::memory::types::{type_eq, type_text, SpecTypeInfo, TypeInfo};
use crate::memory::{
    find_visible, Memory, ShaderType, SpecMemory, SpecStructField, SpecStructInfo, SpecValueInfo, StructField,
    StructInfo, ValueInfo,
};
use crate::nodes::statement_node::{block_view, SpecStatement};
use crate::nodes::top_level_nodes::{
    params_view, top_levels_view, values_view, ConstNode, FunctionNode, HintNode, ParamNode, RenderModeNode,
    ShaderTypeNode, SpecHint, SpecParam, SpecTopLevel, StructNode, TopLevelNode, UniformNode,
    VaryingNode,
};
use crate::nodes::expression_node::SpecExpression;
use crate::nodes::{SpecTypeNode, SpecValueNode, ValueNode};
use crate::position::Range;
use crate::source_code::{error_at, SpecDiagnostic};
use crate::text::{concat3, str_eq};

verus! {

/// Whether a top-level declaration can be evaluated at all: its
/// expressions and statements can, and what stands for a qualifier is one.
pub open spec fn top_level_ok(node: SpecTopLevel) -> bool {
    match node {
        SpecTopLevel::Const { keyword, precision, value, expression } => expression_ok(expression),
        SpecTopLevel::Uniform { global_instance, keyword, precision, value, hint, expression } => {
            expression is Some ==> expression_ok(expression->0)
        },
        SpecTopLevel::Function { type_node, identifier, params, block } => {
            &&& statement_ok(block)
            &&& block is Block
            &&& forall|i: int|
                0 <= i < params.len() ==> ((#[trigger] params[i]).qualifier is Some
                    ==> is_qualifier_kind(params[i].qualifier->0.kind))
        },
        _ => true,
    }
}

/// The kind of shader that a name declares.
pub open spec fn shader_named(name: Seq<char>) -> Option<ShaderType> {
    if name == "spatial"@ {
        Some(ShaderType::Spatial)
    } else if name == "canvas_item"@ {
        Some(ShaderType::CanvasItem)
    } else if name == "particles"@ {
        Some(ShaderType::Particles)
    } else if name == "sky"@ {
        Some(ShaderType::Sky)
    } else if name == "fog"@ {
        Some(ShaderType::Fog)
    } else {
        None
    }
}

/// The environment after a shader-type declaration: the kind of shader is
/// set, with it the render modes it accepts, and a sky shader binds its
/// built-in names.
pub open spec fn after_shader_type(m: SpecMemory, shader_type: Token) -> (SpecMemory, bool) {
    match shader_named(m.token_text(shader_type)) {
        Some(kind) => (
            SpecMemory {
                shader_type: kind,
                valid_render_modes: match modes_of(m.builtins, kind) {
                    Some(modes) => modes,
                    None => m.valid_render_modes,
                },
                scopes: if kind == ShaderType::Sky {
                    m.scopes.extend(m.builtins.sky)
                } else {
                    m.scopes
                },
                ..m
            },
            true,
        ),
        None => (m.alert(error_at(shader_type.range, "Invalid Shader Type."@)), false),
    }
}

/// The first of the render modes from `from` on that the shader does not
/// accept.
pub open spec fn first_invalid_mode(m: SpecMemory, modes: Seq<Token>, from: int) -> Option<Token>
    decreases modes.len() - from,
{
    if from < 0 || from >= modes.len() {
        None
    } else if !has_name(m.valid_render_modes, m.token_text(modes[from])) {
        Some(modes[from])
    } else {
        first_invalid_mode(m, modes, from + 1)
    }
}

/// The environment after a render-mode declaration: the first mode that
/// the shader does not accept is an error.
pub open spec fn after_render_mode(m: SpecMemory, modes: Seq<Token>) -> (SpecMemory, bool) {
    match first_invalid_mode(m, modes, 0) {
        Some(mode) => (m.alert(error_at(mode.range, "Invalid Render Mode."@)), false),
        None => (m, true),
    }
}

/// Whether one of `types` matches `ty`.
pub open spec fn types_contain(types: Seq<SpecTypeInfo>, ty: SpecTypeInfo) -> bool {
    exists|i: int| 0 <= i < types.len() && type_eq(#[trigger] types[i], ty)
}

/// The first `n` of `types`, each in quotes, with " or " between them.
pub open spec fn quoted_types(types: Seq<SpecTypeInfo>, n: nat) -> Seq<char>
    decreases n,
{
    if n == 0 || n > types.len() {
        Seq::empty()
    } else if n == 1 {
        "'"@ + type_text(types[0]) + "'"@
    } else {
        quoted_types(types, (n - 1) as nat) + " or "@ + "'"@ + type_text(types[n - 1]) + "'"@
    }
}

/// The number of arguments that a hint was given.
pub open spec fn hint_arguments(hint: SpecHint) -> nat {
    match hint.params {
        Some(p) => p.len(),
        None => 0,
    }
}

/// The environment after the hint of a uniform of type `ty`: the hint must
/// be known, take the number of arguments it was given, and accept the
/// type.
pub open spec fn after_hint(m: SpecMemory, hint: SpecHint, ty: SpecTypeInfo) -> SpecMemory {
    let at = hint.identifier.range;
    match lookup(m.hints, m.token_text(hint.identifier)) {
        Some(info) => {
            let counted = if !info.num_arguments.contains(hint_arguments(hint) as usize) {
                m.alert(error_at(at, "Invalid number of hint args."@))
            } else {
                m
            };
            if !types_contain(info.type_info, ty) {
                counted.alert(
                    error_at(
                        at,
                        "Hint expects type "@ + quoted_types(info.type_info, info.type_info.len())
                            + "."@,
                    ),
                )
            } else {
                counted
            }
        },
        None => m.alert(error_at(at, "Invalid hint."@)),
    }
}

/// The environment after a uniform declaration.
pub open spec fn after_uniform(
    m: SpecMemory,
    value: SpecValueNode,
    hint: Option<SpecHint>,
    expression: Option<SpecExpression>,
) -> (SpecMemory, bool) {
    let (checked, ok) = crate::interpreter::value_check(m, value, expression, true);
    if !ok {
        (checked, false)
    } else {
        let hinted = match hint {
            Some(h) => after_hint(checked, h, value.type_node.info),
            None => checked,
        };
        (crate::interpreter::statement_interpreter::bind(hinted, value, false, false), true)
    }
}

/// Whether one of `fields` is called `name`.
pub open spec fn has_field(fields: Seq<SpecStructField>, name: Seq<char>) -> bool {
    exists|i: int| 0 <= i < fields.len() && (#[trigger] fields[i]).name == name
}

/// The error for a name that a list declares twice.
pub open spec fn duplicate(what: Seq<char>, name: Seq<char>, range: Range) -> SpecDiagnostic {
    error_at(range, "Duplicate "@ + what + ": '"@ + name + "'"@)
}

/// The fields of a struct from `from` on, added to those in `done`: a name
/// that is already a field and a type that is unknown are errors.
pub open spec fn struct_fields(
    m: SpecMemory,
    fields: Seq<SpecValueNode>,
    from: nat,
    done: Seq<SpecStructField>,
) -> Result<Seq<SpecStructField>, SpecDiagnostic>
    decreases fields.len() - from,
{
    if from >= fields.len() {
        Ok(done)
    } else {
        let field = fields[from as int];
        let name = m.token_text(field.identifier);
        if has_field(done, name) {
            Err(duplicate("field"@, name, field.range))
        } else if type_fault(m, field.type_node) is Some {
            Err(type_fault(m, field.type_node)->0)
        } else {
            struct_fields(
                m,
                fields,
                from + 1,
                done.push(SpecStructField { name, ty: field.type_node.info, range: field.range }),
            )
        }
    }
}

/// The environment after a struct declaration: the struct is on record
/// under its name.
pub open spec fn after_struct(m: SpecMemory, identifier: Token, fields: Seq<SpecValueNode>) -> (
    SpecMemory,
    bool,
) {
    if id_fault(m, identifier) is Some {
        (m.alert(id_fault(m, identifier)->0), false)
    } else {
        match struct_fields(m, fields, 0, Seq::empty()) {
            Err(d) => (m.alert(d), false),
            Ok(done) => (
                SpecMemory {
                    structs: with_entry(
                        m.structs,
                        m.token_text(identifier),
                        SpecStructInfo { fields: done, range: identifier.range },
                    ),
                    ..m
                },
                true,
            ),
        }
    }
}

/// A parameter with the place where it was declared.
pub type PlacedParam = (SpecFunctionParam, Range);

/// Whether one of `params` is called `name`.
pub open spec fn has_param(params: Seq<PlacedParam>, name: Seq<char>) -> bool {
    exists|i: int| 0 <= i < params.len() && (#[trigger] params[i]).0.name == name
}

/// The qualifier that a token writes, if there is a token.
pub open spec fn qualifier_of(token: Option<Token>) -> Option<FunctionParamQualifier> {
    match token {
        Some(t) => Some(qualifier_of_kind(t.kind)),
        None => None,
    }
}

/// The parameters of a function from `from` on, added to those in `done`:
/// a name that is already a parameter and a type that is unknown are
/// errors.
pub open spec fn function_params(
    m: SpecMemory,
    params: Seq<SpecParam>,
    from: nat,
    done: Seq<PlacedParam>,
) -> Result<Seq<PlacedParam>, SpecDiagnostic>
    decreases params.len() - from,
{
    if from >= params.len() {
        Ok(done)
    } else {
        let param = params[from as int];
        let name = m.token_text(param.value_node.identifier);
        if has_param(done, name) {
            Err(duplicate("param"@, name, param.value_node.range))
        } else if type_fault(m, param.value_node.type_node) is Some {
            Err(type_fault(m, param.value_node.type_node)->0)
        } else {
            function_params(
                m,
                params,
                from + 1,
                done.push(
                    (
                        SpecFunctionParam {
                            name,
                            ty: param.value_node.type_node.info,
                            qualifier: qualifier_of(param.qualifier),
                        },
                        param.value_node.range,
                    ),
                ),
            )
        }
    }
}

/// What a parameter is bound to inside its function.
pub open spec fn parameter_value(param: PlacedParam) -> SpecValueInfo {
    SpecValueInfo {
        ty: param.0.ty,
        editable: true,
        is_const: false,
        range: Some(param.1),
        description: None,
    }
}

/// The environment with the parameters from `from` on bound in the
/// current scope.
pub open spec fn bind_params(m: SpecMemory, params: Seq<PlacedParam>, from: nat) -> SpecMemory
    decreases params.len() - from,
{
    if from >= params.len() {
        m
    } else {
        bind_params(
            m.with_scopes(m.scopes.insert(params[from as int].0.name, parameter_value(params[from as int]))),
            params,
            from + 1,
        )
    }
}

/// The environment with the tables from `from` on bound in the current
/// scope, one after the other.
pub open spec fn bind_tables(m: SpecMemory, tables: Seq<SpecTable<SpecValueInfo>>, from: nat)
    -> SpecMemory
    decreases tables.len() - from,
{
    if from >= tables.len() {
        m
    } else {
        bind_tables(m.with_scopes(m.scopes.extend(tables[from as int])), tables, from + 1)
    }
}

/// The return type that a function declares: none for `void`.
pub open spec fn declared_return(ty: SpecTypeInfo) -> Option<SpecTypeInfo> {
    if ty.base == "void"@ {
        None
    } else {
        Some(ty)
    }
}

/// The signature list of a declared function.
pub open spec fn declared_function(
    return_type: SpecTypeInfo,
    params: Seq<PlacedParam>,
    range: Range,
) -> SpecFunctionInfo {
    SpecFunctionInfo {
        signatures: seq![
            SpecFunctionSignature {
                return_type,
                params: params.map_values(|p: PlacedParam| p.0),
            },
        ],
        range: Some(range),
        description: None,
        is_const: false,
    }
}

/// The environment on entry to the body of a function: a function scope
/// that holds the parameters and the built-in names of this entry point.
pub open spec fn function_entry(
    m: SpecMemory,
    type_node: SpecTypeNode,
    name: Seq<char>,
    params: Seq<PlacedParam>,
    block_range: Range,
) -> SpecMemory {
    let entered = m.with_scopes(
        m.scopes.enter(
            SpecScopeType::Function(
                SpecFunctionReturn { expected: declared_return(type_node.info), returned: None },
            ),
            block_range,
        ),
    );
    bind_tables(
        bind_params(entered, params, 0),
        entry_variables(m.builtins, m.shader_type, name),
        0,
    )
}

/// The environment on exit from the body of a function: a function that
/// did not return as it declares is an error; the scope is left and the
/// function is on record under its name.
pub open spec fn function_exit(
    m: SpecMemory,
    type_node: SpecTypeNode,
    identifier: Token,
    name: Seq<char>,
    params: Seq<PlacedParam>,
) -> SpecMemory {
    let judged = if !m.scopes.returned_as_declared() {
        m.alert(
            error_at(
                identifier.range,
                "Expected return type '"@ + type_text(type_node.info) + "'"@,
            ),
        )
    } else {
        m
    };
    SpecMemory {
        scopes: judged.scopes.leave(),
        functions: with_entry(
            judged.functions,
            name,
            declared_function(type_node.info, params, identifier.range),
        ),
        ..judged
    }
}

/// The range of a block statement.
pub open spec fn range_of_block(block: SpecStatement) -> Range {
    match block {
        SpecStatement::Block { range, statements } => range,
        _ => Range {
            start: crate::position::Position { line: 0, character: 0 },
            end: crate::position::Position { line: 0, character: 0 },
        },
    }
}

/// The environment after a function declaration. The function is put on
/// record only once its body has been evaluated: the body sees neither the
/// function itself nor any function declared behind it.
pub open spec fn after_function(
    m: SpecMemory,
    type_node: SpecTypeNode,
    identifier: Token,
    params: Seq<SpecParam>,
    block: SpecStatement,
) -> (SpecMemory, bool) {
    let name = m.token_text(identifier);
    if id_fault(m, identifier) is Some {
        (m.alert(id_fault(m, identifier)->0), false)
    } else {
        match function_params(m, params, 0, Seq::empty()) {
            Err(d) => (m.alert(d), false),
            Ok(placed) => {
                let entry = function_entry(m, type_node, name, placed, range_of_block(block));
                let done = after_statement(entry, block).0;
                (function_exit(done, type_node, identifier, name, placed), true)
            },
        }
    }
}

/// The environment after a top-level declaration, and whether the
/// declaration passed.
pub open spec fn after_top_level(m: SpecMemory, node: SpecTopLevel) -> (SpecMemory, bool) {
    match node {
        SpecTopLevel::ShaderType { keyword, shader_type } => after_shader_type(m, shader_type),
        SpecTopLevel::RenderMode { keyword, render_modes } => after_render_mode(m, render_modes),
        SpecTopLevel::GroupUniforms { keyword, group, subgroup } => (m, true),
        SpecTopLevel::Uniform { global_instance, keyword, precision, value, hint, expression } => {
            after_uniform(m, value, hint, expression)
        },
        SpecTopLevel::Const { keyword, precision, value, expression } => after_binding(
            m,
            value,
            Some(expression),
            true,
            true,
            false,
        ),
        SpecTopLevel::Varying { keyword, interpolation, precision, value } => after_binding(
            m,
            value,
            None,
            true,
            false,
            true,
        ),
        SpecTopLevel::Struct { keyword, identifier, fields } => after_struct(m, identifier, fields),
        SpecTopLevel::Function { type_node, identifier, params, block } => after_function(
            m,
            type_node,
            identifier,
            params,
            block,
        ),
    }
}

/// The environment after a list of declarations, each evaluated whether
/// or not the one before it passed.
pub open spec fn after_top_levels(m: SpecMemory, nodes: Seq<SpecTopLevel>) -> SpecMemory
    decreases nodes.len(),
{
    if nodes.len() == 0 {
        m
    } else {
        after_top_levels(after_top_level(m, nodes[0]).0, nodes.drop_first())
    }
}

/// Binding parameters changes the scopes alone.
pub proof fn lemma_params_keep_basis(m: SpecMemory, params: Seq<PlacedParam>, from: nat)
    ensures
        m.same_basis(bind_params(m, params, from)),
    decreases params.len() - from,
{
    if from < params.len() {
        lemma_params_keep_basis(
            m.with_scopes(
                m.scopes.insert(params[from as int].0.name, parameter_value(params[from as int])),
            ),
            params,
            from + 1,
        );
    }
}

/// Binding tables of names changes the scopes alone.
pub proof fn lemma_tables_keep_basis(
    m: SpecMemory,
    tables: Seq<SpecTable<SpecValueInfo>>,
    from: nat,
)
    ensures
        m.same_basis(bind_tables(m, tables, from)),
    decreases tables.len() - from,
{
    if from < tables.len() {
        lemma_tables_keep_basis(
            m.with_scopes(m.scopes.extend(tables[from as int])),
            tables,
            from + 1,
        );
    }
}

/// Entering a function changes the scopes alone.
pub proof fn lemma_entry_keeps_basis(
    m: SpecMemory,
    type_node: SpecTypeNode,
    name: Seq<char>,
    params: Seq<PlacedParam>,
    block_range: Range,
)
    ensures
        m.same_basis(function_entry(m, type_node, name, params, block_range)),
{
    let entered = m.with_scopes(
        m.scopes.enter(
            SpecScopeType::Function(
                SpecFunctionReturn { expected: declared_return(type_node.info), returned: None },
            ),
            block_range,
        ),
    );
    lemma_params_keep_basis(entered, params, 0);
    lemma_tables_keep_basis(
        bind_params(entered, params, 0),
        entry_variables(m.builtins, m.shader_type, name),
        0,
    );
}

/// A function declaration changes neither the text nor the root
/// directory nor the tables of the language.
pub proof fn lemma_function_keeps_basis(
    m: SpecMemory,
    type_node: SpecTypeNode,
    identifier: Token,
    params: Seq<SpecParam>,
    block: SpecStatement,
)
    ensures
        m.same_basis(after_function(m, type_node, identifier, params, block).0),
{
    let name = m.token_text(identifier);
    if id_fault(m, identifier) is None {
        match function_params(m, params, 0, Seq::empty()) {
            Ok(placed) => {
                lemma_entry_keeps_basis(m, type_node, name, placed, range_of_block(block));
                let entry = function_entry(m, type_node, name, placed, range_of_block(block));
                lemma_statement_keeps_basis(entry, block);
            },
            Err(_) => {},
        }
    }
}

/// A uniform declaration changes neither the text nor the root directory
/// nor the tables of the language.
pub proof fn lemma_uniform_keeps_basis(
    m: SpecMemory,
    value: SpecValueNode,
    hint: Option<SpecHint>,
    expression: Option<SpecExpression>,
)
    ensures
        m.same_basis(after_uniform(m, value, hint, expression).0),
{
}

/// Evaluating a declaration reads the text, the root directory and the
/// tables of the language, and changes none of them.
pub proof fn lemma_top_level_keeps_basis(m: SpecMemory, node: SpecTopLevel)
    ensures
        m.same_basis(after_top_level(m, node).0),
{
    match node {
        SpecTopLevel::Uniform { global_instance, keyword, precision, value, hint, expression } => {
            lemma_uniform_keeps_basis(m, value, hint, expression);
        },
        SpecTopLevel::Const { keyword, precision, value, expression } => {
            lemma_binding_keeps_basis(m, value, Some(expression), true, true, false);
        },
        SpecTopLevel::Varying { keyword, interpolation, precision, value } => {
            lemma_binding_keeps_basis(m, value, None, true, false, true);
        },
        SpecTopLevel::Function { type_node, identifier, params, block } => {
            lemma_function_keeps_basis(m, type_node, identifier, params, block);
        },
        _ => {},
    }
}

/// Evaluating a document changes neither the text nor the root directory
/// nor the tables of the language.
pub proof fn lemma_top_levels_keep_basis(m: SpecMemory, nodes: Seq<SpecTopLevel>)
    ensures
        m.same_basis(after_top_levels(m, nodes)),
    decreases nodes.len(),
{
    if nodes.len() > 0 {
        lemma_top_level_keeps_basis(m, nodes[0]);
        lemma_top_levels_keep_basis(after_top_level(m, nodes[0]).0, nodes.drop_first());
    }
}


/// Binding parameters binds names in the current scope alone.
pub proof fn lemma_params_grow(m: SpecMemory, params: Seq<PlacedParam>, from: nat)
    requires
        m.scopes.well_formed(),
    ensures
        m.scopes.grows_to(bind_params(m, params, from).scopes),
    decreases params.len() - from,
{
    if from < params.len() {
        let next = m.with_scopes(
            m.scopes.insert(params[from as int].0.name, parameter_value(params[from as int])),
        );
        lemma_params_grow(next, params, from + 1);
        lemma_growth_adds_up(m.scopes, next.scopes, bind_params(next, params, from + 1).scopes);
    }
}

/// Binding tables of names binds names in the current scope alone.
pub proof fn lemma_tables_grow(m: SpecMemory, tables: Seq<SpecTable<SpecValueInfo>>, from: nat)
    requires
        m.scopes.well_formed(),
    ensures
        m.scopes.grows_to(bind_tables(m, tables, from).scopes),
    decreases tables.len() - from,
{
    if from < tables.len() {
        let next = m.with_scopes(m.scopes.extend(tables[from as int]));
        lemma_tables_grow(next, tables, from + 1);
        lemma_growth_adds_up(m.scopes, next.scopes, bind_tables(next, tables, from + 1).scopes);
    }
}

/// What a function declares ends with it: after a function declaration
/// the current scope is the one it was and sees exactly what it saw
/// before. Neither a parameter nor a name declared in the body is visible
/// behind the function.
pub proof fn lemma_names_end_with_the_function(
    m: SpecMemory,
    type_node: SpecTypeNode,
    identifier: Token,
    params: Seq<SpecParam>,
    block: SpecStatement,
)
    requires
        m.scopes.well_formed(),
    ensures
        m.scopes.settles_to(after_function(m, type_node, identifier, params, block).0.scopes),
        m.scopes.root_keeps_names(
            after_function(m, type_node, identifier, params, block).0.scopes,
        ),
        after_function(m, type_node, identifier, params, block).0.scopes.visible()
            == m.scopes.visible(),
{
    let name = m.token_text(identifier);
    if id_fault(m, identifier) is None {
        match function_params(m, params, 0, Seq::empty()) {
            Ok(placed) => {
                let kind = SpecScopeType::Function(
                    SpecFunctionReturn {
                        expected: declared_return(type_node.info),
                        returned: None,
                    },
                );
                let range = range_of_block(block);
                let entered = m.with_scopes(m.scopes.enter(kind, range));
                let bound = bind_params(entered, placed, 0);
                lemma_params_grow(entered, placed, 0);
                let tables = entry_variables(m.builtins, m.shader_type, name);
                let entry = bind_tables(bound, tables, 0);
                lemma_tables_grow(bound, tables, 0);
                lemma_growth_adds_up(entered.scopes, bound.scopes, entry.scopes);
                lemma_statement_grows(entry, block);
                let done = after_statement(entry, block).0;
                lemma_growth_adds_up(entered.scopes, entry.scopes, done.scopes);
                lemma_scope_ends_with_its_body(m.scopes, kind, range, done.scopes);
            },
            Err(_) => {},
        }
    }
    lemma_settled_sees_the_same(
        m.scopes,
        after_function(m, type_node, identifier, params, block).0.scopes,
    );
}

/// A shader-type declaration binds names in the current scope alone.
pub proof fn lemma_shader_type_grows(m: SpecMemory, shader_type: Token)
    requires
        m.scopes.well_formed(),
    ensures
        m.scopes.grows_to(after_shader_type(m, shader_type).0.scopes),
        m.scopes.root_keeps_names(after_shader_type(m, shader_type).0.scopes),
{
    lemma_extending_keeps_root(m.scopes, m.builtins.sky);
}

/// A render-mode declaration binds nothing.
pub proof fn lemma_render_mode_grows(m: SpecMemory, modes: Seq<Token>)
    requires
        m.scopes.well_formed(),
    ensures
        m.scopes.grows_to(after_render_mode(m, modes).0.scopes),
        m.scopes.root_keeps_names(after_render_mode(m, modes).0.scopes),
{
}

/// A uniform declaration binds at most one name, in the current scope.
pub proof fn lemma_uniform_grows(
    m: SpecMemory,
    value: SpecValueNode,
    hint: Option<SpecHint>,
    expression: Option<SpecExpression>,
)
    requires
        m.scopes.well_formed(),
    ensures
        m.scopes.grows_to(after_uniform(m, value, hint, expression).0.scopes),
        m.scopes.root_keeps_names(after_uniform(m, value, hint, expression).0.scopes),
{
    let (checked, ok) = crate::interpreter::value_check(m, value, expression, true);
    assert(checked.scopes == m.scopes);
    if ok {
        let hinted = match hint {
            Some(h) => after_hint(checked, h, value.type_node.info),
            None => checked,
        };
        assert(hinted.scopes == m.scopes);
        lemma_binding_keeps_root(
            m.scopes,
            m.token_text(value.identifier),
            declared(value, false, false),
        );
    }
}

/// A struct declaration binds nothing in any scope.
pub proof fn lemma_struct_grows(m: SpecMemory, identifier: Token, fields: Seq<SpecValueNode>)
    requires
        m.scopes.well_formed(),
    ensures
        m.scopes.grows_to(after_struct(m, identifier, fields).0.scopes),
        m.scopes.root_keeps_names(after_struct(m, identifier, fields).0.scopes),
{
}

/// Evaluating a declaration leaves the cursor where it was and the arena
/// well formed: it binds names in the current scope and in scopes that it
/// enters, and in no other.
pub proof fn lemma_top_level_grows(m: SpecMemory, node: SpecTopLevel)
    requires
        m.scopes.well_formed(),
    ensures
        m.scopes.grows_to(after_top_level(m, node).0.scopes),
        m.scopes.root_keeps_names(after_top_level(m, node).0.scopes),
{
    match node {
        SpecTopLevel::ShaderType { keyword, shader_type } => {
            lemma_shader_type_grows(m, shader_type);
        },
        SpecTopLevel::RenderMode { keyword, render_modes } => {
            lemma_render_mode_grows(m, render_modes);
        },
        SpecTopLevel::Uniform { global_instance, keyword, precision, value, hint, expression } => {
            lemma_uniform_grows(m, value, hint, expression);
        },
        SpecTopLevel::Struct { keyword, identifier, fields } => {
            lemma_struct_grows(m, identifier, fields);
        },
        SpecTopLevel::Const { keyword, precision, value, expression } => {
            lemma_binding_grows(m, value, Some(expression), true, true, false);
        },
        SpecTopLevel::Varying { keyword, interpolation, precision, value } => {
            lemma_binding_grows(m, value, None, true, false, true);
        },
        SpecTopLevel::Function { type_node, identifier, params, block } => {
            lemma_names_end_with_the_function(m, type_node, identifier, params, block);
        },
        _ => {},
    }
}

/// Evaluating a document leaves the cursor where it was and the arena
/// well formed: evaluation that starts at the root ends at the root.
pub proof fn lemma_top_levels_grow(m: SpecMemory, nodes: Seq<SpecTopLevel>)
    requires
        m.scopes.well_formed(),
    ensures
        m.scopes.grows_to(after_top_levels(m, nodes).scopes),
        m.scopes.root_keeps_names(after_top_levels(m, nodes).scopes),
    decreases nodes.len(),
{
    if nodes.len() > 0 {
        lemma_top_level_grows(m, nodes[0]);
        let next = after_top_level(m, nodes[0]).0;
        lemma_top_levels_grow(next, nodes.drop_first());
        lemma_growth_adds_up(
            m.scopes,
            next.scopes,
            after_top_levels(next, nodes.drop_first()).scopes,
        );
        lemma_root_keeping_adds_up(
            m.scopes,
            next.scopes,
            after_top_levels(next, nodes.drop_first()).scopes,
        );
    }
}

/// What the top level declares is seen in every function body: a name
/// that the root scope binds is visible on entry to every function that
/// is declared from then on, whatever is declared in between, and stays
/// visible whatever statements the body evaluates.
pub proof fn lemma_root_names_reach_every_body(
    m: SpecMemory,
    name: Seq<char>,
    between: Seq<SpecTopLevel>,
    type_node: SpecTypeNode,
    function: Seq<char>,
    params: Seq<PlacedParam>,
    block_range: Range,
    body: Seq<SpecStatement>,
)
    requires
        m.scopes.well_formed(),
        has_name(m.scopes.values_of(0), name),
    ensures
        ({
            let later = after_top_levels(m, between);
            let entry = function_entry(later, type_node, function, params, block_range);
            &&& find_visible(entry.scopes.visible(), name, 0) is Some
            &&& find_visible(after_statements(entry, body, 0).scopes.visible(), name, 0) is Some
        }),
{
    let later = after_top_levels(m, between);
    lemma_top_levels_grow(m, between);
    assert(has_name(later.scopes.values_of(0), name));
    let kind = SpecScopeType::Function(
        SpecFunctionReturn { expected: declared_return(type_node.info), returned: None },
    );
    let entered = later.with_scopes(later.scopes.enter(kind, block_range));
    let bound = bind_params(entered, params, 0);
    lemma_params_grow(entered, params, 0);
    let tables = entry_variables(later.builtins, later.shader_type, function);
    let entry = bind_tables(bound, tables, 0);
    lemma_tables_grow(bound, tables, 0);
    lemma_growth_adds_up(entered.scopes, bound.scopes, entry.scopes);
    assert(entry.scopes.scopes[0].values == entered.scopes.scopes[0].values);
    lemma_root_is_visible_everywhere(entry.scopes, entry.scopes.current, name);
    lemma_statements_grow(entry, body, 0);
}

/// A constant declared at the top level is seen in every function body
/// that follows.
pub proof fn lemma_constants_reach_every_body(
    m: SpecMemory,
    value: SpecValueNode,
    expression: SpecExpression,
    between: Seq<SpecTopLevel>,
    type_node: SpecTypeNode,
    function: Seq<char>,
    params: Seq<PlacedParam>,
    block_range: Range,
    body: Seq<SpecStatement>,
)
    requires
        m.scopes.well_formed(),
        m.scopes.current == 0,
        after_binding(m, value, Some(expression), true, true, false).1,
    ensures
        ({
            let declared_in = after_binding(m, value, Some(expression), true, true, false).0;
            let name = m.token_text(value.identifier);
            let later = after_top_levels(declared_in, between);
            let entry = function_entry(later, type_node, function, params, block_range);
            &&& find_visible(entry.scopes.visible(), name, 0) is Some
            &&& find_visible(after_statements(entry, body, 0).scopes.visible(), name, 0) is Some
        }),
{
    let declared_in = after_binding(m, value, Some(expression), true, true, false).0;
    let name = m.token_text(value.identifier);
    let checked = crate::interpreter::value_check(m, value, Some(expression), true).0;
    assert(checked.scopes == m.scopes);
    lemma_lookup_after_put(m.scopes.values_of(0), name, declared(value, true, false));
    lemma_binding_grows(m, value, Some(expression), true, true, false);
    lemma_root_names_reach_every_body(
        declared_in,
        name,
        between,
        type_node,
        function,
        params,
        block_range,
        body,
    );
}

/// Whether what stands for the qualifier of a parameter is one.
pub open spec fn qualified(param: ParamNode) -> bool {
    param.qualifier is Some ==> is_qualifier_kind(param.qualifier->0.kind)
}

/// The values of a list of parameters with their places.
pub open spec fn placed_view(list: Seq<(FunctionParam, Range)>) -> Seq<PlacedParam> {
    list.map_values(|p: (FunctionParam, Range)| (p.0.deep_view(), p.1))
}

/// Evaluates a top-level declaration.
pub fn evaluate_top_level_node(node: TopLevelNode, memory: &mut Memory) -> (r: EvaluateResult)
    requires
        top_level_ok(node@),
    ensures
        carried_out(final(memory)@, r, after_top_level(old(memory)@, node@)),
{
    match node {
        TopLevelNode::ShaderType(x) => evaluate_shader_type(memory, x),
        TopLevelNode::RenderMode(x) => evaluate_render_mode(memory, x),
        TopLevelNode::GroupUniforms(_) => Ok(()),
        TopLevelNode::Uniform(x) => evaluate_uniform(memory, x),
        TopLevelNode::Const(x) => evaluate_const(memory, x),
        TopLevelNode::Varying(x) => evaluate_varying(memory, x),
        TopLevelNode::Struct(x) => evaluate_struct(memory, x),
        TopLevelNode::Function(x) => evaluate_function(memory, x),
    }
}

fn shader_of_name(name: &str) -> (r: Option<ShaderType>)
    ensures
        r == shader_named(name@),
{
    if str_eq(name, "spatial") {
        Some(ShaderType::Spatial)
    } else if str_eq(name, "canvas_item") {
        Some(ShaderType::CanvasItem)
    } else if str_eq(name, "particles") {
        Some(ShaderType::Particles)
    } else if str_eq(name, "sky") {
        Some(ShaderType::Sky)
    } else if str_eq(name, "fog") {
        Some(ShaderType::Fog)
    } else {
        None
    }
}

/// Evaluates a shader-type declaration.
pub fn evaluate_shader_type(memory: &mut Memory, node: ShaderTypeNode) -> (r: EvaluateResult)
    ensures
        carried_out(final(memory)@, r, after_shader_type(old(memory)@, node.shader_type)),
{
    let name = memory.get_token_text(node.shader_type);
    match shader_of_name(name.as_str()) {
        Some(kind) => {
            memory.shader_type = kind;
            if let Some(modes) = memory.builtins.modes(kind) {
                memory.valid_render_modes = modes;
            }
            if let ShaderType::Sky = kind {
                let sky = copy_values(&memory.builtins.sky);
                memory.scopes.extend(sky);
            }
            Ok(())
        },
        None => Err(memory.alert_error("Invalid Shader Type.", node.shader_type.range)),
    }
}

/// Evaluates a render-mode declaration.
pub fn evaluate_render_mode(memory: &mut Memory, node: RenderModeNode) -> (r: EvaluateResult)
    ensures
        carried_out(final(memory)@, r, after_render_mode(old(memory)@, node.render_modes@)),
{
    let ghost m = memory@;
    let mut i: usize = 0;
    while i < node.render_modes.len()
        invariant
            i <= node.render_modes.len(),
            memory@ == m,
            m == old(memory)@,
            first_invalid_mode(m, node.render_modes@, 0) == first_invalid_mode(
                m,
                node.render_modes@,
                i as int,
            ),
        decreases node.render_modes.len() - i,
    {
        let render_mode = node.render_modes[i];
        let name = memory.get_token_text(render_mode);
        if find_entry(&memory.valid_render_modes, name.as_str()).is_none() {
            return Err(memory.alert_error("Invalid Render Mode.", render_mode.range));
        }
        i += 1;
    }
    Ok(())
}

/// Evaluates a constant declaration: the value must be constant, and the name
/// is bound as a constant.
pub fn evaluate_const(memory: &mut Memory, node: ConstNode) -> (r: EvaluateResult)
    requires
        expression_ok(node.expression@),
    ensures
        carried_out(
            final(memory)@,
            r,
            after_binding(old(memory)@, node.value@, Some(node.expression@), true, true, false),
        ),
{
    declare_checked(memory, &node.value, Some(&node.expression), true, true, false)
}

/// Evaluates a varying declaration: the name is bound as a variable.
pub fn evaluate_varying(memory: &mut Memory, node: VaryingNode) -> (r: EvaluateResult)
    ensures
        carried_out(
            final(memory)@,
            r,
            after_binding(old(memory)@, node.value@, None, true, false, true),
        ),
{
    declare_checked(memory, &node.value, None, true, false, true)
}

fn counts_contain(list: &Vec<usize>, n: usize) -> (r: bool)
    ensures
        r == list@.contains(n),
{
    let mut i: usize = 0;
    while i < list.len()
        invariant
            i <= list.len(),
            forall|j: int| 0 <= j < i ==> list@[j] != n,
        decreases list.len() - i,
    {
        if list[i] == n {
            return true;
        }
        i += 1;
    }
    false
}

fn types_include(list: &Vec<TypeInfo>, ty: &TypeInfo) -> (r: bool)
    ensures
        r == types_contain(list.deep_view(), ty@),
{
    let mut i: usize = 0;
    while i < list.len()
        invariant
            i <= list.len(),
            forall|j: int| 0 <= j < i ==> !type_eq(#[trigger] list.deep_view()[j], ty@),
        decreases list.len() - i,
    {
        assert(list.deep_view()[i as int] == list@[i as int]@);
        if list[i] == *ty {
            return true;
        }
        i += 1;
    }
    false
}

fn quote_types(list: &Vec<TypeInfo>) -> (r: String)
    ensures
        r@ == quoted_types(list.deep_view(), list.len() as nat),
{
    let mut r = String::new();
    let mut i: usize = 0;
    assert(r@ =~= quoted_types(list.deep_view(), 0));
    while i < list.len()
        invariant
            i <= list.len(),
            r@ == quoted_types(list.deep_view(), i as nat),
        decreases list.len() - i,
    {
        assert(list.deep_view()[i as int] == list@[i as int]@);
        let ghost before = r@;
        if i > 0 {
            r.append(" or ");
        }
        r.append("'");
        r.append(list[i].to_string().as_str());
        r.append("'");
        i += 1;
        proof {
            if i == 1 {
                assert(before =~= Seq::<char>::empty());
                assert(r@ =~= "'"@ + type_text(list.deep_view()[0]) + "'"@);
            } else {
                assert(r@ =~= before + " or "@ + "'"@ + type_text(list.deep_view()[i - 1])
                    + "'"@);
            }
        }
    }
    r
}

/// Checks the hint of a uniform of type `ty`.
fn check_hint(memory: &mut Memory, hint: &HintNode, ty: &TypeInfo)
    ensures
        final(memory)@ == after_hint(old(memory)@, hint@, ty@),
{
    let name = memory.get_token_text(hint.identifier);
    let count = match &hint.params {
        Some(p) => p.len(),
        None => 0,
    };
    let at = hint.identifier.range;
    let mut known = false;
    let mut counted = true;
    let mut message: Option<String> = None;
    match find_entry(&memory.hints, name.as_str()) {
        Some(i) => {
            assert(memory@.hints[i as int].1 == memory.hints@[i as int].1.deep_view());
            let info = &memory.hints[i].1;
            known = true;
            counted = counts_contain(&info.num_arguments, count);
            if !types_include(&info.type_info, ty) {
                message = Some(
                    concat3("Hint expects type ", quote_types(&info.type_info).as_str(), "."),
                );
            }
        },
        None => {},
    }
    if !known {
        memory.alert_error("Invalid hint.", at);
    } else {
        if !counted {
            memory.alert_error("Invalid number of hint args.", at);
        }
        if let Some(text) = message {
            memory.alert_error(text.as_str(), at);
        }
    }
}

/// Evaluates a uniform declaration: the value and the hint are checked, and
/// the name is bound.
pub fn evaluate_uniform(memory: &mut Memory, node: UniformNode) -> (r: EvaluateResult)
    requires
        node.expression is Some ==> expression_ok(node.expression->0@),
    ensures
        carried_out(
            final(memory)@,
            r,
            after_uniform(
                old(memory)@,
                node.value@,
                match node.hint {
                    Some(h) => Some(h@),
                    None => None,
                },
                match node.expression {
                    Some(e) => Some(e@),
                    None => None,
                },
            ),
        ),
{
    match &node.expression {
        Some(e) => crate::interpreter::check_value(memory, &node.value, Some(e), true)?,
        None => crate::interpreter::check_value(memory, &node.value, None, true)?,
    }
    if let Some(hint) = &node.hint {
        check_hint(memory, hint, &node.value.type_node.info);
    }
    crate::interpreter::statement_interpreter::declare(memory, &node.value, false, false);
    Ok(())
}

fn field_exists(fields: &Vec<StructField>, name: &str) -> (r: bool)
    ensures
        r == has_field(fields.deep_view(), name@),
{
    let mut i: usize = 0;
    while i < fields.len()
        invariant
            i <= fields.len(),
            forall|j: int| 0 <= j < i ==> (#[trigger] fields.deep_view()[j]).name != name@,
        decreases fields.len() - i,
    {
        assert(fields.deep_view()[i as int] == fields@[i as int].deep_view());
        if str_eq(fields[i].name.as_str(), name) {
            return true;
        }
        i += 1;
    }
    false
}

/// Collects the fields of a struct.
fn collect_fields(memory: &mut Memory, fields: &Vec<ValueNode>) -> (r: Result<
    Vec<StructField>,
    EvaluateError,
>)
    ensures
        match struct_fields(old(memory)@, values_view(fields@), 0, Seq::empty()) {
            Ok(done) => r is Ok && r->Ok_0.deep_view() == done && final(memory)@ == old(memory)@,
            Err(d) => r is Err && r->Err_0 == EvaluateError::SemanticsError && final(memory)@
                == old(memory)@.alert(d),
        },
{
    let ghost m = memory@;
    let ghost views = values_view(fields@);
    let mut done: Vec<StructField> = Vec::new();
    let mut i: usize = 0;
    assert(done.deep_view() =~= Seq::empty());
    while i < fields.len()
        invariant
            i <= fields.len(),
            memory@ == m,
            m == old(memory)@,
            views == values_view(fields@),
            struct_fields(m, views, 0, Seq::empty()) == struct_fields(
                m,
                views,
                i as nat,
                done.deep_view(),
            ),
        decreases fields.len() - i,
    {
        let field = &fields[i];
        assert(views[i as int] == field@);
        let field_name = memory.get_token_text(field.identifier);
        if field_exists(&done, field_name.as_str()) {
            let message = concat3("Duplicate field: '", field_name.as_str(), "'");
            assert(message@ =~= "Duplicate "@ + "field"@ + ": '"@ + field_name@ + "'"@) by {
                reveal_strlit("Duplicate field: '");
                reveal_strlit("Duplicate ");
                reveal_strlit("field");
                reveal_strlit(": '");
            }
            return Err(memory.alert_error(message.as_str(), field.range));
        }
        ensure_valid_type(memory, &field.type_node)?;
        let ghost before = done.deep_view();
        done.push(
            StructField { name: field_name, ty: field.type_node.info.clone(), range: field.range },
        );
        assert(done.deep_view() =~= before.push(
            SpecStructField { name: field_name@, ty: field.type_node.info@, range: field.range },
        ));
        i += 1;
    }
    Ok(done)
}

/// Evaluates a struct declaration.
pub fn evaluate_struct(memory: &mut Memory, node: StructNode) -> (r: EvaluateResult)
    ensures
        carried_out(
            final(memory)@,
            r,
            after_struct(old(memory)@, node.identifier, values_view(node.fields@)),
        ),
{
    ensure_valid_id(memory, node.identifier)?;
    let fields = collect_fields(memory, &node.fields)?;
    let name = memory.get_token_text(node.identifier);
    put_entry(&mut memory.structs, name, StructInfo { fields, range: node.identifier.range });
    Ok(())
}

fn param_exists(params: &Vec<(FunctionParam, Range)>, name: &str) -> (r: bool)
    ensures
        r == has_param(placed_view(params@), name@),
{
    let mut i: usize = 0;
    while i < params.len()
        invariant
            i <= params.len(),
            forall|j: int| 0 <= j < i ==> (#[trigger] placed_view(params@)[j]).0.name != name@,
        decreases params.len() - i,
    {
        assert(placed_view(params@)[i as int] == (params@[i as int].0.deep_view(), params@[i
            as int].1));
        if str_eq(params[i].0.name.as_str(), name) {
            return true;
        }
        i += 1;
    }
    false
}

/// Collects the parameters of a function.
fn collect_params(memory: &mut Memory, params: &Vec<ParamNode>) -> (r: Result<
    Vec<(FunctionParam, Range)>,
    EvaluateError,
>)
    requires
        forall|i: int| 0 <= i < params.len() ==> qualified(#[trigger] params@[i]),
    ensures
        match function_params(old(memory)@, params_view(params@), 0, Seq::empty()) {
            Ok(done) => r is Ok && placed_view(r->Ok_0@) == done && final(memory)@ == old(
                memory,
            )@,
            Err(d) => r is Err && r->Err_0 == EvaluateError::SemanticsError && final(memory)@
                == old(memory)@.alert(d),
        },
{
    let ghost m = memory@;
    let ghost views = params_view(params@);
    let mut done: Vec<(FunctionParam, Range)> = Vec::new();
    let mut i: usize = 0;
    assert(placed_view(done@) =~= Seq::empty());
    while i < params.len()
        invariant
            i <= params.len(),
            memory@ == m,
            m == old(memory)@,
            views == params_view(params@),
            forall|j: int| 0 <= j < params.len() ==> qualified(#[trigger] params@[j]),
            function_params(m, views, 0, Seq::empty()) == function_params(
                m,
                views,
                i as nat,
                placed_view(done@),
            ),
        decreases params.len() - i,
    {
        let param = &params[i];
        assert(views[i as int] == param@);
        let param_name = memory.get_token_text(param.value_node.identifier);
        if param_exists(&done, param_name.as_str()) {
            let message = concat3("Duplicate param: '", param_name.as_str(), "'");
            assert(message@ =~= "Duplicate "@ + "param"@ + ": '"@ + param_name@ + "'"@) by {
                reveal_strlit("Duplicate param: '");
                reveal_strlit("Duplicate ");
                reveal_strlit("param");
                reveal_strlit(": '");
            }
            return Err(memory.alert_error(message.as_str(), param.value_node.range));
        }
        ensure_valid_type(memory, &param.value_node.type_node)?;
        let qualifier = match param.qualifier {
            Some(token) => Some(FunctionParamQualifier::from(token)),
            None => None,
        };
        let ghost before = placed_view(done@);
        let entry = FunctionParam {
            name: param_name,
            ty: param.value_node.type_node.info.clone(),
            qualifier,
        };
        done.push((entry, param.value_node.range));
        assert(placed_view(done@) =~= before.push((entry.deep_view(), param.value_node.range)));
        i += 1;
    }
    Ok(done)
}

/// Binds the parameters of a function in the current scope.
fn bind_parameters(memory: &mut Memory, params: &Vec<(FunctionParam, Range)>)
    ensures
        final(memory)@ == bind_params(old(memory)@, placed_view(params@), 0),
{
    let ghost views = placed_view(params@);
    let mut i: usize = 0;
    while i < params.len()
        invariant
            i <= params.len(),
            views == placed_view(params@),
            bind_params(old(memory)@, views, 0) == bind_params(memory@, views, i as nat),
        decreases params.len() - i,
    {
        assert(views[i as int] == (params@[i as int].0.deep_view(), params@[i as int].1));
        memory.scopes.insert(
            params[i].0.name.clone(),
            ValueInfo {
                ty: params[i].0.ty.clone(),
                is_const: false,
                editable: true,
                range: Some(params[i].1),
                description: None,
            },
        );
        i += 1;
    }
}

/// Binds the built-in names of an entry point in the current scope.
fn bind_entry_tables(memory: &mut Memory, tables: Vec<Vec<(String, ValueInfo)>>)
    ensures
        final(memory)@ == bind_tables(old(memory)@, tables.deep_view(), 0),
{
    let ghost all = tables.deep_view();
    let mut rest = tables;
    let mut i: usize = 0;
    let count = rest.len();
    while rest.len() > 0
        invariant
            i + rest.len() == count,
            count == all.len(),
            rest.deep_view() =~= all.subrange(i as int, all.len() as int),
            bind_tables(old(memory)@, all, 0) == bind_tables(memory@, all, i as nat),
        decreases rest.len(),
    {
        let ghost before = rest.deep_view();
        let table = rest.remove(0);
        assert(before[0] == table.deep_view());
        assert(rest.deep_view() =~= before.drop_first());
        memory.scopes.extend(table);
        i += 1;
    }
}

/// The parameters of a list, without their places.
fn signature_params(params: &Vec<(FunctionParam, Range)>) -> (r: Vec<FunctionParam>)
    ensures
        r.deep_view() == placed_view(params@).map_values(|p: PlacedParam| p.0),
{
    let mut r: Vec<FunctionParam> = Vec::new();
    let mut i: usize = 0;
    while i < params.len()
        invariant
            i <= params.len(),
            r.len() == i,
            forall|j: int| 0 <= j < i ==> r@[j].deep_view() == params@[j].0.deep_view(),
        decreases params.len() - i,
    {
        r.push(params[i].0.clone());
        i += 1;
    }
    assert(r.deep_view() =~= placed_view(params@).map_values(|p: PlacedParam| p.0));
    r
}

/// Opens the scope of a function and binds what its body sees.
fn enter_function(
    memory: &mut Memory,
    node: &FunctionNode,
    name: &str,
    params: &Vec<(FunctionParam, Range)>,
)
    ensures
        final(memory)@ == function_entry(
            old(memory)@,
            node.type_node@,
            name@,
            placed_view(params@),
            node.block.range,
        ),
{
    let expected = if node.type_node.info.is_named("void") {
        None
    } else {
        Some(node.type_node.info.clone())
    };
    let scope_type = ScopeType::Function(Box::new(FunctionReturn { expected, returned: None }));
    let tables = memory.builtins.entry_tables(memory.shader_type, name);
    memory.scopes.enter_scope(scope_type, node.block.range);
    bind_parameters(memory, params);
    bind_entry_tables(memory, tables);
}

/// Judges the return contract of a function, leaves its scope and puts
/// the function on record.
fn exit_function(
    memory: &mut Memory,
    node: &FunctionNode,
    name: String,
    params: &Vec<(FunctionParam, Range)>,
)
    ensures
        final(memory)@ == function_exit(
            old(memory)@,
            node.type_node@,
            node.identifier,
            name@,
            placed_view(params@),
        ),
{
    if !memory.scopes.assert_returned() {
        let message = concat3(
            "Expected return type '",
            node.type_node.info.to_string().as_str(),
            "'",
        );
        memory.alert_error(message.as_str(), node.identifier.range);
    }
    memory.scopes.leave_scope();
    let signature = FunctionSignature {
        return_type: node.type_node.info.clone(),
        params: signature_params(params),
    };
    let mut signatures: Vec<FunctionSignature> = Vec::new();
    signatures.push(signature);
    let info = FunctionInfo {
        signatures,
        range: Some(node.identifier.range),
        description: None,
        is_const: false,
    };
    assert(info.deep_view().signatures =~= declared_function(
        node.type_node@.info,
        placed_view(params@),
        node.identifier.range,
    ).signatures);
    put_entry(&mut memory.functions, name, info);
}

/// Evaluates a function declaration: the body is evaluated in a scope of its
/// own, the return contract is judged, and the function is put on record.
pub fn evaluate_function(memory: &mut Memory, node: FunctionNode) -> (r: Result<
    (),
    EvaluateError,
>)
    requires
        top_level_ok(TopLevelNode::Function(node)@),
    ensures
        carried_out(
            final(memory)@,
            r,
            after_function(
                old(memory)@,
                node.type_node@,
                node.identifier,
                params_view(node.params@),
                block_view(node.block),
            ),
        ),
{
    let function_name = memory.get_token_text(node.identifier);
    ensure_valid_id(memory, node.identifier)?;
    assert forall|i: int| 0 <= i < node.params.len() implies qualified(
        #[trigger] node.params@[i],
    ) by {
        assert(params_view(node.params@)[i] == node.params@[i]@);
    }
    let params = collect_params(memory, &node.params)?;
    enter_function(memory, &node, function_name.as_str(), &params);
    proof {
        lemma_block_statements_ok(node.block);
    }
    execute_all(memory, &node.block.statements);
    exit_function(memory, &node, function_name, &params);
    Ok(())
}

/// Evaluates the declarations of a document in order, whatever each gives.
pub fn evaluate_all(memory: &mut Memory, top_levels: Vec<TopLevelNode>)
    requires
        forall|i: int| 0 <= i < top_levels.len() ==> top_level_ok(#[trigger] top_levels@[i]@),
    ensures
        final(memory)@ == after_top_levels(old(memory)@, top_levels_view(top_levels@)),
{
    let mut rest = top_levels;
    while rest.len() > 0
        invariant
            forall|j: int| 0 <= j < rest.len() ==> top_level_ok(#[trigger] rest@[j]@),
            after_top_levels(memory@, top_levels_view(rest@)) == after_top_levels(
                old(memory)@,
                top_levels_view(top_levels@),
            ),
        decreases rest.len(),
    {
        let ghost before = rest@;
        let node = rest.remove(0);
        assert(top_levels_view(before)[0] == node@);
        assert(top_level_ok(before[0]@));
        assert(top_levels_view(rest@) =~= top_levels_view(before).drop_first());
        assert forall|j: int| 0 <= j < rest.len() implies top_level_ok(#[trigger] rest@[j]@) by {
            assert(rest@[j] == before[j + 1]);
        }
        let _ = evaluate_top_level_node(node, memory);
    }
}

} // verus!

//! Statement evaluation.

use vstd::prelude::*;
use vstd::string::*;
use crate::interpreter::expression_interpreter::{evaluate, expression_ok, type_of};
use crate::interpreter::{check_value, value_check, verdict, EvaluateError, EvaluateResult};
use crate::lexer::token::Token;
use crate::memory::scope::{
    lemma_binding_keeps_root, lemma_bound_name_is_visible, lemma_fresh_name_hides_nothing,
    lemma_function_scope_is_a_scope, lemma_growth_adds_up, lemma_keeping_adds_up,
    lemma_scope_ends_with_its_body, lemma_settled_sees_the_same, ScopeType, SpecScopeType,
};
use crate::memory::types::{plain_type, type_eq, type_text, TypeInfo};
use crate::memory::{find_visible, Memory, SpecMemory, SpecValueInfo, ValueInfo};
use crate::nodes::expression_node::{expression_range, ExpressionNode, SpecExpression};
use crate::nodes::statement_node::{
    block_view, cases_view, lemma_block_view, lemma_switch_view, statements_view, BlockNode,
    ForNode, IfNode, ReturnNode, SpecStatement, SpecSwitchCase, StatementNode, SwitchCaseNode,
    SwitchNode, VarDeclarationNode, WhileNode,
};
use crate::nodes::{SpecValueNode, ValueNode};
use crate::position::Range;
use crate::source_code::error_at;
use crate::text::concat3;

verus! {

/// Whether a statement can be evaluated at all: its expressions can.
pub open spec fn statement_ok(s: SpecStatement) -> bool
    decreases s,
{
    match s {
        SpecStatement::VarDeclaration { keyword, value, expression, is_const } => expression
            is Some ==> expression_ok(expression->0),
        SpecStatement::If { keyword, condition, action, alternate } => expression_ok(condition)
            && statement_ok(*action) && (match alternate {
            Some((_, other)) => statement_ok(*other),
            None => true,
        }),
        SpecStatement::While { keyword, condition, action } => expression_ok(condition)
            && statement_ok(*action),
        SpecStatement::For { keyword, initializer, condition, update, action } => statement_ok(
            *initializer,
        ) && expression_ok(condition) && expression_ok(update) && statement_ok(*action),
        SpecStatement::Switch { keyword, condition, cases } => expression_ok(condition)
            && forall|i: int, j: int|
            0 <= i < cases.len() && 0 <= j < cases[i].statements.len() ==> statement_ok(
                #[trigger] cases[i].statements[j],
            ),
        SpecStatement::Expression(e) => expression_ok(e),
        SpecStatement::Continue(t) => true,
        SpecStatement::Break(t) => true,
        SpecStatement::Return { keyword, expression } => expression is Some ==> expression_ok(
            expression->0,
        ),
        SpecStatement::Block { range, statements } => forall|i: int|
            0 <= i < statements.len() ==> statement_ok(#[trigger] statements[i]),
    }
}

/// What a declaration binds: the declared type at the declared place, as a
/// constant or as a variable.
pub open spec fn declared(value: SpecValueNode, is_const: bool, editable: bool) -> SpecValueInfo {
    SpecValueInfo {
        ty: value.type_node.info,
        editable,
        is_const,
        range: Some(value.range),
        description: None,
    }
}

/// The environment with the declared name bound in the current scope.
pub open spec fn bind(m: SpecMemory, value: SpecValueNode, is_const: bool, editable: bool)
    -> SpecMemory {
    m.with_scopes(m.scopes.insert(m.token_text(value.identifier), declared(value, is_const, editable)))
}

/// The environment after checking a declared value against the demand
/// `check_const` and, if it passed, binding its name with the given
/// flags.
pub open spec fn after_binding(
    m: SpecMemory,
    value: SpecValueNode,
    expression: Option<SpecExpression>,
    check_const: bool,
    is_const: bool,
    editable: bool,
) -> (SpecMemory, bool) {
    let (checked, ok) = value_check(m, value, expression, check_const);
    if ok {
        (bind(checked, value, is_const, editable), true)
    } else {
        (checked, false)
    }
}

/// A declaration binds its name once the value passed the check: as a
/// constant that cannot be written, or as a variable that can.
pub open spec fn after_declaration(
    m: SpecMemory,
    value: SpecValueNode,
    expression: Option<SpecExpression>,
    is_const: bool,
) -> (SpecMemory, bool) {
    after_binding(m, value, expression, is_const, is_const, !is_const)
}

/// The environment after a condition that must have the type `wanted`:
/// an error of the condition itself is on record, and so is a condition of
/// another type. The flag tells whether the condition evaluated.
pub open spec fn after_condition(
    m: SpecMemory,
    condition: SpecExpression,
    wanted: Seq<char>,
    message: Seq<char>,
) -> (SpecMemory, bool) {
    match type_of(m, condition) {
        Err(d) => (m.alert(d), false),
        Ok(result) => if !type_eq(result.type_info, plain_type(wanted)) {
            (m.alert(error_at(expression_range(condition), message)), true)
        } else {
            (m, true)
        },
    }
}

/// The range of the scope that a body opens: a block opens one, a single
/// statement does not.
pub open spec fn body_scope(body: SpecStatement) -> Option<Range> {
    match body {
        SpecStatement::Block { range, statements } => Some(range),
        _ => None,
    }
}

/// The environment on entry to a body.
pub open spec fn enter_body(m: SpecMemory, body: SpecStatement) -> SpecMemory {
    match body_scope(body) {
        Some(range) => m.with_scopes(m.scopes.enter(SpecScopeType::Loop, range)),
        None => m,
    }
}

/// The environment on exit from a body.
pub open spec fn leave_body(m: SpecMemory, body: SpecStatement) -> SpecMemory {
    match body_scope(body) {
        Some(range) => m.with_scopes(m.scopes.leave()),
        None => m,
    }
}

/// The environment after `break` or `continue`: an error unless the
/// current scope is the body of a loop.
pub open spec fn after_jump(m: SpecMemory, token: Token, message: Seq<char>) -> (SpecMemory, bool) {
    if m.scopes.current_type() is Loop {
        (m, true)
    } else {
        (m.alert(error_at(token.range, message)), false)
    }
}

/// The environment after `return`: the enclosing function notes what was
/// returned, and a value that does not match the declared return type is
/// an error.
pub open spec fn after_return(m: SpecMemory, expression: Option<SpecExpression>) -> (
    SpecMemory,
    bool,
) {
    let cleared = m.with_scopes(m.scopes.with_returned(None));
    match expression {
        None => (cleared, true),
        Some(e) => match type_of(cleared, e) {
            Err(d) => (cleared.alert(d), false),
            Ok(result) => {
                let noted = cleared.with_scopes(
                    cleared.scopes.with_returned(Some(result.type_info)),
                );
                match noted.scopes.expected_return() {
                    Some(expected) => if !type_eq(expected, result.type_info) {
                        (
                            noted.alert(
                                error_at(
                                    expression_range(e),
                                    "Invalid return type, expected '"@ + type_text(expected)
                                        + "'"@,
                                ),
                            ),
                            false,
                        )
                    } else {
                        (noted, true)
                    },
                    None => (noted, true),
                }
            },
        },
    }
}

/// The environment after an `if` statement: the condition must be a
/// `bool`; each branch is evaluated in a scope of its own if it is a block.
pub open spec fn after_if(m: SpecMemory, s: SpecStatement) -> (SpecMemory, bool)
    decreases s, 0nat,
{
    match s {
        SpecStatement::If { keyword, condition, action, alternate } => {
            let (checked, evaluated) = after_condition(
                m,
                condition,
                "bool"@,
                "If statement condition must be a boolean expression."@,
            );
            if !evaluated {
                (checked, false)
            } else {
                let first = leave_body(
                    after_statement(enter_body(checked, *action), *action).0,
                    *action,
                );
                match alternate {
                    Some((_, other)) => (
                        leave_body(after_statement(enter_body(first, *other), *other).0, *other),
                        true,
                    ),
                    None => (first, true),
                }
            }
        },
        _ => (m, true),
    }
}

/// The environment after a `while` statement: the condition must be a
/// `bool`; the body is evaluated in a scope of its own if it is a block.
pub open spec fn after_while(m: SpecMemory, s: SpecStatement) -> (SpecMemory, bool)
    decreases s, 0nat,
{
    match s {
        SpecStatement::While { keyword, condition, action } => {
            let (checked, evaluated) = after_condition(
                m,
                condition,
                "bool"@,
                "While loop condition must be a boolean expression."@,
            );
            if !evaluated {
                (checked, false)
            } else {
                let (done, ok) = after_statement(enter_body(checked, *action), *action);
                (leave_body(done, *action), ok)
            }
        },
        _ => (m, true),
    }
}

/// The environment after the header of a `for` statement whose
/// initializer declares `value`: the declaration, the condition, which
/// must be a `bool`, and the update, all inside the scope of the body. The
/// flag tells whether the body is to be evaluated.
pub open spec fn after_for_header(
    m: SpecMemory,
    value: SpecValueNode,
    expression: Option<SpecExpression>,
    is_const: bool,
    condition: SpecExpression,
    update: SpecExpression,
) -> (SpecMemory, bool) {
    let (declared, ok) = after_declaration(m, value, expression, is_const);
    if !ok {
        (declared, false)
    } else {
        let checked = after_condition(
            declared,
            condition,
            "bool"@,
            "For loop condition must be a boolean expression."@,
        ).0;
        match type_of(checked, update) {
            Err(d) => (checked.alert(d), false),
            Ok(_) => (checked, true),
        }
    }
}

/// The environment after a `for` statement. The initializer must be a
/// declaration; header and body share one scope if the body is a block.
pub open spec fn after_for(m: SpecMemory, s: SpecStatement) -> (SpecMemory, bool)
    decreases s, 0nat,
{
    match s {
        SpecStatement::For { keyword, initializer, condition, update, action } => {
            match *initializer {
                SpecStatement::VarDeclaration { keyword: _, value, expression, is_const } => {
                    let (ready, go) = after_for_header(
                        enter_body(m, *action),
                        value,
                        expression,
                        is_const,
                        condition,
                        update,
                    );
                    if go {
                        (leave_body(after_statement(ready, *action).0, *action), true)
                    } else {
                        (leave_body(ready, *action), false)
                    }
                },
                _ => (
                    m.alert(
                        error_at(
                            keyword.range,
                            "Left expression of a for loop must be a variable declaration."@,
                        ),
                    ),
                    false,
                ),
            }
        },
        _ => (m, true),
    }
}

/// The environment after the condition of a `switch`, which must be an
/// `int` or a `uint`.
pub open spec fn after_switch_condition(m: SpecMemory, condition: SpecExpression) -> SpecMemory {
    match type_of(m, condition) {
        Err(d) => m.alert(d),
        Ok(result) => if !type_eq(result.type_info, plain_type("int"@)) && !type_eq(
            result.type_info,
            plain_type("uint"@),
        ) {
            m.alert(error_at(expression_range(condition), "Switch condition must be an integer."@))
        } else {
            m
        },
    }
}

/// The environment after a `switch` statement: its arms are evaluated one
/// after the other.
pub open spec fn after_switch(m: SpecMemory, s: SpecStatement) -> (SpecMemory, bool)
    decreases s, 0nat,
{
    match s {
        SpecStatement::Switch { keyword, condition, cases } => (
            after_cases(after_switch_condition(m, condition), cases, 0),
            true,
        ),
        _ => (m, true),
    }
}

/// The environment after an expression statement.
pub open spec fn after_expression_statement(m: SpecMemory, e: SpecExpression) -> (SpecMemory, bool) {
    match type_of(m, e) {
        Ok(_) => (m, true),
        Err(d) => (m.alert(d), false),
    }
}

/// The environment after a statement, and whether the statement passed.
pub open spec fn after_statement(m: SpecMemory, s: SpecStatement) -> (SpecMemory, bool)
    decreases s, 1nat,
{
    match s {
        SpecStatement::VarDeclaration { keyword, value, expression, is_const } => after_declaration(
            m,
            value,
            expression,
            is_const,
        ),
        SpecStatement::If { keyword, condition, action, alternate } => after_if(m, s),
        SpecStatement::While { keyword, condition, action } => after_while(m, s),
        SpecStatement::For { keyword, initializer, condition, update, action } => after_for(m, s),
        SpecStatement::Switch { keyword, condition, cases } => after_switch(m, s),
        SpecStatement::Expression(e) => after_expression_statement(m, e),
        SpecStatement::Continue(t) => after_jump(m, t, "Cannot use 'continue' outside a loop."@),
        SpecStatement::Break(t) => after_jump(m, t, "Cannot use 'break' outside a loop."@),
        SpecStatement::Return { keyword, expression } => after_return(m, expression),
        SpecStatement::Block { range, statements } => (after_statements(m, statements, 0), true),
    }
}

/// The environment after the statements from `from` on, each evaluated
/// whether or not the one before it passed.
pub open spec fn after_statements(m: SpecMemory, list: Seq<SpecStatement>, from: nat) -> SpecMemory
    decreases list, list.len() - from,
{
    if from >= list.len() {
        m
    } else {
        after_statements(after_statement(m, list[from as int]).0, list, from + 1)
    }
}

/// The environment after the arms of a switch from `from` on.
pub open spec fn after_cases(m: SpecMemory, cases: Seq<SpecSwitchCase>, from: nat) -> SpecMemory
    decreases cases, cases.len() - from,
{
    if from >= cases.len() {
        m
    } else {
        after_cases(after_statements(m, cases[from as int].statements, 0), cases, from + 1)
    }
}

/// Checking a condition changes at most what is on record.
pub proof fn lemma_condition_keeps_basis(
    m: SpecMemory,
    condition: SpecExpression,
    wanted: Seq<char>,
    message: Seq<char>,
)
    ensures
        m.same_basis(after_condition(m, condition, wanted, message).0),
{
}

/// Checking and binding a declared value changes neither the text nor
/// the root directory nor the tables of the language.
pub proof fn lemma_binding_keeps_basis(
    m: SpecMemory,
    value: SpecValueNode,
    expression: Option<SpecExpression>,
    check_const: bool,
    is_const: bool,
    editable: bool,
)
    ensures
        m.same_basis(after_binding(m, value, expression, check_const, is_const, editable).0),
{
}

/// An `if` statement changes neither the text nor the root directory nor
/// the tables of the language.
pub proof fn lemma_if_keeps_basis(m: SpecMemory, s: SpecStatement)
    ensures
        m.same_basis(after_if(m, s).0),
    decreases s, 0nat,
{
    match s {
        SpecStatement::If { keyword, condition, action, alternate } => {
            let message = "If statement condition must be a boolean expression."@;
            let (checked, evaluated) = after_condition(m, condition, "bool"@, message);
            lemma_condition_keeps_basis(m, condition, "bool"@, message);
            if evaluated {
                lemma_statement_keeps_basis(enter_body(checked, *action), *action);
                let first = leave_body(
                    after_statement(enter_body(checked, *action), *action).0,
                    *action,
                );
                match alternate {
                    Some((_, other)) => {
                        lemma_statement_keeps_basis(enter_body(first, *other), *other);
                    },
                    None => {},
                }
            }
        },
        _ => {},
    }
}

/// A `while` statement changes neither the text nor the root directory
/// nor the tables of the language.
pub proof fn lemma_while_keeps_basis(m: SpecMemory, s: SpecStatement)
    ensures
        m.same_basis(after_while(m, s).0),
    decreases s, 0nat,
{
    match s {
        SpecStatement::While { keyword, condition, action } => {
            let message = "While loop condition must be a boolean expression."@;
            let (checked, evaluated) = after_condition(m, condition, "bool"@, message);
            lemma_condition_keeps_basis(m, condition, "bool"@, message);
            if evaluated {
                lemma_statement_keeps_basis(enter_body(checked, *action), *action);
            }
        },
        _ => {},
    }
}

/// The header of a `for` statement changes neither the text nor the root
/// directory nor the tables of the language.
pub proof fn lemma_for_header_keeps_basis(
    m: SpecMemory,
    value: SpecValueNode,
    expression: Option<SpecExpression>,
    is_const: bool,
    condition: SpecExpression,
    update: SpecExpression,
)
    ensures
        m.same_basis(after_for_header(m, value, expression, is_const, condition, update).0),
{
    let (declared, ok) = after_declaration(m, value, expression, is_const);
    lemma_binding_keeps_basis(m, value, expression, is_const, is_const, !is_const);
    if ok {
        lemma_condition_keeps_basis(
            declared,
            condition,
            "bool"@,
            "For loop condition must be a boolean expression."@,
        );
    }
}

/// A `for` statement changes neither the text nor the root directory nor
/// the tables of the language.
pub proof fn lemma_for_keeps_basis(m: SpecMemory, s: SpecStatement)
    ensures
        m.same_basis(after_for(m, s).0),
    decreases s, 0nat,
{
    match s {
        SpecStatement::For { keyword, initializer, condition, update, action } => {
            match *initializer {
                SpecStatement::VarDeclaration { keyword: _, value, expression, is_const } => {
                    let entered = enter_body(m, *action);
                    let (ready, go) = after_for_header(
                        entered,
                        value,
                        expression,
                        is_const,
                        condition,
                        update,
                    );
                    lemma_for_header_keeps_basis(
                        entered,
                        value,
                        expression,
                        is_const,
                        condition,
                        update,
                    );
                    if go {
                        lemma_statement_keeps_basis(ready, *action);
                    }
                },
                _ => {},
            }
        },
        _ => {},
    }
}

/// A `switch` statement changes neither the text nor the root directory
/// nor the tables of the language.
pub proof fn lemma_switch_keeps_basis(m: SpecMemory, s: SpecStatement)
    ensures
        m.same_basis(after_switch(m, s).0),
    decreases s, 0nat,
{
    match s {
        SpecStatement::Switch { keyword, condition, cases } => {
            lemma_cases_keep_basis(after_switch_condition(m, condition), cases, 0);
        },
        _ => {},
    }
}

/// Evaluating a statement reads the text, the root directory and the
/// tables of the language, and changes none of them.
pub proof fn lemma_statement_keeps_basis(m: SpecMemory, s: SpecStatement)
    ensures
        m.same_basis(after_statement(m, s).0),
    decreases s, 1nat,
{
    match s {
        SpecStatement::VarDeclaration { keyword, value, expression, is_const } => {
            lemma_binding_keeps_basis(m, value, expression, is_const, is_const, !is_const);
        },
        SpecStatement::If { keyword, condition, action, alternate } => {
            lemma_if_keeps_basis(m, s);
        },
        SpecStatement::While { keyword, condition, action } => {
            lemma_while_keeps_basis(m, s);
        },
        SpecStatement::For { keyword, initializer, condition, update, action } => {
            lemma_for_keeps_basis(m, s);
        },
        SpecStatement::Switch { keyword, condition, cases } => {
            lemma_switch_keeps_basis(m, s);
        },
        SpecStatement::Block { range, statements } => {
            lemma_statements_keep_basis(m, statements, 0);
        },
        _ => {},
    }
}

/// Evaluating a list of statements changes neither the text nor the root
/// directory nor the tables of the language.
pub proof fn lemma_statements_keep_basis(m: SpecMemory, list: Seq<SpecStatement>, from: nat)
    ensures
        m.same_basis(after_statements(m, list, from)),
    decreases list, list.len() - from,
{
    if from < list.len() {
        lemma_statement_keeps_basis(m, list[from as int]);
        lemma_statements_keep_basis(after_statement(m, list[from as int]).0, list, from + 1);
    }
}

/// Evaluating the arms of a switch changes neither the text nor the root
/// directory nor the tables of the language.
pub proof fn lemma_cases_keep_basis(m: SpecMemory, cases: Seq<SpecSwitchCase>, from: nat)
    ensures
        m.same_basis(after_cases(m, cases, from)),
    decreases cases, cases.len() - from,
{
    if from < cases.len() {
        lemma_statements_keep_basis(m, cases[from as int].statements, 0);
        lemma_cases_keep_basis(
            after_statements(m, cases[from as int].statements, 0),
            cases,
            from + 1,
        );
    }
}


/// Whether a statement evaluates each of its bodies in a scope of its
/// own: an `if`, a `while` or a `for` whose bodies are blocks.
pub open spec fn opens_scopes(s: SpecStatement) -> bool {
    match s {
        SpecStatement::If { keyword, condition, action, alternate } => *action is Block && (
        match alternate {
            Some((_, other)) => *other is Block,
            None => true,
        }),
        SpecStatement::While { keyword, condition, action } => *action is Block,
        SpecStatement::For { keyword, initializer, condition, update, action } => *action is Block,
        _ => false,
    }
}

/// Checking and binding a declared value binds at most one name, in the
/// current scope, and a name that was not visible: nothing is hidden.
pub proof fn lemma_binding_grows(
    m: SpecMemory,
    value: SpecValueNode,
    expression: Option<SpecExpression>,
    check_const: bool,
    is_const: bool,
    editable: bool,
)
    requires
        m.scopes.well_formed(),
    ensures
        m.scopes.grows_to(
            after_binding(m, value, expression, check_const, is_const, editable).0.scopes,
        ),
        m.scopes.keeps_names(
            after_binding(m, value, expression, check_const, is_const, editable).0.scopes,
        ),
        m.scopes.root_keeps_names(
            after_binding(m, value, expression, check_const, is_const, editable).0.scopes,
        ),
{
    let (checked, ok) = value_check(m, value, expression, check_const);
    assert(checked.scopes == m.scopes);
    if ok {
        lemma_fresh_name_hides_nothing(
            m.scopes,
            m.token_text(value.identifier),
            declared(value, is_const, editable),
        );
        lemma_binding_keeps_root(
            m.scopes,
            m.token_text(value.identifier),
            declared(value, is_const, editable),
        );
    }
}

/// A `return` binds nothing: it notes what was returned in the scope of
/// the function.
pub proof fn lemma_return_grows(m: SpecMemory, expression: Option<SpecExpression>)
    requires
        m.scopes.well_formed(),
    ensures
        m.scopes.settles_to(after_return(m, expression).0.scopes),
        m.scopes.keeps_names(after_return(m, expression).0.scopes),
{
    let cleared = m.scopes.with_returned(None);
    lemma_function_scope_is_a_scope(m.scopes, m.scopes.current);
    assert(m.scopes.settles_to(cleared));
    lemma_function_scope_is_a_scope(cleared, cleared.current);
    match expression {
        Some(e) => match type_of(m.with_scopes(cleared), e) {
            Ok(result) => {
                let noted = cleared.with_returned(Some(result.type_info));
                assert(cleared.settles_to(noted));
                lemma_growth_adds_up(m.scopes, cleared, noted);
            },
            Err(_) => {},
        },
        None => {},
    }
    lemma_settled_sees_the_same(m.scopes, after_return(m, expression).0.scopes);
}

/// Leaving a body after whatever was evaluated in it leads back to the
/// scope it was entered from; where the body is a block, no scope that
/// was there before binds anything new.
pub proof fn lemma_body_ends(m: SpecMemory, body: SpecStatement, done: SpecMemory)
    requires
        m.scopes.well_formed(),
        enter_body(m, body).scopes.grows_to(done.scopes),
        enter_body(m, body).scopes.keeps_names(done.scopes),
    ensures
        m.scopes.grows_to(leave_body(done, body).scopes),
        m.scopes.keeps_names(leave_body(done, body).scopes),
        body is Block ==> m.scopes.settles_to(leave_body(done, body).scopes),
{
    match body_scope(body) {
        Some(range) => {
            lemma_scope_ends_with_its_body(m.scopes, SpecScopeType::Loop, range, done.scopes);
            lemma_settled_sees_the_same(m.scopes, leave_body(done, body).scopes);
        },
        None => {},
    }
}

/// An `if` statement leaves the cursor where it was and the arena well
/// formed, and hides no name; where its bodies are blocks, it binds
/// nothing in the scopes that were there.
pub proof fn lemma_if_grows(m: SpecMemory, s: SpecStatement)
    requires
        m.scopes.well_formed(),
    ensures
        m.scopes.grows_to(after_if(m, s).0.scopes),
        m.scopes.keeps_names(after_if(m, s).0.scopes),
        opens_scopes(s) ==> m.scopes.settles_to(after_if(m, s).0.scopes),
    decreases s, 0nat,
{
    match s {
        SpecStatement::If { keyword, condition, action, alternate } => {
            let (checked, evaluated) = after_condition(
                m,
                condition,
                "bool"@,
                "If statement condition must be a boolean expression."@,
            );
            assert(checked.scopes == m.scopes);
            if evaluated {
                let entered = enter_body(checked, *action);
                lemma_statement_grows(entered, *action);
                let done = after_statement(entered, *action).0;
                lemma_body_ends(checked, *action, done);
                let first = leave_body(done, *action);
                match alternate {
                    Some((_, other)) => {
                        let again = enter_body(first, *other);
                        lemma_statement_grows(again, *other);
                        let over = after_statement(again, *other).0;
                        lemma_body_ends(first, *other, over);
                        lemma_growth_adds_up(
                            m.scopes,
                            first.scopes,
                            leave_body(over, *other).scopes,
                        );
                        lemma_keeping_adds_up(
                            m.scopes,
                            first.scopes,
                            leave_body(over, *other).scopes,
                        );
                    },
                    None => {},
                }
            }
        },
        _ => {},
    }
}

/// A `while` statement leaves the cursor where it was and the arena well
/// formed, and hides no name; where its body is a block, it binds nothing
/// in the scopes that were there.
pub proof fn lemma_while_grows(m: SpecMemory, s: SpecStatement)
    requires
        m.scopes.well_formed(),
    ensures
        m.scopes.grows_to(after_while(m, s).0.scopes),
        m.scopes.keeps_names(after_while(m, s).0.scopes),
        opens_scopes(s) ==> m.scopes.settles_to(after_while(m, s).0.scopes),
    decreases s, 0nat,
{
    match s {
        SpecStatement::While { keyword, condition, action } => {
            let (checked, evaluated) = after_condition(
                m,
                condition,
                "bool"@,
                "While loop condition must be a boolean expression."@,
            );
            assert(checked.scopes == m.scopes);
            if evaluated {
                let entered = enter_body(checked, *action);
                lemma_statement_grows(entered, *action);
                lemma_body_ends(checked, *action, after_statement(entered, *action).0);
            }
        },
        _ => {},
    }
}

/// The header of a `for` statement binds at most the loop variable, in
/// the current scope, and hides no name.
pub proof fn lemma_for_header_grows(
    m: SpecMemory,
    value: SpecValueNode,
    expression: Option<SpecExpression>,
    is_const: bool,
    condition: SpecExpression,
    update: SpecExpression,
)
    requires
        m.scopes.well_formed(),
    ensures
        m.scopes.grows_to(
            after_for_header(m, value, expression, is_const, condition, update).0.scopes,
        ),
        m.scopes.keeps_names(
            after_for_header(m, value, expression, is_const, condition, update).0.scopes,
        ),
{
    lemma_binding_grows(m, value, expression, is_const, is_const, !is_const);
}

/// A `for` statement leaves the cursor where it was and the arena well
/// formed, and hides no name; where its body is a block, neither the loop
/// variable nor what the body declares is bound in the scopes that were
/// there.
pub proof fn lemma_for_grows(m: SpecMemory, s: SpecStatement)
    requires
        m.scopes.well_formed(),
    ensures
        m.scopes.grows_to(after_for(m, s).0.scopes),
        m.scopes.keeps_names(after_for(m, s).0.scopes),
        opens_scopes(s) ==> m.scopes.settles_to(after_for(m, s).0.scopes),
    decreases s, 0nat,
{
    match s {
        SpecStatement::For { keyword, initializer, condition, update, action } => {
            match *initializer {
                SpecStatement::VarDeclaration { keyword: _, value, expression, is_const } => {
                    let entered = enter_body(m, *action);
                    let (ready, go) = after_for_header(
                        entered,
                        value,
                        expression,
                        is_const,
                        condition,
                        update,
                    );
                    lemma_for_header_grows(
                        entered,
                        value,
                        expression,
                        is_const,
                        condition,
                        update,
                    );
                    if go {
                        lemma_statement_grows(ready, *action);
                        let done = after_statement(ready, *action).0;
                        lemma_growth_adds_up(entered.scopes, ready.scopes, done.scopes);
                        lemma_keeping_adds_up(entered.scopes, ready.scopes, done.scopes);
                        lemma_body_ends(m, *action, done);
                    } else {
                        lemma_body_ends(m, *action, ready);
                    }
                },
                _ => {},
            }
        },
        _ => {},
    }
}

/// A `switch` statement leaves the cursor where it was and the arena well
/// formed, and hides no name.
pub proof fn lemma_switch_grows(m: SpecMemory, s: SpecStatement)
    requires
        m.scopes.well_formed(),
    ensures
        m.scopes.grows_to(after_switch(m, s).0.scopes),
        m.scopes.keeps_names(after_switch(m, s).0.scopes),
    decreases s, 0nat,
{
    match s {
        SpecStatement::Switch { keyword, condition, cases } => {
            let checked = after_switch_condition(m, condition);
            assert(checked.scopes == m.scopes);
            lemma_cases_grow(checked, cases, 0);
        },
        _ => {},
    }
}

/// Evaluating a statement leaves the cursor where it was and the arena
/// well formed: it binds names in the current scope and in scopes that it
/// enters, and in no other. Every name that was visible stays visible and
/// stands for what it stood for. Where the statement evaluates its bodies
/// in scopes of their own, it binds nothing in the current scope either.
pub proof fn lemma_statement_grows(m: SpecMemory, s: SpecStatement)
    requires
        m.scopes.well_formed(),
    ensures
        m.scopes.grows_to(after_statement(m, s).0.scopes),
        m.scopes.keeps_names(after_statement(m, s).0.scopes),
        opens_scopes(s) ==> m.scopes.settles_to(after_statement(m, s).0.scopes),
    decreases s, 1nat,
{
    match s {
        SpecStatement::VarDeclaration { keyword, value, expression, is_const } => {
            lemma_binding_grows(m, value, expression, is_const, is_const, !is_const);
        },
        SpecStatement::If { keyword, condition, action, alternate } => {
            lemma_if_grows(m, s);
        },
        SpecStatement::While { keyword, condition, action } => {
            lemma_while_grows(m, s);
        },
        SpecStatement::For { keyword, initializer, condition, update, action } => {
            lemma_for_grows(m, s);
        },
        SpecStatement::Switch { keyword, condition, cases } => {
            lemma_switch_grows(m, s);
        },
        SpecStatement::Return { keyword, expression } => {
            lemma_return_grows(m, expression);
        },
        SpecStatement::Block { range, statements } => {
            lemma_statements_grow(m, statements, 0);
        },
        _ => {},
    }
}

/// Evaluating a list of statements leaves the cursor where it was and the
/// arena well formed, and hides no name.
pub proof fn lemma_statements_grow(m: SpecMemory, list: Seq<SpecStatement>, from: nat)
    requires
        m.scopes.well_formed(),
    ensures
        m.scopes.grows_to(after_statements(m, list, from).scopes),
        m.scopes.keeps_names(after_statements(m, list, from).scopes),
    decreases list, list.len() - from,
{
    if from < list.len() {
        lemma_statement_grows(m, list[from as int]);
        let next = after_statement(m, list[from as int]).0;
        lemma_statements_grow(next, list, from + 1);
        lemma_growth_adds_up(m.scopes, next.scopes, after_statements(next, list, from + 1).scopes);
        lemma_keeping_adds_up(
            m.scopes,
            next.scopes,
            after_statements(next, list, from + 1).scopes,
        );
    }
}

/// Evaluating the arms of a switch leaves the cursor where it was and the
/// arena well formed, and hides no name.
pub proof fn lemma_cases_grow(m: SpecMemory, cases: Seq<SpecSwitchCase>, from: nat)
    requires
        m.scopes.well_formed(),
    ensures
        m.scopes.grows_to(after_cases(m, cases, from).scopes),
        m.scopes.keeps_names(after_cases(m, cases, from).scopes),
    decreases cases, cases.len() - from,
{
    if from < cases.len() {
        lemma_statements_grow(m, cases[from as int].statements, 0);
        let next = after_statements(m, cases[from as int].statements, 0);
        lemma_cases_grow(next, cases, from + 1);
        lemma_growth_adds_up(m.scopes, next.scopes, after_cases(next, cases, from + 1).scopes);
        lemma_keeping_adds_up(m.scopes, next.scopes, after_cases(next, cases, from + 1).scopes);
    }
}

/// What a body declares ends with it: after an `if`, a `while` or a `for`
/// statement whose bodies are blocks, the current scope is the one it was
/// and sees exactly what it saw before. Neither the variable of the loop
/// nor a name declared in a body is visible behind the statement.
pub proof fn lemma_names_end_with_the_body(m: SpecMemory, s: SpecStatement)
    requires
        m.scopes.well_formed(),
        opens_scopes(s),
    ensures
        after_statement(m, s).0.scopes.well_formed(),
        after_statement(m, s).0.scopes.current == m.scopes.current,
        after_statement(m, s).0.scopes.visible() == m.scopes.visible(),
{
    lemma_statement_grows(m, s);
    lemma_settled_sees_the_same(m.scopes, after_statement(m, s).0.scopes);
}

/// What a block declares is seen for the rest of the block: a declaration
/// that passed binds its name, and whatever statements follow it in the
/// same scope, the name stays visible and stands for what was declared.
pub proof fn lemma_declared_name_stays_visible(
    m: SpecMemory,
    value: SpecValueNode,
    expression: Option<SpecExpression>,
    is_const: bool,
    rest: Seq<SpecStatement>,
)
    requires
        m.scopes.well_formed(),
        after_declaration(m, value, expression, is_const).1,
    ensures
        ({
            let declared_in = after_declaration(m, value, expression, is_const).0;
            let name = m.token_text(value.identifier);
            let bound = Some(declared(value, is_const, !is_const));
            &&& find_visible(m.scopes.visible(), name, 0) is None
            &&& find_visible(declared_in.scopes.visible(), name, 0) == bound
            &&& find_visible(after_statements(declared_in, rest, 0).scopes.visible(), name, 0)
                == bound
        }),
{
    let declared_in = after_declaration(m, value, expression, is_const).0;
    let name = m.token_text(value.identifier);
    let checked = value_check(m, value, expression, is_const).0;
    assert(checked.scopes == m.scopes);
    lemma_bound_name_is_visible(m.scopes, name, declared(value, is_const, !is_const));
    lemma_binding_grows(m, value, expression, is_const, is_const, !is_const);
    lemma_statements_grow(declared_in, rest, 0);
}

/// Whether the exec outcome of a statement is what the semantics ask for.
pub open spec fn carried_out(
    after: SpecMemory,
    result: EvaluateResult,
    expected: (SpecMemory, bool),
) -> bool {
    after == expected.0 && result == verdict(expected.1)
}

fn body_range(body: &StatementNode) -> (r: Option<Range>)
    ensures
        r == body_scope(body@),
{
    match body {
        StatementNode::Block(b) => Some(b.range),
        _ => None,
    }
}

fn enter(memory: &mut Memory, body: &StatementNode)
    ensures
        final(memory)@ == enter_body(old(memory)@, body@),
{
    if let Some(range) = body_range(body) {
        memory.scopes.enter_scope(ScopeType::Loop, range);
    }
}

fn leave(memory: &mut Memory, body: &StatementNode)
    ensures
        final(memory)@ == leave_body(old(memory)@, body@),
{
    if body_range(body).is_some() {
        memory.scopes.leave_scope();
    }
}

/// Evaluates a condition that must have the type `wanted`.
fn check_condition(memory: &mut Memory, condition: &ExpressionNode, wanted: &str, message: &str)
    -> (evaluated: bool)
    requires
        expression_ok(condition@),
    ensures
        (final(memory)@, evaluated) == after_condition(
            old(memory)@,
            condition@,
            wanted@,
            message@,
        ),
{
    let range = condition.range();
    match evaluate(memory, condition) {
        Ok(result) => {
            if !(result.type_info == TypeInfo::from_str(wanted)) {
                memory.alert_error(message, range);
            }
            true
        },
        Err(_) => false,
    }
}

/// Binds a declared name in the current scope.
pub fn declare(memory: &mut Memory, value: &ValueNode, is_const: bool, editable: bool)
    ensures
        final(memory)@ == bind(old(memory)@, value@, is_const, editable),
{
    let name = memory.get_token_text(value.identifier);
    memory.scopes.insert(
        name,
        ValueInfo {
            ty: value.type_node.info.clone(),
            is_const,
            editable,
            range: Some(value.range),
            description: None,
        },
    );
}

/// Checks a declaration and binds its name.
pub fn declare_checked(
    memory: &mut Memory,
    value: &ValueNode,
    expression: Option<&ExpressionNode>,
    check_const: bool,
    is_const: bool,
    editable: bool,
) -> (r: EvaluateResult)
    requires
        expression is Some ==> expression_ok(expression->0@),
    ensures
        carried_out(
            final(memory)@,
            r,
            after_binding(
                old(memory)@,
                value@,
                match expression {
                    Some(e) => Some(e@),
                    None => None,
                },
                check_const,
                is_const,
                editable,
            ),
        ),
{
    check_value(memory, value, expression, check_const)?;
    declare(memory, value, is_const, editable);
    Ok(())
}

/// The statements of a block that can be evaluated can be evaluated.
pub proof fn lemma_block_statements_ok(block: BlockNode)
    requires
        statement_ok(block_view(block)),
    ensures
        forall|i: int|
            0 <= i < block.statements.len() ==> statement_ok(#[trigger] block.statements@[i]@),
{
    reveal_with_fuel(statement_ok, 2);
    let statements = statements_view(block.statements@);
    assert forall|i: int| 0 <= i < block.statements.len() implies statement_ok(
        #[trigger] block.statements@[i]@,
    ) by {
        assert(statements[i] == block.statements@[i]@);
        assert(block_view(block)->Block_statements == statements);
        assert(statement_ok(block_view(block)) ==> (forall|j: int|
            0 <= j < statements.len() ==> statement_ok(#[trigger] statements[j])));
    }
}

/// Evaluates the statements of a block in order, whatever each gives.
pub fn eval_block(memory: &mut Memory, block: BlockNode)
    requires
        statement_ok(block_view(block)),
    ensures
        final(memory)@ == after_statement(old(memory)@, block_view(block)).0,
{
    proof {
        lemma_block_statements_ok(block);
    }
    execute_all(memory, &block.statements);
}

/// Evaluates a statement.
pub fn evaluate_statement(memory: &mut Memory, statement: StatementNode) -> (r: EvaluateResult)
    requires
        statement_ok(statement@),
    ensures
        carried_out(final(memory)@, r, after_statement(old(memory)@, statement@)),
{
    execute(memory, &statement)
}

/// Evaluates the statements of a list in order, whatever each gives.
pub fn execute_all(memory: &mut Memory, list: &Vec<StatementNode>)
    requires
        forall|i: int| 0 <= i < list.len() ==> statement_ok(#[trigger] list@[i]@),
    ensures
        final(memory)@ == after_statements(old(memory)@, statements_view(list@), 0),
    decreases list, 0nat,
{
    let ghost views = statements_view(list@);
    let mut i: usize = 0;
    while i < list.len()
        invariant
            i <= list.len(),
            views == statements_view(list@),
            forall|j: int| 0 <= j < list.len() ==> statement_ok(#[trigger] list@[j]@),
            after_statements(old(memory)@, views, 0) == after_statements(memory@, views, i as nat),
        decreases list.len() - i,
    {
        assert(views[i as int] == list@[i as int]@);
        let _ = execute(memory, &list[i]);
        i += 1;
    }
}

/// Evaluates the arms of a switch in order.
fn execute_cases(memory: &mut Memory, cases: &Vec<SwitchCaseNode>)
    requires
        forall|i: int, j: int|
            0 <= i < cases.len() && 0 <= j < cases@[i].statements.len() ==> statement_ok(
                #[trigger] cases@[i].statements@[j]@,
            ),
    ensures
        final(memory)@ == after_cases(old(memory)@, cases_view(cases@), 0),
    decreases cases, 0nat,
{
    let ghost views = cases_view(cases@);
    let mut i: usize = 0;
    while i < cases.len()
        invariant
            i <= cases.len(),
            views == cases_view(cases@),
            forall|k: int, j: int|
                0 <= k < cases.len() && 0 <= j < cases@[k].statements.len() ==> statement_ok(
                    #[trigger] cases@[k].statements@[j]@,
                ),
            after_cases(old(memory)@, views, 0) == after_cases(memory@, views, i as nat),
        decreases cases.len() - i,
    {
        assert(views[i as int] == cases@[i as int]@);
        execute_all(memory, &cases[i].statements);
        i += 1;
    }
}

/// Evaluates a statement in place.
pub fn execute(memory: &mut Memory, statement: &StatementNode) -> (r: EvaluateResult)
    requires
        statement_ok(statement@),
    ensures
        carried_out(final(memory)@, r, after_statement(old(memory)@, statement@)),
    decreases statement, 1nat,
{
    match statement {
        StatementNode::VarDeclaration(x) => evaluate_var_declaration(memory, x),
        StatementNode::If(x) => evaluate_if_statement(x, memory),
        StatementNode::While(x) => evaluate_while_statement(x, memory),
        StatementNode::For(x) => evaluate_for_statement(x, memory),
        StatementNode::Switch(x) => evaluate_switch_statement(x, memory),
        StatementNode::Expression(x) => match evaluate(memory, x) {
            Ok(_) => Ok(()),
            Err(e) => Err(e),
        },
        StatementNode::Continue(x) => evaluate_continue_statement(memory, *x),
        StatementNode::Break(x) => evaluate_break_statement(memory, *x),
        StatementNode::Return(x) => evaluate_return_statement(memory, x),
        StatementNode::Block(x) => {
            proof {
                lemma_block_view(*x);
                lemma_block_statements_ok(*x);
            }
            execute_all(memory, &x.statements);
            Ok(())
        },
    }
}

fn evaluate_return_statement(memory: &mut Memory, node: &ReturnNode) -> (r: EvaluateResult)
    requires
        statement_ok(StatementNode::Return(*node)@),
    ensures
        carried_out(
            final(memory)@,
            r,
            after_statement(old(memory)@, StatementNode::Return(*node)@),
        ),
{
    memory.scopes.set_actual_return_type(None);
    if let Some(expr) = &node.expression {
        let result_range = expr.range();
        let result = match evaluate(memory, expr) {
            Ok(result) => result,
            Err(e) => {
                return Err(e);
            },
        };
        memory.scopes.set_actual_return_type(Some(result.type_info.clone()));
        if let Some(return_type) = memory.scopes.get_expected_return_type() {
            if !(return_type == result.type_info) {
                let message = concat3(
                    "Invalid return type, expected '",
                    return_type.to_string().as_str(),
                    "'",
                );
                return Err(memory.alert_error(message.as_str(), result_range));
            }
        }
    }
    Ok(())
}

/// Checks that the current scope is the body of a loop.
fn check_jump(memory: &mut Memory, node: Token, message: &str) -> (r: EvaluateResult)
    ensures
        carried_out(final(memory)@, r, after_jump(old(memory)@, node, message@)),
{
    match memory.scopes.scope_type() {
        ScopeType::Loop => Ok(()),
        _ => Err(memory.alert_error(message, node.range)),
    }
}

fn evaluate_break_statement(memory: &mut Memory, node: Token) -> (r: EvaluateResult)
    ensures
        carried_out(
            final(memory)@,
            r,
            after_statement(old(memory)@, SpecStatement::Break(node)),
        ),
{
    check_jump(memory, node, "Cannot use 'break' outside a loop.")
}

fn evaluate_continue_statement(memory: &mut Memory, node: Token) -> (r: EvaluateResult)
    ensures
        carried_out(
            final(memory)@,
            r,
            after_statement(old(memory)@, SpecStatement::Continue(node)),
        ),
{
    check_jump(memory, node, "Cannot use 'continue' outside a loop.")
}

fn evaluate_switch_statement(node: &SwitchNode, memory: &mut Memory) -> (r: EvaluateResult)
    requires
        statement_ok(StatementNode::Switch(*node)@),
    ensures
        carried_out(
            final(memory)@,
            r,
            after_statement(old(memory)@, StatementNode::Switch(*node)@),
        ),
    decreases node,
{
    proof {
        lemma_switch_view(*node);
    }
    assert forall|i: int, j: int|
        0 <= i < node.cases.len() && 0 <= j < node.cases@[i].statements.len() implies statement_ok(
        #[trigger] node.cases@[i].statements@[j]@,
    ) by {
        assert(cases_view(node.cases@)[i] == node.cases@[i]@);
        assert(cases_view(node.cases@)[i].statements[j] == node.cases@[i].statements@[j]@);
    }
    let range = node.condition.range();
    if let Ok(expr) = evaluate(memory, &node.condition) {
        if !(expr.type_info == TypeInfo::from_str("int")) && !(expr.type_info
            == TypeInfo::from_str("uint")) {
            memory.alert_error("Switch condition must be an integer.", range);
        }
    }
    execute_cases(memory, &node.cases);
    Ok(())
}

fn evaluate_for_statement(node: &ForNode, memory: &mut Memory) -> (r: EvaluateResult)
    requires
        statement_ok(StatementNode::For(*node)@),
    ensures
        carried_out(
            final(memory)@,
            r,
            after_statement(old(memory)@, StatementNode::For(*node)@),
        ),
    decreases node,
{
    let initializer: &StatementNode = &node.initializer;
    match initializer {
        StatementNode::VarDeclaration(declaration) => {
            enter(memory, &node.action);
            if evaluate_var_declaration(memory, declaration).is_err() {
                leave(memory, &node.action);
                return Err(EvaluateError::SemanticsError);
            }
        },
        _ => {
            assert(!((*node.initializer)@ is VarDeclaration));
            let message = "Left expression of a for loop must be a variable declaration.";
            return Err(memory.alert_error(message, node.keyword.range));
        },
    }
    check_condition(
        memory,
        &node.condition,
        "bool",
        "For loop condition must be a boolean expression.",
    );
    if evaluate(memory, &node.update).is_err() {
        leave(memory, &node.action);
        return Err(EvaluateError::SemanticsError);
    }
    let _ = execute(memory, &node.action);
    leave(memory, &node.action);
    Ok(())
}

fn evaluate_while_statement(node: &WhileNode, memory: &mut Memory) -> (r: EvaluateResult)
    requires
        statement_ok(StatementNode::While(*node)@),
    ensures
        carried_out(
            final(memory)@,
            r,
            after_statement(old(memory)@, StatementNode::While(*node)@),
        ),
    decreases node,
{
    if !check_condition(
        memory,
        &node.condition,
        "bool",
        "While loop condition must be a boolean expression.",
    ) {
        return Err(EvaluateError::SemanticsError);
    }
    enter(memory, &node.action);
    let result = execute(memory, &node.action);
    leave(memory, &node.action);
    result
}

fn evaluate_if_statement(node: &IfNode, memory: &mut Memory) -> (r: EvaluateResult)
    requires
        statement_ok(StatementNode::If(*node)@),
    ensures
        carried_out(
            final(memory)@,
            r,
            after_statement(old(memory)@, StatementNode::If(*node)@),
        ),
    decreases node,
{
    if !check_condition(
        memory,
        &node.condition,
        "bool",
        "If statement condition must be a boolean expression.",
    ) {
        return Err(EvaluateError::SemanticsError);
    }
    enter(memory, &node.action);
    let _ = execute(memory, &node.action);
    leave(memory, &node.action);
    if let Some(x) = &node.alternate {
        enter(memory, &x.action);
        let _ = execute(memory, &x.action);
        leave(memory, &x.action);
    }
    Ok(())
}

fn evaluate_var_declaration(memory: &mut Memory, node: &VarDeclarationNode) -> (r: EvaluateResult)
    requires
        statement_ok(StatementNode::VarDeclaration(*node)@),
    ensures
        carried_out(
            final(memory)@,
            r,
            after_statement(old(memory)@, StatementNode::VarDeclaration(*node)@),
        ),
{
    let is_const = node.is_const;
    match &node.expression {
        Some(e) => declare_checked(memory, &node.value, Some(e), is_const, is_const, !is_const),
        None => declare_checked(memory, &node.value, None, is_const, is_const, !is_const),
    }
}

} // verus!

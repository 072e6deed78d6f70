//! Completion and hover: what to offer at the cursor, and how to describe
//! the name under it.

use vstd::prelude::*;
use vstd::string::*;
use crate::interpreter::expression_interpreter::{evaluate, expression_ok, type_of};
use crate::interpreter::top_level_interpreter::types_contain;
use crate::lexer::operations::MaybeOperator;
use crate::lexer::token::TokenKind;
use crate::memory::functions::{
    FunctionInfo, FunctionParamQualifier, SpecFunctionInfo, SpecFunctionParam,
    SpecFunctionSignature,
};
use crate::memory::hint::{HintInfo, SpecHintInfo};
use crate::memory::table::{find_entry, lookup, SpecTable};
use crate::memory::types::{
    plain_type, type_eq, type_text, SpecBuiltinTypeInfo, SpecTypeInfo, TypeInfo,
};
use crate::memory::{
    find_in_tables, find_visible, lemma_analysis_is_idempotent,
    lemma_analysis_starts_from_scratch, Memory, ShaderType, SpecMemory, SpecStructField,
    SpecStructInfo, SpecValueInfo, StructField, StructInfo, ValueInfo,
};
use crate::nodes::expression_node::{
    arguments_view, expressions_view, lemma_array_literal_view, lemma_call_view,
    CallArgumentNode, ExpressionNode, SpecExpression,
};
use crate::position::Position;
use crate::text::{concat2, concat3, concat4, concat5, join, joined, str_eq, string_from_chars, to_chars};

verus! {

/// What the grammar expects at the cursor.
#[derive(Debug)]
pub enum CompletionElement {
    TopLevelKeyword,
    Include,
    IncludeString,
    ShaderType,
    RenderMode,
    Uniform,
    Hint(TypeInfo),
    Precision,
    Interpolation,
    FunctionName,
    FunctionQualifier,
    Statement,
    SwitchCase,
    Type,
    Identifier(bool),
    Member(Box<ExpressionNode>),
    Nothing,
}

/// The mathematical value of a [`CompletionElement`].
pub enum SpecCompletionElement {
    TopLevelKeyword,
    Include,
    IncludeString,
    ShaderType,
    RenderMode,
    Uniform,
    Hint(SpecTypeInfo),
    Precision,
    Interpolation,
    FunctionName,
    FunctionQualifier,
    Statement,
    SwitchCase,
    Type,
    Identifier(bool),
    Member(SpecExpression),
    Nothing,
}

impl View for CompletionElement {
    type V = SpecCompletionElement;

    open spec fn view(&self) -> SpecCompletionElement {
        match self {
            CompletionElement::TopLevelKeyword => SpecCompletionElement::TopLevelKeyword,
            CompletionElement::Include => SpecCompletionElement::Include,
            CompletionElement::IncludeString => SpecCompletionElement::IncludeString,
            CompletionElement::ShaderType => SpecCompletionElement::ShaderType,
            CompletionElement::RenderMode => SpecCompletionElement::RenderMode,
            CompletionElement::Uniform => SpecCompletionElement::Uniform,
            CompletionElement::Hint(ty) => SpecCompletionElement::Hint(ty@),
            CompletionElement::Precision => SpecCompletionElement::Precision,
            CompletionElement::Interpolation => SpecCompletionElement::Interpolation,
            CompletionElement::FunctionName => SpecCompletionElement::FunctionName,
            CompletionElement::FunctionQualifier => SpecCompletionElement::FunctionQualifier,
            CompletionElement::Statement => SpecCompletionElement::Statement,
            CompletionElement::SwitchCase => SpecCompletionElement::SwitchCase,
            CompletionElement::Type => SpecCompletionElement::Type,
            CompletionElement::Identifier(c) => SpecCompletionElement::Identifier(*c),
            CompletionElement::Member(e) => SpecCompletionElement::Member(e@),
            CompletionElement::Nothing => SpecCompletionElement::Nothing,
        }
    }
}

impl Clone for CompletionElement {
    fn clone(&self) -> (r: Self)
        ensures
            r@ == self@,
    {
        match self {
            CompletionElement::TopLevelKeyword => CompletionElement::TopLevelKeyword,
            CompletionElement::Include => CompletionElement::Include,
            CompletionElement::IncludeString => CompletionElement::IncludeString,
            CompletionElement::ShaderType => CompletionElement::ShaderType,
            CompletionElement::RenderMode => CompletionElement::RenderMode,
            CompletionElement::Uniform => CompletionElement::Uniform,
            CompletionElement::Hint(ty) => CompletionElement::Hint(ty.clone()),
            CompletionElement::Precision => CompletionElement::Precision,
            CompletionElement::Interpolation => CompletionElement::Interpolation,
            CompletionElement::FunctionName => CompletionElement::FunctionName,
            CompletionElement::FunctionQualifier => CompletionElement::FunctionQualifier,
            CompletionElement::Statement => CompletionElement::Statement,
            CompletionElement::SwitchCase => CompletionElement::SwitchCase,
            CompletionElement::Type => CompletionElement::Type,
            CompletionElement::Identifier(c) => CompletionElement::Identifier(*c),
            CompletionElement::Member(e) => {
                let inner: &ExpressionNode = e;
                CompletionElement::Member(Box::new(inner.clone()))
            },
            CompletionElement::Nothing => CompletionElement::Nothing,
        }
    }
}

/// The kind of thing that a completion item stands for.
#[derive(Clone, Copy, Debug, PartialEq, Eq, Structural)]
pub enum CompletionItemKind {
    Keyword,
    Value,
    TypeParameter,
    Struct,
    Function,
    Variable,
    Field,
    Text,
}

/// How the text that an item inserts is to be read.
#[derive(Clone, Copy, Debug, PartialEq, Eq, Structural)]
pub enum InsertTextFormat {
    PlainText,
    /// The text holds a place for the editor's cursor, written `$0`.
    Snippet,
}

/// One suggestion.
#[derive(Debug)]
pub struct CompletionItem {
    pub label: String,
    pub kind: Option<CompletionItemKind>,
    pub insert_text: Option<String>,
    pub insert_text_format: Option<InsertTextFormat>,
}

/// The mathematical value of a [`CompletionItem`].
pub struct SpecCompletionItem {
    pub label: Seq<char>,
    pub kind: Option<CompletionItemKind>,
    pub insert_text: Option<Seq<char>>,
    pub insert_text_format: Option<InsertTextFormat>,
}

impl DeepView for CompletionItem {
    type V = SpecCompletionItem;

    open spec fn deep_view(&self) -> SpecCompletionItem {
        SpecCompletionItem {
            label: self.label@,
            kind: self.kind,
            insert_text: self.insert_text.deep_view(),
            insert_text_format: self.insert_text_format,
        }
    }
}

/// A suggestion that inserts its label.
pub open spec fn plain_item(label: Seq<char>, kind: CompletionItemKind) -> SpecCompletionItem {
    SpecCompletionItem { label, kind: Some(kind), insert_text: None, insert_text_format: None }
}

/// One plain suggestion for each of the first `n` labels.
pub open spec fn plain_items(labels: Seq<Seq<char>>, kind: CompletionItemKind) -> Seq<
    SpecCompletionItem,
> {
    labels.map_values(|l: Seq<char>| plain_item(l, kind))
}

/// The views of a list of string slices.
pub open spec fn labels_view(labels: Seq<&'static str>) -> Seq<Seq<char>> {
    labels.map_values(|l: &'static str| l@)
}

fn plain(label: &str, kind: CompletionItemKind) -> (r: CompletionItem)
    ensures
        r.deep_view() == plain_item(label@, kind),
{
    CompletionItem {
        label: String::from_str(label),
        kind: Some(kind),
        insert_text: None,
        insert_text_format: None,
    }
}

/// One plain suggestion for each label.
fn labelled(labels: Vec<&'static str>, kind: CompletionItemKind) -> (r: Vec<CompletionItem>)
    ensures
        r.deep_view() == plain_items(labels_view(labels@), kind),
{
    let mut r: Vec<CompletionItem> = Vec::new();
    let mut i: usize = 0;
    while i < labels.len()
        invariant
            i <= labels.len(),
            r.len() == i,
            forall|j: int| 0 <= j < i ==> r@[j].deep_view() == plain_item(labels@[j]@, kind),
        decreases labels.len() - i,
    {
        r.push(plain(labels[i], kind));
        i += 1;
    }
    assert(r.deep_view() =~= plain_items(labels_view(labels@), kind));
    r
}

/// Adds the items of `more` behind those of `items`.
fn add_all(items: &mut Vec<CompletionItem>, more: Vec<CompletionItem>)
    ensures
        final(items).deep_view() == old(items).deep_view() + more.deep_view(),
{
    let mut more = more;
    let ghost added = more.deep_view();
    items.append(&mut more);
    assert(items.deep_view() =~= old(items).deep_view() + added);
}

/// The entries of a table that `keep` admits, among the first `n`, each
/// turned into a suggestion by `make`.
pub open spec fn listing<M>(
    table: SpecTable<M>,
    n: nat,
    keep: spec_fn(Seq<char>, M) -> bool,
    make: spec_fn(Seq<char>, M) -> SpecCompletionItem,
) -> Seq<SpecCompletionItem>
    decreases n,
{
    if n == 0 || n > table.len() {
        Seq::empty()
    } else {
        let rest = listing(table, (n - 1) as nat, keep, make);
        let (name, value) = table[n - 1];
        if keep(name, value) {
            rest.push(make(name, value))
        } else {
            rest
        }
    }
}

/// The built-in types that may be used in scope `scope`: all at top
/// level, else those that may be used anywhere.
pub open spec fn type_items(m: SpecMemory, scope: nat) -> Seq<SpecCompletionItem> {
    listing(
        m.builtin_types,
        m.builtin_types.len(),
        |name: Seq<char>, info: SpecBuiltinTypeInfo| scope == 0 || info.used_anywhere,
        |name: Seq<char>, info: SpecBuiltinTypeInfo|
            plain_item(name, CompletionItemKind::TypeParameter),
    )
}

/// Whether one of the numbers is above zero.
pub open spec fn any_positive(counts: Seq<usize>) -> bool {
    exists|i: int| 0 <= i < counts.len() && #[trigger] counts[i] > 0
}

/// Whether a hint takes arguments in some form.
pub open spec fn takes_arguments(info: SpecHintInfo) -> bool {
    any_positive(info.num_arguments)
}

/// The suggestion for a hint: it inserts the name, with parentheses around
/// the place of the cursor if the hint takes arguments.
pub open spec fn hint_item(name: Seq<char>, info: SpecHintInfo) -> SpecCompletionItem {
    SpecCompletionItem {
        label: name,
        kind: None,
        insert_text: Some(
            name + if takes_arguments(info) {
                "($0)"@
            } else {
                ""@
            },
        ),
        insert_text_format: Some(InsertTextFormat::Snippet),
    }
}

/// The hints that accept the type `ty`.
pub open spec fn hint_items(m: SpecMemory, ty: SpecTypeInfo) -> Seq<SpecCompletionItem> {
    listing(
        m.hints,
        m.hints.len(),
        |name: Seq<char>, info: SpecHintInfo| types_contain(info.type_info, ty),
        |name: Seq<char>, info: SpecHintInfo| hint_item(name, info),
    )
}

/// The structs.
pub open spec fn struct_items(m: SpecMemory) -> Seq<SpecCompletionItem> {
    listing(
        m.structs,
        m.structs.len(),
        |name: Seq<char>, info: SpecStructInfo| true,
        |name: Seq<char>, info: SpecStructInfo| plain_item(name, CompletionItemKind::Struct),
    )
}

/// The suggestion for a function: a call with the cursor between the
/// parentheses.
pub open spec fn function_item(name: Seq<char>) -> SpecCompletionItem {
    SpecCompletionItem {
        label: name + "()"@,
        kind: Some(CompletionItemKind::Function),
        insert_text: Some(name + "($0)"@),
        insert_text_format: Some(InsertTextFormat::Snippet),
    }
}

/// The names of the functions that convert to a built-in type.
pub open spec fn cast_names() -> Seq<Seq<char>> {
    seq![
        "float"@,
        "int"@,
        "uint"@,
        "bool"@,
        "vec2"@,
        "vec3"@,
        "vec4"@,
        "ivec2"@,
        "ivec3"@,
        "ivec4"@,
        "uvec2"@,
        "uvec3"@,
        "uvec4"@,
        "bvec2"@,
        "bvec3"@,
        "bvec4"@,
        "mat2"@,
        "mat3"@,
        "mat4"@,
    ]
}

/// The functions, or only the constant ones; without the conversions to
/// built-in types where those are offered as types already.
pub open spec fn function_items(m: SpecMemory, only_const: bool, skip_casts: bool) -> Seq<
    SpecCompletionItem,
> {
    listing(
        m.functions,
        m.functions.len(),
        |name: Seq<char>, info: SpecFunctionInfo|
            (!only_const || info.is_const) && !(skip_casts && cast_names().contains(name)),
        |name: Seq<char>, info: SpecFunctionInfo| function_item(name),
    )
}

/// The variables of one table, or only the constant ones.
pub open spec fn table_items(table: SpecTable<SpecValueInfo>, only_const: bool) -> Seq<
    SpecCompletionItem,
> {
    listing(
        table,
        table.len(),
        |name: Seq<char>, info: SpecValueInfo| !only_const || info.is_const,
        |name: Seq<char>, info: SpecValueInfo| plain_item(name, CompletionItemKind::Variable),
    )
}

/// The variables of the first `n` tables, innermost scope first.
pub open spec fn tables_items(tables: Seq<SpecTable<SpecValueInfo>>, n: nat, only_const: bool)
    -> Seq<SpecCompletionItem>
    decreases n,
{
    if n == 0 || n > tables.len() {
        Seq::empty()
    } else {
        tables_items(tables, (n - 1) as nat, only_const) + table_items(tables[n - 1], only_const)
    }
}

/// The variables visible from scope `scope`, or only the constant ones.
pub open spec fn variable_items(m: SpecMemory, scope: nat, only_const: bool) -> Seq<
    SpecCompletionItem,
> {
    tables_items(m.scopes.visible_from(scope), m.scopes.visible_from(scope).len(), only_const)
}

/// The render modes that the shader accepts.
pub open spec fn render_mode_items(m: SpecMemory) -> Seq<SpecCompletionItem> {
    listing(
        m.valid_render_modes,
        m.valid_render_modes.len(),
        |name: Seq<char>, info: Seq<char>| true,
        |name: Seq<char>, info: Seq<char>| plain_item(name, CompletionItemKind::Value),
    )
}

fn is_cast_name(name: &str) -> (r: bool)
    ensures
        r == cast_names().contains(name@),
{
    let r = str_eq(name, "float") || str_eq(name, "int") || str_eq(name, "uint") || str_eq(
        name,
        "bool",
    ) || str_eq(name, "vec2") || str_eq(name, "vec3") || str_eq(name, "vec4") || str_eq(
        name,
        "ivec2",
    ) || str_eq(name, "ivec3") || str_eq(name, "ivec4") || str_eq(name, "uvec2") || str_eq(
        name,
        "uvec3",
    ) || str_eq(name, "uvec4") || str_eq(name, "bvec2") || str_eq(name, "bvec3") || str_eq(
        name,
        "bvec4",
    ) || str_eq(name, "mat2") || str_eq(name, "mat3") || str_eq(name, "mat4");
    proof {
        let names = cast_names();
        if r {
            let i = choose|i: int| 0 <= i < 19 && names[i] == name@;
            assert(names[i] == name@);
        } else {
            assert forall|i: int| 0 <= i < names.len() implies names[i] != name@ by {}
        }
    }
    r
}

fn counts_above_zero(list: &Vec<usize>) -> (r: bool)
    ensures
        r == any_positive(list@),
{
    let mut i: usize = 0;
    while i < list.len()
        invariant
            i <= list.len(),
            forall|j: int| 0 <= j < i ==> !(#[trigger] list@[j] > 0),
        decreases list.len() - i,
    {
        if list[i] > 0 {
            return true;
        }
        i += 1;
    }
    false
}

fn includes_type(list: &Vec<TypeInfo>, ty: &TypeInfo) -> (r: bool)
    ensures
        r == types_contain(list.deep_view(), ty@),
{
    let mut i: usize = 0;
    while i < list.len()
        invariant
            i <= list.len(),
            forall|j: int| 0 <= j < i ==> !type_eq(#[trigger] list.deep_view()[j], ty@),
        decreases list.len() - i,
    {
        assert(list.deep_view()[i as int] == list@[i as int]@);
        if list[i] == *ty {
            return true;
        }
        i += 1;
    }
    false
}

/// The variables of one table.
#[verifier::loop_isolation(false)]
fn list_table(table: &Vec<(String, ValueInfo)>, only_const: bool) -> (r: Vec<CompletionItem>)
    ensures
        r.deep_view() == table_items(table.deep_view(), only_const),
{
    let ghost keep = |name: Seq<char>, info: SpecValueInfo| !only_const || info.is_const;
    let ghost make = |name: Seq<char>, info: SpecValueInfo|
        plain_item(name, CompletionItemKind::Variable);
    let mut r: Vec<CompletionItem> = Vec::new();
    let mut i: usize = 0;
    assert(r.deep_view() =~= listing(table.deep_view(), 0, keep, make));
    while i < table.len()
        invariant
            i <= table.len(),
            r.deep_view() == listing(table.deep_view(), i as nat, keep, make),
        decreases table.len() - i,
    {
        let ghost before = r.deep_view();
        assert(table.deep_view()[i as int] == (table@[i as int].0@, table@[i as int].1.deep_view()));
        if !only_const || table[i].1.is_const {
            r.push(plain(table[i].0.as_str(), CompletionItemKind::Variable));
            assert(r.deep_view() =~= before.push(
                plain_item(table@[i as int].0@, CompletionItemKind::Variable),
            ));
        }
        i += 1;
    }
    r
}

impl Memory {
    /// The built-in types that may be used in scope `scope`.
    #[verifier::loop_isolation(false)]
    pub fn get_builtin_types(&self, scope: usize) -> (r: Vec<CompletionItem>)
        ensures
            r.deep_view() == type_items(self@, scope as nat),
    {
        let ghost table = self@.builtin_types;
        let ghost keep = |name: Seq<char>, info: SpecBuiltinTypeInfo|
            scope as nat == 0 || info.used_anywhere;
        let ghost make = |name: Seq<char>, info: SpecBuiltinTypeInfo|
            plain_item(name, CompletionItemKind::TypeParameter);
        let mut r: Vec<CompletionItem> = Vec::new();
        let mut i: usize = 0;
        assert(r.deep_view() =~= listing(table, 0, keep, make));
        while i < self.builtin_types.len()
            invariant
                i <= self.builtin_types.len(),
                table == self@.builtin_types,
                r.deep_view() == listing(table, i as nat, keep, make),
            decreases self.builtin_types.len() - i,
        {
            let ghost before = r.deep_view();
            let entry = &self.builtin_types[i];
            assert(table[i as int] == (entry.0@, entry.1.deep_view()));
            if scope == 0 || entry.1.used_anywhere {
                r.push(plain(entry.0.as_str(), CompletionItemKind::TypeParameter));
                assert(r.deep_view() =~= before.push(
                    plain_item(entry.0@, CompletionItemKind::TypeParameter),
                ));
            }
            i += 1;
        }
        r
    }

    /// The hints that accept the type `ty`.
    #[verifier::loop_isolation(false)]
    pub fn get_hints(&self, ty: TypeInfo) -> (r: Vec<CompletionItem>)
        ensures
            r.deep_view() == hint_items(self@, ty@),
    {
        let ghost table = self@.hints;
        let ghost keep = |name: Seq<char>, info: SpecHintInfo| types_contain(info.type_info, ty@);
        let ghost make = |name: Seq<char>, info: SpecHintInfo| hint_item(name, info);
        let mut r: Vec<CompletionItem> = Vec::new();
        let mut i: usize = 0;
        assert(r.deep_view() =~= listing(table, 0, keep, make));
        while i < self.hints.len()
            invariant
                i <= self.hints.len(),
                table == self@.hints,
                r.deep_view() == listing(table, i as nat, keep, make),
            decreases self.hints.len() - i,
        {
            let ghost before = r.deep_view();
            let entry = &self.hints[i];
            assert(table[i as int] == (entry.0@, entry.1.deep_view()));
            if includes_type(&entry.1.type_info, &ty) {
                let takes = counts_above_zero(&entry.1.num_arguments);
                assert(takes == takes_arguments(entry.1.deep_view()));
                let insert_text = if takes {
                    "($0)"
                } else {
                    ""
                };
                let item = CompletionItem {
                    label: entry.0.clone(),
                    kind: None,
                    insert_text_format: Some(InsertTextFormat::Snippet),
                    insert_text: Some(concat2(entry.0.as_str(), insert_text)),
                };
                assert(item.deep_view() == hint_item(entry.0@, entry.1.deep_view()));
                r.push(item);
                assert(r.deep_view() =~= before.push(hint_item(entry.0@, entry.1.deep_view())));
            }
            i += 1;
        }
        r
    }

    /// The structs declared so far.
    #[verifier::loop_isolation(false)]
    pub fn get_structs(&self) -> (r: Vec<CompletionItem>)
        ensures
            r.deep_view() == struct_items(self@),
    {
        let ghost table = self@.structs;
        let ghost keep = |name: Seq<char>, info: SpecStructInfo| true;
        let ghost make = |name: Seq<char>, info: SpecStructInfo|
            plain_item(name, CompletionItemKind::Struct);
        let mut r: Vec<CompletionItem> = Vec::new();
        let mut i: usize = 0;
        assert(r.deep_view() =~= listing(table, 0, keep, make));
        while i < self.structs.len()
            invariant
                i <= self.structs.len(),
                table == self@.structs,
                r.deep_view() == listing(table, i as nat, keep, make),
            decreases self.structs.len() - i,
        {
            let ghost before = r.deep_view();
            let entry = &self.structs[i];
            assert(table[i as int] == (entry.0@, entry.1.deep_view()));
            r.push(plain(entry.0.as_str(), CompletionItemKind::Struct));
            assert(r.deep_view() =~= before.push(plain_item(entry.0@, CompletionItemKind::Struct)));
            i += 1;
        }
        r
    }

    /// The functions, or only the constant ones; `skip_casts` leaves out
    /// the conversions to built-in types.
    #[verifier::loop_isolation(false)]
    pub fn list_functions(&self, is_const: bool, skip_casts: bool) -> (r: Vec<CompletionItem>)
        ensures
            r.deep_view() == function_items(self@, is_const, skip_casts),
    {
        let ghost table = self@.functions;
        let ghost keep = |name: Seq<char>, info: SpecFunctionInfo|
            (!is_const || info.is_const) && !(skip_casts && cast_names().contains(name));
        let ghost make = |name: Seq<char>, info: SpecFunctionInfo| function_item(name);
        let mut r: Vec<CompletionItem> = Vec::new();
        let mut i: usize = 0;
        assert(r.deep_view() =~= listing(table, 0, keep, make));
        while i < self.functions.len()
            invariant
                i <= self.functions.len(),
                table == self@.functions,
                r.deep_view() == listing(table, i as nat, keep, make),
            decreases self.functions.len() - i,
        {
            let ghost before = r.deep_view();
            let entry = &self.functions[i];
            assert(table[i as int] == (entry.0@, entry.1.deep_view()));
            if (!is_const || entry.1.is_const) && !(skip_casts && is_cast_name(entry.0.as_str())) {
                let item = CompletionItem {
                    label: concat2(entry.0.as_str(), "()"),
                    kind: Some(CompletionItemKind::Function),
                    insert_text_format: Some(InsertTextFormat::Snippet),
                    insert_text: Some(concat2(entry.0.as_str(), "($0)")),
                };
                r.push(item);
                assert(r.deep_view() =~= before.push(function_item(entry.0@)));
            }
            i += 1;
        }
        r
    }

    /// The functions, or only the constant ones.
    pub fn get_functions(&self, cursor: Position, is_const: bool) -> (r: Vec<CompletionItem>)
        ensures
            r.deep_view() == function_items(self@, is_const, false),
    {
        self.list_functions(is_const, false)
    }

    /// The variables visible from scope `scope`, or only the constant ones.
    pub fn get_variables(&self, scope: usize, is_const: bool) -> (r: Vec<CompletionItem>)
        ensures
            r.deep_view() == variable_items(self@, scope as nat, is_const),
    {
        let tables = self.scopes.collect_scopes_from(scope);
        let ghost views = tables.deep_view();
        let mut r: Vec<CompletionItem> = Vec::new();
        let mut i: usize = 0;
        assert(r.deep_view() =~= tables_items(views, 0, is_const));
        while i < tables.len()
            invariant
                i <= tables.len(),
                views == tables.deep_view(),
                r.deep_view() == tables_items(views, i as nat, is_const),
            decreases tables.len() - i,
        {
            assert(views[i as int] == tables@[i as int].deep_view());
            add_all(&mut r, list_table(tables[i], is_const));
            i += 1;
        }
        r
    }
}

/// Whether an expression can be evaluated at all.
pub fn is_expression_ok(e: &ExpressionNode) -> (r: bool)
    ensures
        r == expression_ok(e@),
    decreases e, 1nat,
{
    match e {
        ExpressionNode::Primitive(t) => match t.kind {
            TokenKind::IntConstant
            | TokenKind::UintConstant
            | TokenKind::FloatConstant
            | TokenKind::BoolConstant => true,
            _ => false,
        },
        ExpressionNode::Identifier(_) => true,
        ExpressionNode::Unary(x) => x.op.to_unary_op().is_some() && is_expression_ok(&x.arg),
        ExpressionNode::Binary(x) => x.op.to_binary_op().is_some() && is_expression_ok(&x.left)
            && is_expression_ok(&x.right),
        ExpressionNode::Assignment(x) => x.op.to_assignment_op().is_some() && is_expression_ok(
            &x.left,
        ) && is_expression_ok(&x.right),
        ExpressionNode::Increment(x) => is_expression_ok(&x.arg),
        ExpressionNode::Paren(x) => is_expression_ok(x),
        ExpressionNode::Conditional(x) => is_expression_ok(&x.condition) && is_expression_ok(
            &x.action,
        ) && is_expression_ok(&x.alternate),
        ExpressionNode::Call(x) => {
            proof {
                lemma_call_view(*x);
            }
            let r = are_arguments_ok(&x.args);
            proof {
                let args = arguments_view(x.args@);
                assert(e@ == (SpecExpression::Call { identifier: x.identifier, args }));
                assert(expression_ok(e@) == (forall|i: int|
                    0 <= i < args.len() ==> expression_ok((#[trigger] args[i]).expression)));
                if r {
                    assert forall|i: int| 0 <= i < args.len() implies expression_ok(
                        (#[trigger] args[i]).expression,
                    ) by {
                        assert(args[i] == x.args@[i]@);
                    }
                } else {
                    let bad = choose|i: int|
                        0 <= i < x.args.len() && !expression_ok(
                            (#[trigger] x.args@[i]).expression@,
                        );
                    assert(args[bad] == x.args@[bad]@);
                }
            }
            r
        },
        ExpressionNode::ArrayAccess(x) => is_expression_ok(&x.argument) && is_expression_ok(
            &x.index,
        ),
        ExpressionNode::MemberAccess(x) => is_expression_ok(&x.argument),
        ExpressionNode::ArrayLiteral(v) => {
            proof {
                lemma_array_literal_view(*v);
            }
            let r = are_expressions_ok(v);
            proof {
                let items = expressions_view(v@);
                assert(e@ == SpecExpression::ArrayLiteral(items));
                assert(expression_ok(e@) == (forall|i: int|
                    0 <= i < items.len() ==> expression_ok(#[trigger] items[i])));
                if r {
                    assert forall|i: int| 0 <= i < items.len() implies expression_ok(
                        #[trigger] items[i],
                    ) by {
                        assert(items[i] == v@[i]@);
                    }
                } else {
                    let bad = choose|i: int| 0 <= i < v.len() && !expression_ok(#[trigger] v@[i]@);
                    assert(items[bad] == v@[bad]@);
                }
            }
            r
        },
    }
}

fn are_expressions_ok(list: &Vec<ExpressionNode>) -> (r: bool)
    ensures
        r == (forall|i: int| 0 <= i < list.len() ==> expression_ok(#[trigger] list@[i]@)),
    decreases list, 0nat,
{
    let mut i: usize = 0;
    while i < list.len()
        invariant
            i <= list.len(),
            forall|j: int| 0 <= j < i ==> expression_ok(#[trigger] list@[j]@),
        decreases list.len() - i,
    {
        if !is_expression_ok(&list[i]) {
            return false;
        }
        i += 1;
    }
    true
}

fn are_arguments_ok(list: &Vec<CallArgumentNode>) -> (r: bool)
    ensures
        r == (forall|i: int|
            0 <= i < list.len() ==> expression_ok((#[trigger] list@[i]).expression@)),
    decreases list, 0nat,
{
    let mut i: usize = 0;
    while i < list.len()
        invariant
            i <= list.len(),
            forall|j: int| 0 <= j < i ==> expression_ok((#[trigger] list@[j]).expression@),
        decreases list.len() - i,
    {
        if !is_expression_ok(&list[i].expression) {
            return false;
        }
        i += 1;
    }
    true
}

/// The suggestion that starts an include directive.
pub open spec fn include_item() -> SpecCompletionItem {
    SpecCompletionItem {
        label: "#include"@,
        kind: Some(CompletionItemKind::Value),
        insert_text: Some("include"@),
        insert_text_format: None,
    }
}

/// The suggestion for a file that can be included: the path in quotes; it
/// inserts the path.
pub open spec fn file_item(path: Seq<char>) -> SpecCompletionItem {
    SpecCompletionItem {
        label: "\""@ + path + "\""@,
        kind: Some(CompletionItemKind::Text),
        insert_text: Some(path),
        insert_text_format: None,
    }
}

/// The names of the fields of a struct.
pub open spec fn field_names(fields: Seq<SpecStructField>) -> Seq<Seq<char>> {
    fields.map_values(|f: SpecStructField| f.name)
}

/// The members of a value of type `ty`: the components of a vector, the
/// fields of a struct; none for an array.
pub open spec fn member_items(m: SpecMemory, ty: SpecTypeInfo) -> Seq<SpecCompletionItem> {
    let field = CompletionItemKind::Field;
    if ty.size != 0 {
        Seq::empty()
    } else if type_eq(ty, plain_type("gvec2_type"@)) {
        plain_items(seq!["x"@, "y"@], field)
    } else if type_eq(ty, plain_type("gvec3_type"@)) {
        plain_items(seq!["x"@, "y"@, "z"@], field)
    } else if type_eq(ty, plain_type("gvec4_type"@)) {
        plain_items(seq!["x"@, "y"@, "z"@, "w"@], field)
    } else {
        match lookup(m.structs, ty.base) {
            Some(info) => plain_items(field_names(info.fields), field),
            None => Seq::empty(),
        }
    }
}

/// What is offered behind the dot of a member access on `e`, at a cursor
/// in scope `scope`: the expression is evaluated in that scope, and its
/// members are offered. The evaluation leaves its error on record.
pub open spec fn member_completion(m: SpecMemory, scope: nat, e: SpecExpression) -> (
    SpecMemory,
    Seq<SpecCompletionItem>,
) {
    if !expression_ok(e) {
        (m, Seq::empty())
    } else {
        let placed = m.with_scopes(m.scopes.force(scope));
        match type_of(placed, e) {
            Err(d) => (placed.alert(d), Seq::empty()),
            Ok(result) => (placed, member_items(placed, result.type_info)),
        }
    }
}

/// The names of the entry points of a kind of shader.
pub open spec fn entry_points(shader: ShaderType) -> Seq<Seq<char>> {
    match shader {
        ShaderType::Spatial => seq!["fragment"@, "vertex"@, "light"@],
        ShaderType::CanvasItem => seq!["fragment"@, "vertex"@, "light"@],
        ShaderType::Particles => seq!["start"@, "process"@],
        ShaderType::Fog => seq!["sky"@],
        ShaderType::Sky => seq!["fog"@],
    }
}

/// The suggestions for what the grammar expects at the cursor.
pub open spec fn suggestions(
    m: SpecMemory,
    cursor: Position,
    element: SpecCompletionElement,
    include_files: Seq<Seq<char>>,
) -> Seq<SpecCompletionItem> {
    let scope = m.scopes.scope_of_position(cursor);
    let keyword = CompletionItemKind::Keyword;
    let value = CompletionItemKind::Value;
    match element {
        SpecCompletionElement::TopLevelKeyword => plain_items(
            seq![
                "shader_type"@,
                "render_mode"@,
                "const"@,
                "varying"@,
                "uniform"@,
                "global"@,
                "instance"@,
                "group_uniforms"@,
                "struct"@,
                "void"@,
            ],
            keyword,
        ) + type_items(m, 1) + seq![include_item()],
        SpecCompletionElement::ShaderType => plain_items(
            seq!["spatial"@, "canvas_item"@, "particles"@, "sky"@, "fog"@],
            value,
        ),
        SpecCompletionElement::SwitchCase => plain_items(seq!["case"@, "default"@], value),
        SpecCompletionElement::RenderMode => render_mode_items(m),
        SpecCompletionElement::Uniform => plain_items(seq!["uniform"@], keyword),
        SpecCompletionElement::Hint(ty) => hint_items(m, ty),
        SpecCompletionElement::Interpolation => plain_items(
            seq!["smooth"@, "float"@, "lowp"@, "mediump"@, "highp"@],
            keyword,
        ) + type_items(m, 0) + struct_items(m),
        SpecCompletionElement::Precision => plain_items(
            seq!["lowp"@, "mediump"@, "highp"@],
            keyword,
        ) + type_items(m, 0) + struct_items(m),
        SpecCompletionElement::FunctionQualifier => plain_items(
            seq!["in"@, "out"@, "inout"@],
            keyword,
        ) + type_items(m, 0) + struct_items(m),
        SpecCompletionElement::Statement => plain_items(
            seq![
                "for"@,
                "while"@,
                "if"@,
                "switch"@,
                "continue"@,
                "break"@,
                "return"@,
                "const"@,
                "true"@,
                "false"@,
            ],
            keyword,
        ) + type_items(m, scope) + struct_items(m) + function_items(m, false, true)
            + variable_items(m, scope, false),
        SpecCompletionElement::Type => type_items(m, scope) + struct_items(m),
        SpecCompletionElement::Identifier(is_const) => plain_items(
            seq!["true"@, "false"@],
            keyword,
        ) + function_items(m, is_const, false) + variable_items(m, scope, is_const)
            + struct_items(m),
        SpecCompletionElement::Member(e) => member_completion(m, scope, e).1,
        SpecCompletionElement::FunctionName => plain_items(entry_points(m.shader_type), keyword),
        SpecCompletionElement::Nothing => Seq::empty(),
        SpecCompletionElement::Include => plain_items(seq!["#include"@], keyword),
        SpecCompletionElement::IncludeString => include_files.map_values(
            |path: Seq<char>| file_item(path),
        ),
    }
}

/// The environment after a completion request: only a request for the
/// members of an expression changes it, by evaluating the expression.
pub open spec fn after_completion(
    m: SpecMemory,
    cursor: Position,
    element: SpecCompletionElement,
) -> SpecMemory {
    match element {
        SpecCompletionElement::Member(e) => member_completion(
            m,
            m.scopes.scope_of_position(cursor),
            e,
        ).0,
        _ => m,
    }
}

/// The names of the fields of a struct.
fn names_of_fields(fields: &Vec<StructField>) -> (r: Vec<CompletionItem>)
    ensures
        r.deep_view() == plain_items(field_names(fields.deep_view()), CompletionItemKind::Field),
{
    let mut r: Vec<CompletionItem> = Vec::new();
    let mut i: usize = 0;
    while i < fields.len()
        invariant
            i <= fields.len(),
            r.len() == i,
            forall|j: int|
                0 <= j < i ==> r@[j].deep_view() == plain_item(
                    fields@[j].name@,
                    CompletionItemKind::Field,
                ),
        decreases fields.len() - i,
    {
        r.push(plain(fields[i].name.as_str(), CompletionItemKind::Field));
        i += 1;
    }
    assert(r.deep_view() =~= plain_items(
        field_names(fields.deep_view()),
        CompletionItemKind::Field,
    ));
    r
}

fn members_of(memory: &Memory, ty: &TypeInfo) -> (r: Vec<CompletionItem>)
    ensures
        r.deep_view() == member_items(memory@, ty@),
{
    let field = CompletionItemKind::Field;
    if ty.size != 0 {
        let r: Vec<CompletionItem> = Vec::new();
        assert(r.deep_view() =~= Seq::empty());
        r
    } else if *ty == TypeInfo::from_str("gvec2_type") {
        let labels = vec!["x", "y"];
        assert(labels_view(labels@) =~= seq!["x"@, "y"@]);
        labelled(labels, field)
    } else if *ty == TypeInfo::from_str("gvec3_type") {
        let labels = vec!["x", "y", "z"];
        assert(labels_view(labels@) =~= seq!["x"@, "y"@, "z"@]);
        labelled(labels, field)
    } else if *ty == TypeInfo::from_str("gvec4_type") {
        let labels = vec!["x", "y", "z", "w"];
        assert(labels_view(labels@) =~= seq!["x"@, "y"@, "z"@, "w"@]);
        labelled(labels, field)
    } else {
        match find_entry(&memory.structs, ty.base.as_str()) {
            Some(i) => {
                assert(memory@.structs[i as int].1 == memory.structs@[i as int].1.deep_view());
                names_of_fields(&memory.structs[i].1.fields)
            },
            None => {
                let r: Vec<CompletionItem> = Vec::new();
                assert(r.deep_view() =~= Seq::empty());
                r
            },
        }
    }
}

fn complete_member(memory: &mut Memory, scope: usize, member: &ExpressionNode) -> (r: Vec<
    CompletionItem,
>)
    ensures
        (final(memory)@, r.deep_view()) == member_completion(old(memory)@, scope as nat, member@),
{
    if !is_expression_ok(member) {
        let r: Vec<CompletionItem> = Vec::new();
        assert(r.deep_view() =~= Seq::empty());
        return r;
    }
    memory.scopes.force_scope(scope);
    match evaluate(memory, member) {
        Ok(result) => members_of(memory, &result.type_info),
        Err(_) => {
            let r: Vec<CompletionItem> = Vec::new();
            assert(r.deep_view() =~= Seq::empty());
            r
        },
    }
}

fn list_files(include_files: &Vec<String>) -> (r: Vec<CompletionItem>)
    ensures
        r.deep_view() == include_files.deep_view().map_values(|path: Seq<char>| file_item(path)),
{
    let mut r: Vec<CompletionItem> = Vec::new();
    let mut i: usize = 0;
    while i < include_files.len()
        invariant
            i <= include_files.len(),
            r.len() == i,
            forall|j: int| 0 <= j < i ==> r@[j].deep_view() == file_item(include_files@[j]@),
        decreases include_files.len() - i,
    {
        let path = &include_files[i];
        r.push(
            CompletionItem {
                label: concat3("\"", path.as_str(), "\""),
                kind: Some(CompletionItemKind::Text),
                insert_text: Some(path.clone()),
                insert_text_format: None,
            },
        );
        i += 1;
    }
    assert(r.deep_view() =~= include_files.deep_view().map_values(
        |path: Seq<char>| file_item(path),
    ));
    r
}

fn list_render_modes(memory: &Memory) -> (r: Vec<CompletionItem>)
    ensures
        r.deep_view() == render_mode_items(memory@),
{
    let ghost table = memory@.valid_render_modes;
    let ghost keep = |name: Seq<char>, info: Seq<char>| true;
    let ghost make = |name: Seq<char>, info: Seq<char>| plain_item(name, CompletionItemKind::Value);
    let mut r: Vec<CompletionItem> = Vec::new();
    let mut i: usize = 0;
    assert(r.deep_view() =~= listing(table, 0, keep, make));
    while i < memory.valid_render_modes.len()
        invariant
            i <= memory.valid_render_modes.len(),
            table == memory@.valid_render_modes,
            keep == |name: Seq<char>, info: Seq<char>| true,
            make == |name: Seq<char>, info: Seq<char>| plain_item(name, CompletionItemKind::Value),
            r.deep_view() == listing(table, i as nat, keep, make),
        decreases memory.valid_render_modes.len() - i,
    {
        let ghost before = r.deep_view();
        let entry = &memory.valid_render_modes[i];
        assert(table[i as int] == (entry.0@, entry.1@));
        r.push(plain(entry.0.as_str(), CompletionItemKind::Value));
        assert(r.deep_view() =~= before.push(plain_item(entry.0@, CompletionItemKind::Value)));
        i += 1;
    }
    r
}

fn list_entry_points(shader: ShaderType) -> (r: Vec<CompletionItem>)
    ensures
        r.deep_view() == plain_items(entry_points(shader), CompletionItemKind::Keyword),
{
    let labels = match shader {
        ShaderType::Spatial => vec!["fragment", "vertex", "light"],
        ShaderType::CanvasItem => vec!["fragment", "vertex", "light"],
        ShaderType::Particles => vec!["start", "process"],
        ShaderType::Fog => vec!["sky"],
        ShaderType::Sky => vec!["fog"],
    };
    assert(labels_view(labels@) =~= entry_points(shader));
    labelled(labels, CompletionItemKind::Keyword)
}

/// The suggestions for what the grammar expects at the cursor.
/// `include_files` are the paths that an include directive may name.
pub fn get_completion_items(
    memory: &mut Memory,
    cursor: Position,
    element: &CompletionElement,
    include_files: &Vec<String>,
) -> (r: Vec<CompletionItem>)
    ensures
        r.deep_view() == suggestions(old(memory)@, cursor, element@, include_files.deep_view()),
        final(memory)@ == after_completion(old(memory)@, cursor, element@),
{
    let scope = memory.scopes.find_scope_from_position(cursor);
    let keyword = CompletionItemKind::Keyword;
    let value = CompletionItemKind::Value;
    match element {
        CompletionElement::TopLevelKeyword => {
            let labels = vec![
                "shader_type",
                "render_mode",
                "const",
                "varying",
                "uniform",
                "global",
                "instance",
                "group_uniforms",
                "struct",
                "void",
            ];
            assert(labels_view(labels@) =~= seq![
                "shader_type"@,
                "render_mode"@,
                "const"@,
                "varying"@,
                "uniform"@,
                "global"@,
                "instance"@,
                "group_uniforms"@,
                "struct"@,
                "void"@,
            ]);
            let mut r = labelled(labels, keyword);
            add_all(&mut r, memory.get_builtin_types(1));
            let ghost before = r.deep_view();
            r.push(
                CompletionItem {
                    label: String::from_str("#include"),
                    kind: Some(CompletionItemKind::Value),
                    insert_text: Some(String::from_str("include")),
                    insert_text_format: None,
                },
            );
            assert(r.deep_view() =~= before + seq![include_item()]);
            r
        },
        CompletionElement::ShaderType => {
            let labels = vec!["spatial", "canvas_item", "particles", "sky", "fog"];
            assert(labels_view(labels@) =~= seq![
                "spatial"@,
                "canvas_item"@,
                "particles"@,
                "sky"@,
                "fog"@,
            ]);
            labelled(labels, value)
        },
        CompletionElement::SwitchCase => {
            let labels = vec!["case", "default"];
            assert(labels_view(labels@) =~= seq!["case"@, "default"@]);
            labelled(labels, value)
        },
        CompletionElement::RenderMode => list_render_modes(memory),
        CompletionElement::Uniform => {
            let labels = vec!["uniform"];
            assert(labels_view(labels@) =~= seq!["uniform"@]);
            labelled(labels, keyword)
        },
        CompletionElement::Hint(ty) => memory.get_hints(ty.clone()),
        CompletionElement::Interpolation => {
            let labels = vec!["smooth", "float", "lowp", "mediump", "highp"];
            assert(labels_view(labels@) =~= seq![
                "smooth"@,
                "float"@,
                "lowp"@,
                "mediump"@,
                "highp"@,
            ]);
            let mut r = labelled(labels, keyword);
            add_all(&mut r, memory.get_builtin_types(0));
            add_all(&mut r, memory.get_structs());
            r
        },
        CompletionElement::Precision => {
            let labels = vec!["lowp", "mediump", "highp"];
            assert(labels_view(labels@) =~= seq!["lowp"@, "mediump"@, "highp"@]);
            let mut r = labelled(labels, keyword);
            add_all(&mut r, memory.get_builtin_types(0));
            add_all(&mut r, memory.get_structs());
            r
        },
        CompletionElement::FunctionQualifier => {
            let labels = vec!["in", "out", "inout"];
            assert(labels_view(labels@) =~= seq!["in"@, "out"@, "inout"@]);
            let mut r = labelled(labels, keyword);
            add_all(&mut r, memory.get_builtin_types(0));
            add_all(&mut r, memory.get_structs());
            r
        },
        CompletionElement::Statement => {
            let labels = vec![
                "for",
                "while",
                "if",
                "switch",
                "continue",
                "break",
                "return",
                "const",
                "true",
                "false",
            ];
            assert(labels_view(labels@) =~= seq![
                "for"@,
                "while"@,
                "if"@,
                "switch"@,
                "continue"@,
                "break"@,
                "return"@,
                "const"@,
                "true"@,
                "false"@,
            ]);
            let mut r = labelled(labels, keyword);
            add_all(&mut r, memory.get_builtin_types(scope));
            add_all(&mut r, memory.get_structs());
            add_all(&mut r, memory.list_functions(false, true));
            add_all(&mut r, memory.get_variables(scope, false));
            r
        },
        CompletionElement::Type => {
            let mut r = memory.get_builtin_types(scope);
            add_all(&mut r, memory.get_structs());
            r
        },
        CompletionElement::Identifier(is_const) => {
            let labels = vec!["true", "false"];
            assert(labels_view(labels@) =~= seq!["true"@, "false"@]);
            let mut r = labelled(labels, keyword);
            add_all(&mut r, memory.get_functions(cursor, *is_const));
            add_all(&mut r, memory.get_variables(scope, *is_const));
            add_all(&mut r, memory.get_structs());
            r
        },
        CompletionElement::Member(member) => complete_member(memory, scope, member),
        CompletionElement::FunctionName => list_entry_points(memory.shader_type),
        CompletionElement::Nothing => {
            let r: Vec<CompletionItem> = Vec::new();
            assert(r.deep_view() =~= Seq::empty());
            r
        },
        CompletionElement::Include => {
            let labels = vec!["#include"];
            assert(labels_view(labels@) =~= seq!["#include"@]);
            labelled(labels, keyword)
        },
        CompletionElement::IncludeString => list_files(include_files),
    }
}

/// How the text of a hover is to be read.
#[derive(Clone, Copy, Debug, PartialEq, Eq, Structural)]
pub enum MarkupKind {
    PlainText,
    Markdown,
}

/// What a hover shows.
#[derive(Debug)]
pub struct HoverContents {
    pub kind: MarkupKind,
    pub value: String,
}

/// The mathematical value of [`HoverContents`].
pub struct SpecHoverContents {
    pub kind: MarkupKind,
    pub value: Seq<char>,
}

impl DeepView for HoverContents {
    type V = SpecHoverContents;

    open spec fn deep_view(&self) -> SpecHoverContents {
        SpecHoverContents { kind: self.kind, value: self.value@ }
    }
}

/// The description of a built-in type: its name, then what it is.
pub open spec fn type_hover(name: Seq<char>, info: SpecBuiltinTypeInfo) -> Seq<char> {
    name + "\n\n"@ + info.description
}

/// The description of a variable: its type and name, then what it is.
pub open spec fn variable_hover(name: Seq<char>, info: SpecValueInfo) -> Seq<char> {
    type_text(info.ty) + " "@ + name + match info.description {
        Some(d) => "\n\n"@ + d,
        None => Seq::empty(),
    }
}

/// One field as a line of a struct.
pub open spec fn field_line(field: SpecStructField) -> Seq<char> {
    "  "@ + type_text(field.ty) + " "@ + field.name + ";"@
}

/// The description of a struct: its declaration.
pub open spec fn struct_hover(name: Seq<char>, info: SpecStructInfo) -> Seq<char> {
    let lines = info.fields.map_values(|f: SpecStructField| field_line(f));
    "struct "@ + name + " {\n"@ + joined(lines, "\n"@, lines.len()) + "\n}"@
}

/// How a qualifier is written before a parameter.
pub open spec fn qualifier_text(qualifier: Option<FunctionParamQualifier>) -> Seq<char> {
    match qualifier {
        Some(FunctionParamQualifier::In) => "in "@,
        Some(FunctionParamQualifier::Out) => "out "@,
        Some(FunctionParamQualifier::InOut) => "inout "@,
        None => ""@,
    }
}

/// One parameter as it is written in a signature.
pub open spec fn param_text(param: SpecFunctionParam) -> Seq<char> {
    qualifier_text(param.qualifier) + type_text(param.ty) + " "@ + param.name
}

/// One signature as a line.
pub open spec fn signature_line(name: Seq<char>, signature: SpecFunctionSignature) -> Seq<char> {
    let params = signature.params.map_values(|p: SpecFunctionParam| param_text(p));
    type_text(signature.return_type) + " "@ + name + " ("@ + joined(params, ", "@, params.len())
        + ")"@
}

/// The description of a function: all its signatures, then what it does.
pub open spec fn function_hover(name: Seq<char>, info: SpecFunctionInfo) -> Seq<char> {
    let lines = info.signatures.map_values(|s: SpecFunctionSignature| signature_line(name, s));
    joined(lines, "\n"@, lines.len()) + "\n\n"@ + match info.description {
        Some(d) => d,
        None => Seq::empty(),
    }
}

/// The description of a hint: the types it accepts, its name, and what it
/// does.
pub open spec fn hint_hover(name: Seq<char>, info: SpecHintInfo) -> Seq<char> {
    let types = info.type_info.map_values(|t: SpecTypeInfo| type_text(t));
    "("@ + joined(types, ","@, types.len()) + ") "@ + name + (if takes_arguments(info) {
        "(...)"@
    } else {
        ""@
    }) + "\n\n"@ + info.description
}

/// What a hover over the name `text` shows, at a cursor in the scope of
/// `cursor`: the name is looked up as a built-in type, a visible variable,
/// a struct, a function and a hint, in that order, and the first that is
/// found is described.
pub open spec fn hover(m: SpecMemory, cursor: Position, text: Seq<char>) -> Option<
    SpecHoverContents,
> {
    let scope = m.scopes.scope_of_position(cursor);
    if lookup(m.builtin_types, text) is Some {
        Some(
            SpecHoverContents {
                kind: MarkupKind::PlainText,
                value: type_hover(text, lookup(m.builtin_types, text)->0),
            },
        )
    } else if find_visible(m.scopes.visible_from(scope), text, 0) is Some {
        Some(
            SpecHoverContents {
                kind: MarkupKind::Markdown,
                value: variable_hover(
                    text,
                    find_visible(m.scopes.visible_from(scope), text, 0)->0,
                ),
            },
        )
    } else if lookup(m.structs, text) is Some {
        Some(
            SpecHoverContents {
                kind: MarkupKind::Markdown,
                value: struct_hover(text, lookup(m.structs, text)->0),
            },
        )
    } else if lookup(m.functions, text) is Some {
        Some(
            SpecHoverContents {
                kind: MarkupKind::Markdown,
                value: function_hover(text, lookup(m.functions, text)->0),
            },
        )
    } else if lookup(m.hints, text) is Some {
        Some(
            SpecHoverContents {
                kind: MarkupKind::Markdown,
                value: hint_hover(text, lookup(m.hints, text)->0),
            },
        )
    } else {
        None
    }
}

fn describe_variable(name: &str, info: &ValueInfo) -> (r: String)
    ensures
        r@ == variable_hover(name@, info.deep_view()),
{
    let mut r = concat3(info.ty.to_string().as_str(), " ", name);
    let ghost head = r@;
    match &info.description {
        Some(d) => {
            r.append("\n\n");
            r.append(d.as_str());
            assert(r@ =~= head + ("\n\n"@ + d@));
        },
        None => {
            assert(r@ =~= head + Seq::<char>::empty());
        },
    }
    r
}

fn describe_struct(name: &str, info: &StructInfo) -> (r: String)
    ensures
        r@ == struct_hover(name@, info.deep_view()),
{
    let mut lines: Vec<String> = Vec::new();
    let mut i: usize = 0;
    while i < info.fields.len()
        invariant
            i <= info.fields.len(),
            lines.len() == i,
            forall|j: int| 0 <= j < i ==> lines@[j]@ == field_line(info.fields@[j].deep_view()),
        decreases info.fields.len() - i,
    {
        let field = &info.fields[i];
        lines.push(concat5("  ", field.ty.to_string().as_str(), " ", field.name.as_str(), ";"));
        i += 1;
    }
    assert(lines.deep_view() =~= info.deep_view().fields.map_values(
        |f: SpecStructField| field_line(f),
    ));
    concat5("struct ", name, " {\n", join(&lines, "\n").as_str(), "\n}")
}

fn write_qualifier(qualifier: Option<FunctionParamQualifier>) -> (r: &'static str)
    ensures
        r@ == qualifier_text(qualifier),
{
    match qualifier {
        Some(FunctionParamQualifier::In) => "in ",
        Some(FunctionParamQualifier::Out) => "out ",
        Some(FunctionParamQualifier::InOut) => "inout ",
        None => "",
    }
}

fn write_signature(name: &str, signature: &crate::memory::functions::FunctionSignature) -> (r:
    String)
    ensures
        r@ == signature_line(name@, signature.deep_view()),
{
    let mut params: Vec<String> = Vec::new();
    let mut i: usize = 0;
    while i < signature.params.len()
        invariant
            i <= signature.params.len(),
            params.len() == i,
            forall|j: int|
                0 <= j < i ==> params@[j]@ == param_text(signature.params@[j].deep_view()),
        decreases signature.params.len() - i,
    {
        let param = &signature.params[i];
        params.push(
            concat4(
                write_qualifier(param.qualifier),
                param.ty.to_string().as_str(),
                " ",
                param.name.as_str(),
            ),
        );
        i += 1;
    }
    assert(params.deep_view() =~= signature.deep_view().params.map_values(
        |p: SpecFunctionParam| param_text(p),
    ));
    let mut r = concat4(
        signature.return_type.to_string().as_str(),
        " ",
        name,
        " (",
    );
    r.append(join(&params, ", ").as_str());
    r.append(")");
    r
}

fn describe_function(name: &str, info: &FunctionInfo) -> (r: String)
    ensures
        r@ == function_hover(name@, info.deep_view()),
{
    let mut lines: Vec<String> = Vec::new();
    let mut i: usize = 0;
    while i < info.signatures.len()
        invariant
            i <= info.signatures.len(),
            lines.len() == i,
            forall|j: int|
                0 <= j < i ==> lines@[j]@ == signature_line(
                    name@,
                    info.signatures@[j].deep_view(),
                ),
        decreases info.signatures.len() - i,
    {
        lines.push(write_signature(name, &info.signatures[i]));
        i += 1;
    }
    assert(lines.deep_view() =~= info.deep_view().signatures.map_values(
        |s: SpecFunctionSignature| signature_line(name@, s),
    ));
    let mut r = join(&lines, "\n");
    r.append("\n\n");
    let ghost head = r@;
    match &info.description {
        Some(d) => {
            r.append(d.as_str());
        },
        None => {
            assert(r@ =~= head + Seq::<char>::empty());
        },
    }
    r
}

fn describe_hint(name: &str, info: &HintInfo) -> (r: String)
    ensures
        r@ == hint_hover(name@, info.deep_view()),
{
    let mut types: Vec<String> = Vec::new();
    let mut i: usize = 0;
    while i < info.type_info.len()
        invariant
            i <= info.type_info.len(),
            types.len() == i,
            forall|j: int| 0 <= j < i ==> types@[j]@ == type_text(info.type_info@[j]@),
        decreases info.type_info.len() - i,
    {
        types.push(info.type_info[i].to_string());
        i += 1;
    }
    assert(types.deep_view() =~= info.deep_view().type_info.map_values(
        |t: SpecTypeInfo| type_text(t),
    ));
    let args = if counts_above_zero(&info.num_arguments) {
        "(...)"
    } else {
        ""
    };
    let mut r = concat5("(", join(&types, ",").as_str(), ") ", name, args);
    r.append("\n\n");
    r.append(info.description.as_str());
    r
}

/// The description of a visible variable called `text`, if there is one.
fn hover_variable(memory: &Memory, scope: usize, text: &str) -> (r: Option<String>)
    ensures
        match find_visible(memory@.scopes.visible_from(scope as nat), text@, 0) {
            Some(info) => r is Some && r->0@ == variable_hover(text@, info),
            None => r is None,
        },
{
    let tables = memory.scopes.collect_scopes_from(scope);
    match find_in_tables(&tables, text) {
        Some(info) => Some(describe_variable(text, info)),
        None => None,
    }
}

/// What a hover over the name `text` shows.
pub fn get_hover_description(memory: &mut Memory, cursor: Position, text: &String) -> (r: Option<
    HoverContents,
>)
    ensures
        r.deep_view() == hover(old(memory)@, cursor, text@),
        final(memory)@ == old(memory)@,
{
    let scope = memory.scopes.find_scope_from_position(cursor);
    let name = text.as_str();
    if let Some(i) = find_entry(&memory.builtin_types, name) {
        assert(memory@.builtin_types[i as int].1 == memory.builtin_types@[i as int].1.deep_view());
        let info = &memory.builtin_types[i].1;
        return Some(
            HoverContents {
                kind: MarkupKind::PlainText,
                value: concat3(name, "\n\n", info.description.as_str()),
            },
        );
    }
    if let Some(value) = hover_variable(memory, scope, name) {
        return Some(HoverContents { kind: MarkupKind::Markdown, value });
    }
    if let Some(i) = find_entry(&memory.structs, name) {
        assert(memory@.structs[i as int].1 == memory.structs@[i as int].1.deep_view());
        let value = describe_struct(name, &memory.structs[i].1);
        return Some(HoverContents { kind: MarkupKind::Markdown, value });
    }
    if let Some(i) = find_entry(&memory.functions, name) {
        assert(memory@.functions[i as int].1 == memory.functions@[i as int].1.deep_view());
        let value = describe_function(name, &memory.functions[i].1);
        return Some(HoverContents { kind: MarkupKind::Markdown, value });
    }
    if let Some(i) = find_entry(&memory.hints, name) {
        assert(memory@.hints[i as int].1 == memory.hints@[i as int].1.deep_view());
        let value = describe_hint(name, &memory.hints[i].1);
        return Some(HoverContents { kind: MarkupKind::Markdown, value });
    }
    None
}

/// Whether `pattern` stands in `text` at offset `at`.
pub open spec fn stands_at(text: Seq<char>, at: int, pattern: Seq<char>) -> bool {
    0 <= at && at + pattern.len() <= text.len() && text.subrange(at, at + pattern.len())
        == pattern
}

/// The text from offset `from` on, with every occurrence of `pattern`
/// replaced by `with`, read from left to right. An empty pattern occurs
/// nowhere.
pub open spec fn replaced(text: Seq<char>, pattern: Seq<char>, with: Seq<char>, from: int) -> Seq<
    char,
>
    decreases text.len() - from,
{
    if from < 0 || from >= text.len() {
        Seq::empty()
    } else if pattern.len() > 0 && stands_at(text, from, pattern) {
        with + replaced(text, pattern, with, from + pattern.len())
    } else {
        seq![text[from]] + replaced(text, pattern, with, from + 1)
    }
}

/// Whether a path names a file of shader code to be included: a name, and
/// the extension `gdshaderinc`.
pub open spec fn is_shader_file(path: Seq<char>) -> bool {
    let extension = ".gdshaderinc"@;
    path.len() > extension.len() && stands_at(path, path.len() - extension.len(), extension)
        && path[path.len() - extension.len() - 1] != '/'
}

/// How an include directive names the file at `path`: with the root of the
/// project written as `res://`; `None` for what is no shader file.
pub open spec fn project_path(path: Seq<char>, root: Seq<char>) -> Option<Seq<char>> {
    if is_shader_file(path) {
        Some(replaced(path, root, "res://"@, 0))
    } else {
        None
    }
}

fn found_at(text: &Vec<char>, at: usize, pattern: &Vec<char>) -> (r: bool)
    ensures
        r == stands_at(text@, at as int, pattern@),
{
    if at > text.len() || pattern.len() > text.len() - at {
        return false;
    }
    let mut i: usize = 0;
    while i < pattern.len()
        invariant
            i <= pattern.len(),
            at + pattern.len() <= text.len(),
            text@.subrange(at as int, at + i) == pattern@.subrange(0, i as int),
        decreases pattern.len() - i,
    {
        if text[at + i] != pattern[i] {
            assert(text@.subrange(at as int, at + pattern.len())[i as int] != pattern@[i as int]);
            return false;
        }
        i += 1;
        assert(text@.subrange(at as int, at + i) =~= text@.subrange(at as int, at + i - 1).push(
            text@[at + i - 1],
        ));
        assert(pattern@.subrange(0, i as int) =~= pattern@.subrange(0, i - 1).push(
            pattern@[i - 1],
        ));
    }
    assert(pattern@.subrange(0, pattern@.len() as int) =~= pattern@);
    true
}

/// How an include directive names the file at `path`, below the root
/// directory `root` of the project.
pub fn shader_file_path(path: &str, root: &str) -> (r: Option<String>)
    ensures
        r.deep_view() == project_path(path@, root@),
{
    let text = to_chars(path);
    let pattern = to_chars(root);
    let extension = to_chars(".gdshaderinc");
    let with = to_chars("res://");
    if text.len() <= extension.len() {
        return None;
    }
    let name_end = text.len() - extension.len();
    if !found_at(&text, name_end, &extension) || text[name_end - 1] == '/' {
        return None;
    }
    let mut out: Vec<char> = Vec::new();
    let mut i: usize = 0;
    assert(out@ + replaced(text@, pattern@, with@, 0) =~= replaced(text@, pattern@, with@, 0));
    while i < text.len()
        invariant
            i <= text.len(),
            out@ + replaced(text@, pattern@, with@, i as int) == replaced(
                text@,
                pattern@,
                with@,
                0,
            ),
        decreases text.len() - i,
    {
        let ghost before = out@;
        if pattern.len() > 0 && found_at(&text, i, &pattern) {
            let mut j: usize = 0;
            while j < with.len()
                invariant
                    j <= with.len(),
                    out@ == before + with@.subrange(0, j as int),
                decreases with.len() - j,
            {
                out.push(with[j]);
                j += 1;
                assert(out@ =~= before + with@.subrange(0, j as int));
            }
            assert(with@.subrange(0, with@.len() as int) =~= with@);
            assert(out@ + replaced(text@, pattern@, with@, i + pattern.len()) =~= before + (with@
                + replaced(text@, pattern@, with@, i + pattern.len())));
            i = i + pattern.len();
        } else {
            out.push(text[i]);
            assert(out@ + replaced(text@, pattern@, with@, i + 1) =~= before + (seq![text@[i as int]]
                + replaced(text@, pattern@, with@, i + 1)));
            i += 1;
        }
    }
    assert(out@ =~= replaced(text@, pattern@, with@, 0));
    assert(out@.subrange(0, out@.len() as int) =~= out@);
    Some(string_from_chars(&out, 0, out.len()))
}

/// Queries are answered from the analysed environment alone: two
/// environments with the same text, root directory and tables of the
/// language, each analysed any number of times, offer the same
/// suggestions and show the same on hover.
pub proof fn lemma_same_text_same_answers(
    a: SpecMemory,
    b: SpecMemory,
    parsed_at: Option<Position>,
    cursor: Position,
    element: SpecCompletionElement,
    include_files: Seq<Seq<char>>,
    text: Seq<char>,
)
    requires
        a.same_basis(b),
    ensures
        suggestions(a.analysed(parsed_at), cursor, element, include_files) == suggestions(
            b.analysed(parsed_at).analysed(parsed_at),
            cursor,
            element,
            include_files,
        ),
        hover(a.analysed(parsed_at), cursor, text) == hover(
            b.analysed(parsed_at).analysed(parsed_at),
            cursor,
            text,
        ),
{
    lemma_analysis_starts_from_scratch(a, b, parsed_at);
    lemma_analysis_is_idempotent(b, parsed_at);
}

} // verus!

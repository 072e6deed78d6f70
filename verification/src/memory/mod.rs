//! The semantic environment: types, scopes, and the tables of functions,
//! structs, hints and built-in names that evaluation consults.

use vstd::prelude::*;
use vstd::string::*;
use crate::interpreter::EvaluateError;
use crate::lexer::token::Token;
use crate::memory::builtins::{copy_functions, copy_hints, copy_values};
use crate::memory::table::{find_entry, has_name, lookup, SpecTable};
use crate::memory::types::make_builtin_types;
use crate::position::Range;
use crate::interpreter::top_level_interpreter::{
    after_top_levels, evaluate_all, lemma_top_levels_grow, lemma_top_levels_keep_basis,
};
use crate::lexer::token_stream::{fresh_stream, TokenStream, MAX_NESTING};
use crate::nodes::top_level_nodes::{top_levels_view, SpecTopLevel, TopLevelNode};
use crate::position::Position;
use crate::source_code::{
    copy_diagnostics, diagnostics_view, error_at, text_after_change, text_in_range, Diagnostic,
    SourceDocument, SpecDiagnostic, SpecSourceDocument, TextChange,
};

pub mod builtins;
pub mod functions;
pub mod hint;
pub mod render_modes;
pub mod scope;
pub mod table;
pub mod types;
pub mod variables;

pub use builtins::{Builtins, SpecBuiltins};
pub use functions::{
    FunctionInfo, FunctionParam, FunctionParamQualifier, FunctionSignature, SpecFunctionInfo,
    SpecFunctionParam, SpecFunctionSignature,
};
pub use hint::{HintInfo, SpecHintInfo};
pub use scope::{
    FunctionReturn, Scope, ScopeList, ScopeType, SpecFunctionReturn, SpecScope, SpecScopeList,
    SpecScopeType,
};
pub use types::{
    BuiltinTypeInfo, GenericSize, Primitive, SpecBuiltinTypeInfo, SpecTypeInfo, TypeInfo,
};

verus! {

/// What is known of a variable, constant, uniform, varying or parameter.
#[derive(Debug)]
pub struct ValueInfo {
    pub ty: TypeInfo,
    pub editable: bool,
    pub is_const: bool,
    pub range: Option<Range>,
    pub description: Option<String>,
}

/// The mathematical value of a [`ValueInfo`].
pub struct SpecValueInfo {
    pub ty: SpecTypeInfo,
    pub editable: bool,
    pub is_const: bool,
    pub range: Option<Range>,
    pub description: Option<Seq<char>>,
}

impl DeepView for ValueInfo {
    type V = SpecValueInfo;

    open spec fn deep_view(&self) -> SpecValueInfo {
        SpecValueInfo {
            ty: self.ty@,
            editable: self.editable,
            is_const: self.is_const,
            range: self.range,
            description: self.description.deep_view(),
        }
    }
}

impl Clone for ValueInfo {
    fn clone(&self) -> (r: Self)
        ensures
            r == *self,
    {
        ValueInfo {
            ty: self.ty.clone(),
            editable: self.editable,
            is_const: self.is_const,
            range: self.range,
            description: match &self.description {
                Some(d) => Some(d.clone()),
                None => None,
            },
        }
    }
}

/// One field of a struct.
#[derive(Debug)]
pub struct StructField {
    pub name: String,
    pub ty: TypeInfo,
    pub range: Range,
}

/// The mathematical value of a [`StructField`].
pub struct SpecStructField {
    pub name: Seq<char>,
    pub ty: SpecTypeInfo,
    pub range: Range,
}

impl DeepView for StructField {
    type V = SpecStructField;

    open spec fn deep_view(&self) -> SpecStructField {
        SpecStructField { name: self.name@, ty: self.ty@, range: self.range }
    }
}

/// A struct: its fields in declaration order.
#[derive(Debug)]
pub struct StructInfo {
    pub fields: Vec<StructField>,
    pub range: Range,
}

/// The mathematical value of a [`StructInfo`].
pub struct SpecStructInfo {
    pub fields: Seq<SpecStructField>,
    pub range: Range,
}

impl DeepView for StructInfo {
    type V = SpecStructInfo;

    open spec fn deep_view(&self) -> SpecStructInfo {
        SpecStructInfo { fields: self.fields.deep_view(), range: self.range }
    }
}

/// The kind of shader that a document declares.
#[derive(Clone, Copy, Debug, PartialEq, Eq, Structural)]
pub enum ShaderType {
    Spatial,
    CanvasItem,
    Particles,
    Fog,
    Sky,
}

/// The value that `name` is bound to in the first table that binds it.
pub open spec fn find_visible<M>(tables: Seq<SpecTable<M>>, name: Seq<char>, from: int) -> Option<M>
    decreases tables.len() - from,
{
    if from < 0 || from >= tables.len() {
        None
    } else if has_name(tables[from], name) {
        lookup(tables[from], name)
    } else {
        find_visible(tables, name, from + 1)
    }
}

/// The semantic environment of one document.
pub struct Memory {
    pub root_dir: Option<String>,
    pub shader_type: ShaderType,
    pub valid_render_modes: Vec<(String, String)>,
    pub builtin_types: Vec<(String, BuiltinTypeInfo)>,
    pub functions: Vec<(String, FunctionInfo)>,
    pub hints: Vec<(String, HintInfo)>,
    pub structs: Vec<(String, StructInfo)>,
    pub scopes: ScopeList,
    pub builtins: Builtins,
    pub source: SourceDocument,
}

/// The mathematical value of a [`Memory`].
pub struct SpecMemory {
    pub root_dir: Option<Seq<char>>,
    pub shader_type: ShaderType,
    pub valid_render_modes: SpecTable<Seq<char>>,
    pub builtin_types: SpecTable<SpecBuiltinTypeInfo>,
    pub functions: SpecTable<SpecFunctionInfo>,
    pub hints: SpecTable<SpecHintInfo>,
    pub structs: SpecTable<SpecStructInfo>,
    pub scopes: SpecScopeList,
    pub builtins: SpecBuiltins,
    pub source: SpecSourceDocument,
}

impl SpecMemory {
    /// The environment with one more error on record.
    pub open spec fn alert(self, diagnostic: SpecDiagnostic) -> SpecMemory {
        SpecMemory {
            source: SpecSourceDocument {
                code: self.source.code,
                diagnostics: self.source.diagnostics.push(diagnostic),
            },
            ..self
        }
    }

    /// The environment with other scopes.
    pub open spec fn with_scopes(self, scopes: SpecScopeList) -> SpecMemory {
        SpecMemory { scopes, ..self }
    }

    /// The source text of a token.
    pub open spec fn token_text(self, token: Token) -> Seq<char> {
        text_in_range(self.source.code, token.range)
    }

    /// The environment before a document is evaluated. Only the text, the
    /// root directory and the tables of the language are kept: nothing is
    /// on record, no struct is known, the shader is a spatial one without
    /// render modes, and there is the root scope alone. Where the
    /// environment has a root directory, the built-in names, functions and
    /// hints are known.
    pub open spec fn reset(self) -> SpecMemory {
        SpecMemory {
            root_dir: self.root_dir,
            shader_type: ShaderType::Spatial,
            valid_render_modes: Seq::empty(),
            builtin_types: self.builtin_types,
            functions: if self.root_dir is Some {
                self.builtins.functions
            } else {
                Seq::empty()
            },
            hints: if self.root_dir is Some {
                self.builtins.hints
            } else {
                Seq::empty()
            },
            structs: Seq::empty(),
            scopes: if self.root_dir is Some {
                scope::root_only().extend(self.builtins.globals)
            } else {
                scope::root_only()
            },
            builtins: self.builtins,
            source: SpecSourceDocument { code: self.source.code, diagnostics: Seq::empty() },
        }
    }

    /// Whether two environments have the same text, the same root
    /// directory and the same tables of the language.
    pub open spec fn same_basis(self, other: SpecMemory) -> bool {
        &&& self.source.code == other.source.code
        &&& self.root_dir == other.root_dir
        &&& self.builtin_types == other.builtin_types
        &&& self.builtins == other.builtins
    }

    /// The environment with more diagnostics on record.
    pub open spec fn with_diagnostics(self, more: Seq<SpecDiagnostic>) -> SpecMemory {
        SpecMemory {
            source: SpecSourceDocument {
                code: self.source.code,
                diagnostics: self.source.diagnostics + more,
            },
            ..self
        }
    }

    /// The environment after the document has been read and evaluated
    /// from scratch: the findings of the parser go on record first, then
    /// those of the evaluation, and nothing else is on record.
    pub open spec fn analysed(self, cursor: Option<Position>) -> SpecMemory {
        let (stream, nodes) = crate::p_tokens(
            fresh_stream(self.source.code, cursor),
            MAX_NESTING as nat,
            Seq::empty(),
        );
        after_top_levels(self.reset().with_diagnostics(stream.source.diagnostics), nodes)
    }

    /// Whether `id` already names a built-in type, a function, a struct or
    /// anything visible from the current scope.
    pub open spec fn id_in_use(self, id: Seq<char>) -> bool {
        has_name(self.builtin_types, id) || has_name(self.functions, id) || has_name(
            self.structs,
            id,
        ) || find_visible(self.scopes.visible(), id, 0) is Some
    }

    /// Whether `id` names a built-in type or a struct.
    pub open spec fn id_valid_type(self, id: Seq<char>) -> bool {
        has_name(self.builtin_types, id) || has_name(self.structs, id)
    }
}

impl View for Memory {
    type V = SpecMemory;

    open spec fn view(&self) -> SpecMemory {
        SpecMemory {
            root_dir: self.root_dir.deep_view(),
            shader_type: self.shader_type,
            valid_render_modes: self.valid_render_modes.deep_view(),
            builtin_types: self.builtin_types.deep_view(),
            functions: self.functions.deep_view(),
            hints: self.hints.deep_view(),
            structs: self.structs.deep_view(),
            scopes: self.scopes@,
            builtins: self.builtins.deep_view(),
            source: self.source@,
        }
    }
}

/// The binding of `name` in the first of `tables` that has one.
pub fn find_in_tables<'a>(tables: &Vec<&'a Vec<(String, ValueInfo)>>, name: &str) -> (r: Option<
    &'a ValueInfo,
>)
    ensures
        r.deep_view() == find_visible(tables.deep_view(), name@, 0),
{
    let mut i: usize = 0;
    while i < tables.len()
        invariant
            i <= tables.len(),
            find_visible(tables.deep_view(), name@, 0) == find_visible(
                tables.deep_view(),
                name@,
                i as int,
            ),
        decreases tables.len() - i,
    {
        let table: &'a Vec<(String, ValueInfo)> = tables[i];
        assert(tables.deep_view()[i as int] == table.deep_view());
        match find_entry(table, name) {
            Some(j) => {
                assert(table.deep_view()[j as int].1 == table@[j as int].1.deep_view());
                return Some(&table[j].1);
            },
            None => {},
        }
        i += 1;
    }
    None
}

impl Memory {
    /// The environment of a document before anything is evaluated. With a root
    /// directory, the built-in names, functions and hints are known.
    pub fn new(source_str: &str, root_dir: Option<String>) -> (r: Self)
        ensures
            r@.source.code == source_str@,
            r@.source.diagnostics == Seq::<SpecDiagnostic>::empty(),
            r@.root_dir == root_dir.deep_view(),
            r@.shader_type == ShaderType::Spatial,
            r@.valid_render_modes == Seq::<(Seq<char>, Seq<char>)>::empty(),
            r@.structs == Seq::<(Seq<char>, SpecStructInfo)>::empty(),
            r@.builtin_types == types::builtin_type_table(),
            r@.builtins == builtins::standard_builtins(),
            r@.functions == if root_dir is Some {
                r@.builtins.functions
            } else {
                Seq::empty()
            },
            r@.hints == if root_dir is Some {
                r@.builtins.hints
            } else {
                Seq::empty()
            },
            r@.scopes == if root_dir is Some {
                scope::root_only().extend(r@.builtins.globals)
            } else {
                scope::root_only()
            },
    {
        let source = SourceDocument::new(source_str);
        let builtins = Builtins::standard();
        let mut scopes = ScopeList::new();
        if root_dir.is_some() {
            scopes.extend(copy_values(&builtins.globals));
        }
        let functions = if root_dir.is_some() {
            copy_functions(&builtins.functions)
        } else {
            Vec::new()
        };
        let hints = if root_dir.is_some() {
            copy_hints(&builtins.hints)
        } else {
            Vec::new()
        };
        let r = Memory {
            root_dir,
            shader_type: ShaderType::Spatial,
            valid_render_modes: Vec::new(),
            builtin_types: make_builtin_types(),
            functions,
            hints,
            structs: Vec::new(),
            scopes,
            builtins,
            source,
        };
        assert(r@.valid_render_modes =~= Seq::empty());
        assert(r@.structs =~= Seq::empty());
        assert(root_dir is None ==> r@.functions =~= Seq::empty());
        assert(root_dir is None ==> r@.hints =~= Seq::empty());
        r
    }

    /// Puts the environment back to where it stands before a document is
    /// evaluated.
    fn start_over(&mut self)
        ensures
            final(self)@ == old(self)@.reset(),
    {
        let mut scopes = ScopeList::new();
        if self.root_dir.is_some() {
            scopes.extend(copy_values(&self.builtins.globals));
        }
        let functions = if self.root_dir.is_some() {
            copy_functions(&self.builtins.functions)
        } else {
            Vec::new()
        };
        let hints = if self.root_dir.is_some() {
            copy_hints(&self.builtins.hints)
        } else {
            Vec::new()
        };
        self.shader_type = ShaderType::Spatial;
        self.valid_render_modes = Vec::new();
        self.functions = functions;
        self.hints = hints;
        self.structs = Vec::new();
        self.scopes = scopes;
        self.source.force_change_diagnostics(Vec::new());
        assert(self@.valid_render_modes =~= Seq::empty());
        assert(self@.structs =~= Seq::empty());
        assert(self.root_dir is None ==> self@.functions =~= Seq::empty());
        assert(self.root_dir is None ==> self@.hints =~= Seq::empty());
        assert(self@.source.diagnostics =~= Seq::empty());
    }

    /// Evaluates the declarations of a document from scratch: what the
    /// environment held of an earlier evaluation has no part in the
    /// outcome, and what is handed back are the findings of this
    /// evaluation alone. Evaluating the same declarations once more changes
    /// nothing.
    pub fn evaluate(&mut self, top_levels: Vec<TopLevelNode>) -> (r: &Vec<Diagnostic>)
        requires
            crate::all_ok(top_levels@),
        ensures
            final(self)@ == after_top_levels(old(self)@.reset(), top_levels_view(top_levels@)),
            after_top_levels(final(self)@.reset(), top_levels_view(top_levels@)) == final(self)@,
            diagnostics_view(r@) == final(self)@.source.diagnostics,
    {
        proof {
            lemma_evaluation_is_idempotent(self@, top_levels_view(top_levels@));
        }
        self.start_over();
        evaluate_all(self, top_levels);
        self.source.get_diagnostics()
    }

    /// Reads the document and evaluates it from scratch. Doing so once more
    /// changes nothing.
    pub fn evaluate_new(&mut self, cursor: Option<Position>) -> (r: &Vec<Diagnostic>)
        ensures
            final(self)@ == old(self)@.analysed(cursor),
            final(self)@.analysed(cursor) == final(self)@,
            diagnostics_view(r@) == final(self)@.source.diagnostics,
    {
        proof {
            lemma_analysis_is_idempotent(self@, cursor);
        }
        let mut stream = TokenStream::new(self.source.get_code().as_str(), cursor);
        let tree = crate::parse_tokens(&mut stream);
        let diagnostics = copy_diagnostics(stream.get_source().get_diagnostics());
        self.start_over();
        self.source.add_diagnostics(diagnostics);
        evaluate_all(self, tree);
        self.source.get_diagnostics()
    }

    /// Whether `id` already names something.
    pub fn is_id_in_use(&self, id: &str) -> (r: bool)
        ensures
            r == self@.id_in_use(id@),
    {
        if find_entry(&self.builtin_types, id).is_some() {
            return true;
        }
        if find_entry(&self.functions, id).is_some() {
            return true;
        }
        if find_entry(&self.structs, id).is_some() {
            return true;
        }
        let tables = self.scopes.collect_scopes();
        find_in_tables(&tables, id).is_some()
    }

    /// Whether `id` names a type.
    pub fn is_id_valid_type(&self, id: &str) -> (r: bool)
        ensures
            r == self@.id_valid_type(id@),
    {
        find_entry(&self.builtin_types, id).is_some() || find_entry(&self.structs, id).is_some()
    }

    /// The source text of a token.
    pub fn get_token_text(&self, token: Token) -> (r: String)
        ensures
            r@ == self@.token_text(token),
    {
        self.source.text_at(token.range)
    }

    /// The document with what is on record so far.
    pub fn get_source(&self) -> (r: &SourceDocument)
        ensures
            r@ == self@.source,
    {
        &self.source
    }

    /// Records an error at `range`.
    pub fn alert_error(&mut self, msg: &str, range: Range) -> (r: EvaluateError)
        ensures
            r == EvaluateError::SemanticsError,
            final(self)@ == old(self)@.alert(error_at(range, msg@)),
    {
        self.source.push_error(msg, range, EvaluateError::SemanticsError)
    }

    /// Applies an edit to the text of the document.
    pub fn apply_change(&mut self, change: TextChange)
        ensures
            final(self)@ == (SpecMemory {
                source: SpecSourceDocument {
                    code: text_after_change(old(self)@.source.code, change.range, change.text@),
                    diagnostics: old(self)@.source.diagnostics,
                },
                ..old(self)@
            }),
    {
        self.source.apply_change(change);
    }
}

/// Analysing a document starts from scratch: of the environment only the
/// text, the root directory and the tables of the language have a part in
/// the outcome. Two environments that agree on these come out of the
/// analysis as one and the same.
pub proof fn lemma_analysis_starts_from_scratch(
    a: SpecMemory,
    b: SpecMemory,
    cursor: Option<Position>,
)
    requires
        a.same_basis(b),
    ensures
        a.analysed(cursor) == b.analysed(cursor),
{
    assert(a.reset() == b.reset());
}

/// Analysing a document twice gives what analysing it once gives: the
/// same findings, the same names, the same scopes.
pub proof fn lemma_analysis_is_idempotent(m: SpecMemory, cursor: Option<Position>)
    ensures
        m.analysed(cursor).analysed(cursor) == m.analysed(cursor),
        m.same_basis(m.analysed(cursor)),
{
    let (stream, nodes) = crate::p_tokens(
        fresh_stream(m.source.code, cursor),
        MAX_NESTING as nat,
        Seq::empty(),
    );
    lemma_top_levels_keep_basis(m.reset().with_diagnostics(stream.source.diagnostics), nodes);
    lemma_analysis_starts_from_scratch(m.analysed(cursor), m, cursor);
}

/// Evaluating the same declarations twice from scratch gives what
/// evaluating them once gives.
pub proof fn lemma_evaluation_is_idempotent(m: SpecMemory, nodes: Seq<SpecTopLevel>)
    ensures
        after_top_levels(after_top_levels(m.reset(), nodes).reset(), nodes) == after_top_levels(
            m.reset(),
            nodes,
        ),
{
    lemma_top_levels_keep_basis(m.reset(), nodes);
    assert(after_top_levels(m.reset(), nodes).reset() == m.reset());
}

/// Analysing a document ends where it starts, at the root scope, with a
/// well-formed arena of scopes.
pub proof fn lemma_analysis_ends_at_the_root(m: SpecMemory, cursor: Option<Position>)
    ensures
        m.analysed(cursor).scopes.well_formed(),
        m.analysed(cursor).scopes.current == 0,
{
    let (stream, nodes) = crate::p_tokens(
        fresh_stream(m.source.code, cursor),
        MAX_NESTING as nat,
        Seq::empty(),
    );
    lemma_top_levels_grow(m.reset().with_diagnostics(stream.source.diagnostics), nodes);
}

} // verus!

//! Lexical scopes, kept in an arena that only grows: every scope names its
//! parent by index, scope 0 is the root, and a cursor names the current one.

use vstd::prelude::*;
use crate::memory::find_visible;
use crate::memory::table::{
    has_name, lemma_lookup_after_put, lemma_lookup_other_after_put, lemma_put_keeps_names,
    lemma_puts_keep_names, put_entries, put_entry, with_entries, with_entry, SpecTable,
};
use crate::memory::types::{type_eq, SpecTypeInfo, TypeInfo};
use crate::memory::{SpecValueInfo, ValueInfo};
use crate::position::{range_contains, ExtraRange, Position, Range};

verus! {

/// The return-type bookkeeping of a function scope: what the function
/// declares (`None` for void) and what the latest `return` gave.
#[derive(Debug)]
pub struct FunctionReturn {
    pub expected: Option<TypeInfo>,
    pub returned: Option<TypeInfo>,
}

/// The mathematical value of a [`FunctionReturn`].
pub struct SpecFunctionReturn {
    pub expected: Option<SpecTypeInfo>,
    pub returned: Option<SpecTypeInfo>,
}

impl DeepView for FunctionReturn {
    type V = SpecFunctionReturn;

    open spec fn deep_view(&self) -> SpecFunctionReturn {
        SpecFunctionReturn {
            expected: self.expected.deep_view(),
            returned: self.returned.deep_view(),
        }
    }
}

/// The kind of a scope. A function scope holds the return-type bookkeeping
/// of its function.
#[derive(Debug)]
pub enum ScopeType {
    TopLevel,
    Block,
    Loop,
    Function(Box<FunctionReturn>),
}

/// The mathematical value of a [`ScopeType`].
pub enum SpecScopeType {
    TopLevel,
    Block,
    Loop,
    Function(SpecFunctionReturn),
}

impl DeepView for ScopeType {
    type V = SpecScopeType;

    open spec fn deep_view(&self) -> SpecScopeType {
        match self {
            ScopeType::TopLevel => SpecScopeType::TopLevel,
            ScopeType::Block => SpecScopeType::Block,
            ScopeType::Loop => SpecScopeType::Loop,
            ScopeType::Function(x) => SpecScopeType::Function(x.deep_view()),
        }
    }
}

fn copy_type(ty: &Option<TypeInfo>) -> (r: Option<TypeInfo>)
    ensures
        r == *ty,
{
    match ty {
        Some(t) => Some(t.clone()),
        None => None,
    }
}

impl Clone for ScopeType {
    fn clone(&self) -> (r: Self)
        ensures
            r.deep_view() == self.deep_view(),
    {
        match self {
            ScopeType::TopLevel => ScopeType::TopLevel,
            ScopeType::Block => ScopeType::Block,
            ScopeType::Loop => ScopeType::Loop,
            ScopeType::Function(x) => ScopeType::Function(
                Box::new(
                    FunctionReturn {
                        expected: copy_type(&x.expected),
                        returned: copy_type(&x.returned),
                    },
                ),
            ),
        }
    }
}

/// One scope: its kind, its parent, the source range it spans and the
/// names bound in it.
pub struct Scope {
    pub scope_type: ScopeType,
    pub parent: usize,
    pub range: Range,
    values: Vec<(String, ValueInfo)>,
}

/// The mathematical value of a [`Scope`].
pub struct SpecScope {
    pub scope_type: SpecScopeType,
    pub parent: nat,
    pub range: Range,
    pub values: SpecTable<SpecValueInfo>,
}

impl DeepView for Scope {
    type V = SpecScope;

    closed spec fn deep_view(&self) -> SpecScope {
        SpecScope {
            scope_type: self.scope_type.deep_view(),
            parent: self.parent as nat,
            range: self.range,
            values: self.values.deep_view(),
        }
    }
}

impl Scope {
    /// The names bound in this scope.
    pub fn values(&self) -> (r: &Vec<(String, ValueInfo)>)
        ensures
            r.deep_view() == self.deep_view().values,
    {
        &self.values
    }
}

/// The arena of scopes with the cursor of the current one.
pub struct ScopeList {
    scopes: Vec<Scope>,
    current: usize,
}

/// The mathematical value of a [`ScopeList`].
pub struct SpecScopeList {
    pub scopes: Seq<SpecScope>,
    pub current: nat,
}

impl SpecScopeList {
    /// The root exists, the cursor names a scope, and every scope but the
    /// root was entered from a scope that is older than itself.
    pub open spec fn well_formed(self) -> bool {
        &&& self.scopes.len() >= 1
        &&& self.current < self.scopes.len()
        &&& self.scopes[0].parent == 0
        &&& forall|i: int| 0 < i < self.scopes.len() ==> (#[trigger] self.scopes[i]).parent < i
    }

    /// The list with a new scope entered from the current one.
    pub open spec fn enter(self, scope_type: SpecScopeType, range: Range) -> SpecScopeList {
        SpecScopeList {
            scopes: self.scopes.push(
                SpecScope { scope_type, parent: self.current, range, values: Seq::empty() },
            ),
            current: self.scopes.len(),
        }
    }

    /// Whether `after` can come out of evaluating statements in the current
    /// scope of `self`: the arena is well formed and has only grown, the
    /// cursor is where it was, every scope that was there has the parent it
    /// had, and every one of them but the current scope binds what it
    /// bound.
    pub open spec fn grows_to(self, after: SpecScopeList) -> bool {
        &&& after.well_formed()
        &&& after.current == self.current
        &&& self.scopes.len() <= after.scopes.len()
        &&& forall|i: int|
            0 <= i < self.scopes.len() ==> (#[trigger] after.scopes[i]).parent
                == self.scopes[i].parent
        &&& forall|i: int|
            0 <= i < self.scopes.len() && i != self.current ==> (#[trigger] after.scopes[i]).values
                == self.scopes[i].values
    }

    /// Whether every name that the current scope of `self` sees stands in
    /// `after` for what it stood for: nothing that was visible is hidden or
    /// bound anew.
    pub open spec fn keeps_names(self, after: SpecScopeList) -> bool {
        forall|name: Seq<char>|
            find_visible(self.visible(), name, 0) is Some ==> #[trigger] find_visible(
                after.visible(),
                name,
                0,
            ) == find_visible(self.visible(), name, 0)
    }

    /// Whether every name that the root scope of `self` binds is bound by
    /// the root scope of `after`.
    pub open spec fn root_keeps_names(self, after: SpecScopeList) -> bool {
        forall|name: Seq<char>|
            has_name(self.values_of(0), name) ==> #[trigger] has_name(after.values_of(0), name)
    }

    /// Whether `after` came out of `self` with nothing new bound in any
    /// scope that was there: the current scope too binds what it bound.
    pub open spec fn settles_to(self, after: SpecScopeList) -> bool {
        &&& self.grows_to(after)
        &&& after.values_of(self.current) == self.values_of(self.current)
    }

    /// The list with the cursor moved to the parent; the root has no parent
    /// to move to and stays.
    pub open spec fn leave(self) -> SpecScopeList {
        if self.current == 0 || self.current >= self.scopes.len() {
            self
        } else {
            SpecScopeList { scopes: self.scopes, current: self.scopes[self.current as int].parent }
        }
    }

    /// The list with the names of scope `at` replaced.
    pub open spec fn with_values(self, at: int, values: SpecTable<SpecValueInfo>) -> SpecScopeList {
        if 0 <= at < self.scopes.len() {
            let scope = self.scopes[at];
            SpecScopeList {
                scopes: self.scopes.update(
                    at,
                    SpecScope {
                        scope_type: scope.scope_type,
                        parent: scope.parent,
                        range: scope.range,
                        values,
                    },
                ),
                current: self.current,
            }
        } else {
            self
        }
    }

    /// The kind of the current scope.
    pub open spec fn current_type(self) -> SpecScopeType {
        if self.current < self.scopes.len() {
            self.scopes[self.current as int].scope_type
        } else {
            SpecScopeType::TopLevel
        }
    }

    /// The list with `name` bound in the current scope.
    pub open spec fn insert(self, name: Seq<char>, info: SpecValueInfo) -> SpecScopeList {
        self.with_values(
            self.current as int,
            with_entry(self.scopes[self.current as int].values, name, info),
        )
    }

    /// The list with all of `extra` bound in the current scope.
    pub open spec fn extend(self, extra: SpecTable<SpecValueInfo>) -> SpecScopeList {
        self.with_values(
            self.current as int,
            with_entries(self.scopes[self.current as int].values, extra),
        )
    }

    /// The list with the cursor on `scope`, if there is such a scope.
    pub open spec fn force(self, scope: nat) -> SpecScopeList {
        if scope < self.scopes.len() {
            SpecScopeList { scopes: self.scopes, current: scope }
        } else {
            self
        }
    }

    /// The nearest function scope at or around scope `from`. The root is
    /// never one.
    pub open spec fn function_scope(self, from: nat) -> Option<nat>
        decreases from,
    {
        if from == 0 || from >= self.scopes.len() {
            None
        } else if self.scopes[from as int].scope_type is Function {
            Some(from)
        } else if self.scopes[from as int].parent < from {
            self.function_scope(self.scopes[from as int].parent)
        } else {
            None
        }
    }

    /// The bookkeeping of the function that the current scope lies in.
    pub open spec fn function_return(self) -> Option<SpecFunctionReturn> {
        match self.function_scope(self.current) {
            Some(i) => Some(self.scopes[i as int].scope_type->Function_0),
            None => None,
        }
    }

    /// The return type that the enclosing function declares.
    pub open spec fn expected_return(self) -> Option<SpecTypeInfo> {
        match self.function_return() {
            Some(r) => r.expected,
            None => None,
        }
    }

    /// The list with `returned` noted in the enclosing function scope;
    /// unchanged outside any function.
    pub open spec fn with_returned(self, returned: Option<SpecTypeInfo>) -> SpecScopeList {
        match self.function_scope(self.current) {
            Some(i) => {
                let scope = self.scopes[i as int];
                SpecScopeList {
                    scopes: self.scopes.update(
                        i as int,
                        SpecScope {
                            scope_type: SpecScopeType::Function(
                                SpecFunctionReturn {
                                    expected: scope.scope_type->Function_0.expected,
                                    returned,
                                },
                            ),
                            parent: scope.parent,
                            range: scope.range,
                            values: scope.values,
                        },
                    ),
                    current: self.current,
                }
            },
            None => self,
        }
    }

    /// Whether the enclosing function kept its return contract: it declares
    /// nothing and returned nothing, or what it returned last matches what
    /// it declares. Outside any function there is no contract to keep.
    pub open spec fn returned_as_declared(self) -> bool {
        match self.function_return() {
            Some(r) => match (r.expected, r.returned) {
                (None, None) => true,
                (Some(expected), Some(returned)) => type_eq(expected, returned),
                _ => false,
            },
            None => false,
        }
    }

    /// The scopes visible from scope `from`, innermost first, the root last;
    /// none in an arena without scopes.
    pub open spec fn chain(self, from: nat) -> Seq<nat>
        decreases from,
    {
        if self.scopes.len() == 0 {
            Seq::empty()
        } else if from == 0 || from >= self.scopes.len() {
            seq![0nat]
        } else if self.scopes[from as int].parent < from {
            seq![from] + self.chain(self.scopes[from as int].parent)
        } else {
            seq![from, 0nat]
        }
    }

    /// The names bound in scope `i`; none where there is no such scope.
    pub open spec fn values_of(self, i: nat) -> SpecTable<SpecValueInfo> {
        if i < self.scopes.len() {
            self.scopes[i as int].values
        } else {
            Seq::empty()
        }
    }

    /// The names visible from scope `from`, one table per scope, innermost
    /// first.
    pub open spec fn visible_from(self, from: nat) -> Seq<SpecTable<SpecValueInfo>> {
        self.chain(from).map_values(|i: nat| self.values_of(i))
    }

    /// The names visible from the current scope.
    pub open spec fn visible(self) -> Seq<SpecTable<SpecValueInfo>> {
        self.visible_from(self.current)
    }

    /// The last scope among the first `upto` whose range contains
    /// `position`; the root if there is none.
    pub open spec fn scope_at(self, position: Position, upto: nat) -> nat
        decreases upto,
    {
        if upto == 0 {
            0
        } else if upto <= self.scopes.len() && range_contains(
            self.scopes[upto - 1].range,
            position,
        ) {
            (upto - 1) as nat
        } else {
            self.scope_at(position, (upto - 1) as nat)
        }
    }

    /// The innermost scope at `position`. Scopes are appended as they are
    /// entered, so a scope inside another comes behind it: the last scope
    /// that contains the position is the innermost.
    pub open spec fn scope_of_position(self, position: Position) -> nat {
        self.scope_at(position, self.scopes.len())
    }
}

/// The list that holds the root scope alone.
pub open spec fn root_only() -> SpecScopeList {
    SpecScopeList {
        scopes: seq![
            SpecScope {
                scope_type: SpecScopeType::TopLevel,
                parent: 0,
                range: Range {
                    start: Position { line: 0, character: 0 },
                    end: Position { line: 0, character: 0 },
                },
                values: Seq::empty(),
            },
        ],
        current: 0,
    }
}

impl View for ScopeList {
    type V = SpecScopeList;

    closed spec fn view(&self) -> SpecScopeList {
        SpecScopeList { scopes: self.scopes.deep_view(), current: self.current as nat }
    }
}

impl ScopeList {
    /// The arena that holds the root scope alone.
    pub fn new() -> (r: Self)
        ensures
            r@ == root_only(),
    {
        let mut scopes: Vec<Scope> = Vec::new();
        scopes.push(
            Scope {
                parent: 0,
                range: Range::default(),
                scope_type: ScopeType::TopLevel,
                values: Vec::new(),
            },
        );
        let r = Self { scopes, current: 0 };
        assert(r@.scopes =~= root_only().scopes) by {
            assert(r.scopes@[0].values.deep_view() =~= Seq::empty());
        }
        r
    }

    /// The number of scopes.
    pub fn len(&self) -> (r: usize)
        ensures
            r == self@.scopes.len(),
    {
        self.scopes.len()
    }

    /// The index of the current scope.
    pub fn current(&self) -> (r: usize)
        ensures
            r == self@.current,
    {
        self.current
    }

    /// Binds `k` in the current scope.
    pub fn insert(&mut self, k: String, v: ValueInfo)
        ensures
            final(self)@ == old(self)@.insert(k@, v.deep_view()),
    {
        let c = self.current;
        if c < self.scopes.len() {
            put_entry(&mut self.scopes[c].values, k, v);
            assert(self@.scopes =~= old(self)@.insert(k@, v.deep_view()).scopes);
        }
    }

    /// Binds all of `extra` in the current scope, one after the other.
    pub fn extend(&mut self, extra: Vec<(String, ValueInfo)>)
        ensures
            final(self)@ == old(self)@.extend(extra.deep_view()),
    {
        let c = self.current;
        if c < self.scopes.len() {
            let ghost added = extra.deep_view();
            put_entries(&mut self.scopes[c].values, extra);
            assert(self@.scopes =~= old(self)@.extend(added).scopes);
        }
    }

    /// Puts the cursor on scope `scope`, if there is such a scope.
    pub fn force_scope(&mut self, scope: usize)
        ensures
            final(self)@ == old(self)@.force(scope as nat),
    {
        if scope < self.scopes.len() {
            self.current = scope;
        }
    }

    /// The kind of the current scope.
    pub fn scope_type(&mut self) -> (r: ScopeType)
        ensures
            final(self)@ == old(self)@,
            r.deep_view() == old(self)@.current_type(),
    {
        if self.current < self.scopes.len() {
            self.scopes[self.current].scope_type.clone()
        } else {
            ScopeType::TopLevel
        }
    }

    /// Enters a new scope from the current one.
    pub fn enter_scope(&mut self, scope_type: ScopeType, range: Range)
        ensures
            final(self)@ == old(self)@.enter(scope_type.deep_view(), range),
    {
        let ghost kind = scope_type.deep_view();
        let parent = self.current;
        let index = self.scopes.len();
        self.scopes.push(Scope { parent, range, scope_type, values: Vec::new() });
        self.current = index;
        assert(self@.scopes =~= old(self)@.enter(kind, range).scopes) by {
            assert(self.scopes@[index as int].values.deep_view() =~= Seq::empty());
        }
    }

    /// True means we succeeded.
    pub fn leave_scope(&mut self) -> (r: bool)
        ensures
            r == (old(self)@.current != 0),
            final(self)@ == old(self)@.leave(),
    {
        if self.current == 0 {
            false
        } else {
            if self.current < self.scopes.len() {
                let parent = self.scopes[self.current].parent;
                assert(parent == self@.scopes[self.current as int].parent);
                self.current = parent;
            }
            true
        }
    }

    /// The index of the nearest function scope around the current scope.
    fn function_index(&self) -> (r: Option<usize>)
        ensures
            r is Some <==> self@.function_scope(self@.current) is Some,
            r is Some ==> r->0 == self@.function_scope(self@.current)->0 && r->0
                < self.scopes.len() && self.scopes@[r->0 as int].scope_type is Function,
    {
        let mut current = self.current;
        while current != 0 && current < self.scopes.len()
            invariant
                self@.function_scope(self@.current) == self@.function_scope(current as nat),
            decreases current,
        {
            assert(self@.scopes[current as int].parent == self.scopes@[current as int].parent);
            assert(self@.scopes[current as int].scope_type == self.scopes@[current
                as int].scope_type.deep_view());
            if let ScopeType::Function(_) = &self.scopes[current].scope_type {
                return Some(current);
            }
            let parent = self.scopes[current].parent;
            if parent >= current {
                return None;
            }
            current = parent;
        }
        None
    }

    /// The return type that the enclosing function declares.
    pub fn get_expected_return_type(&self) -> (r: Option<TypeInfo>)
        ensures
            r.deep_view() == self@.expected_return(),
    {
        match self.function_index() {
            Some(i) => {
                assert(self@.scopes[i as int].scope_type == self.scopes@[i
                    as int].scope_type.deep_view());
                match &self.scopes[i].scope_type {
                    ScopeType::Function(x) => copy_type(&x.expected),
                    _ => None,
                }
            },
            None => None,
        }
    }

    /// Notes in the enclosing function scope what a `return` gave.
    pub fn set_actual_return_type(&mut self, return_type: Option<TypeInfo>)
        ensures
            final(self)@ == old(self)@.with_returned(return_type.deep_view()),
    {
        match self.function_index() {
            Some(i) => {
                assert(self@.scopes[i as int].scope_type == self.scopes@[i
                    as int].scope_type.deep_view());
                let expected = match &self.scopes[i].scope_type {
                    ScopeType::Function(x) => copy_type(&x.expected),
                    _ => None,
                };
                self.scopes[i].scope_type = ScopeType::Function(
                    Box::new(FunctionReturn { expected, returned: return_type }),
                );
                assert(self@.scopes =~= old(self)@.with_returned(
                    return_type.deep_view(),
                ).scopes);
            },
            None => {},
        }
    }

    /// Whether the enclosing function kept its return contract.
    pub fn assert_returned(&mut self) -> (r: bool)
        ensures
            final(self)@ == old(self)@,
            r == old(self)@.returned_as_declared(),
    {
        match self.function_index() {
            Some(i) => {
                assert(self@.scopes[i as int].scope_type == self.scopes@[i
                    as int].scope_type.deep_view());
                match &self.scopes[i].scope_type {
                    ScopeType::Function(x) => match (&x.expected, &x.returned) {
                        (None, None) => true,
                        (Some(expected), Some(returned)) => expected == returned,
                        _ => false,
                    },
                    _ => false,
                }
            },
            None => false,
        }
    }

    /// The names visible from the current scope, innermost scope first.
    pub fn collect_scopes(&self) -> (r: Vec<&Vec<(String, ValueInfo)>>)
        ensures
            r.deep_view() == self@.visible(),
    {
        self.collect_scopes_from(self.current)
    }

    /// The innermost scope at `position`.
    pub fn find_scope_from_position(&self, position: Position) -> (r: usize)
        ensures
            r == self@.scope_of_position(position),
            r == 0 || r < self@.scopes.len(),
    {
        let mut upto = self.scopes.len();
        while upto > 0
            invariant
                upto <= self.scopes.len(),
                self@.scopes.len() == self.scopes.len(),
                self@.scope_of_position(position) == self@.scope_at(position, upto as nat),
            decreases upto,
        {
            assert(self@.scopes[upto - 1].range == self.scopes@[upto - 1].range);
            if self.scopes[upto - 1].range.contains_position(position) {
                return upto - 1;
            }
            upto -= 1;
        }
        0
    }

    /// The names visible from scope `location`, innermost scope first.
    pub fn collect_scopes_from(&self, location: usize) -> (r: Vec<&Vec<(String, ValueInfo)>>)
        ensures
            r.deep_view() == self@.visible_from(location as nat),
    {
        let mut tables: Vec<&Vec<(String, ValueInfo)>> = Vec::new();
        let mut current = if location < self.scopes.len() {
            location
        } else {
            0
        };
        assert(self@.chain(location as nat) == self@.chain(current as nat));
        assert(tables.deep_view() =~= Seq::empty());
        while current != 0
            invariant
                current == 0 || current < self.scopes.len(),
                tables.deep_view() + self@.visible_from(current as nat) == self@.visible_from(
                    location as nat,
                ),
            decreases current,
        {
            let ghost before = tables.deep_view();
            assert(self@.scopes[current as int].parent == self.scopes@[current as int].parent);
            assert(self@.scopes[current as int].values == self.scopes@[current
                as int].values.deep_view());
            tables.push(&self.scopes[current].values);
            let parent = if self.scopes[current].parent < current {
                self.scopes[current].parent
            } else {
                0
            };
            assert(tables.deep_view() =~= before.push(self@.values_of(current as nat)));
            assert(self@.visible_from(current as nat) =~= seq![self@.values_of(current as nat)]
                + self@.visible_from(parent as nat));
            assert(tables.deep_view() + self@.visible_from(parent as nat) =~= before
                + self@.visible_from(current as nat));
            current = parent;
        }
        let ghost before = tables.deep_view();
        if self.scopes.len() > 0 {
            assert(self@.scopes[0].values == self.scopes@[0].values.deep_view());
            tables.push(&self.scopes[0].values);
            assert(tables.deep_view() =~= before.push(self@.values_of(0)));
            assert(self@.visible_from(0) =~= seq![self@.values_of(0)]);
        } else {
            assert(self@.visible_from(0) =~= Seq::empty());
        }
        tables
    }
}

/// Entering a scope keeps the arena well formed.
pub proof fn lemma_enter_keeps_well_formed(
    list: SpecScopeList,
    scope_type: SpecScopeType,
    range: Range,
)
    requires
        list.well_formed(),
    ensures
        list.enter(scope_type, range).well_formed(),
{
}

/// Leaving a scope keeps the arena well formed.
pub proof fn lemma_leave_keeps_well_formed(list: SpecScopeList)
    requires
        list.well_formed(),
    ensures
        list.leave().well_formed(),
{
}

/// Binding names keeps the arena well formed.
pub proof fn lemma_binding_keeps_well_formed(
    list: SpecScopeList,
    at: int,
    values: SpecTable<SpecValueInfo>,
)
    requires
        list.well_formed(),
    ensures
        list.with_values(at, values).well_formed(),
{
}

/// The function scope around a scope is a scope of the arena, not younger
/// than where the search began, and a function scope indeed.
pub proof fn lemma_function_scope_is_a_scope(list: SpecScopeList, from: nat)
    ensures
        list.function_scope(from) is Some ==> 0 < list.function_scope(from)->0 <= from
            && list.function_scope(from)->0 < list.scopes.len() && list.scopes[list.function_scope(
            from,
        )->0 as int].scope_type is Function,
    decreases from,
{
    if from != 0 && from < list.scopes.len() && !(list.scopes[from as int].scope_type is Function)
        && list.scopes[from as int].parent < from {
        lemma_function_scope_is_a_scope(list, list.scopes[from as int].parent);
    }
}

/// Noting what a function returned keeps the arena well formed.
pub proof fn lemma_returning_keeps_well_formed(list: SpecScopeList, returned: Option<SpecTypeInfo>)
    requires
        list.well_formed(),
    ensures
        list.with_returned(returned).well_formed(),
{
    lemma_function_scope_is_a_scope(list, list.current);
}

/// A name bound in the current scope is the first that a lookup from there
/// finds.
pub proof fn lemma_bound_name_is_visible(list: SpecScopeList, name: Seq<char>, info: SpecValueInfo)
    requires
        list.well_formed(),
    ensures
        find_visible(list.insert(name, info).visible(), name, 0) == Some(info),
{
    let bound = list.insert(name, info);
    let current = list.current;
    lemma_lookup_after_put(list.scopes[current as int].values, name, info);
    assert(bound.chain(current)[0] == current);
    assert(bound.visible()[0] == bound.values_of(current));
}

/// The scopes visible from a scope are that scope and older ones only, so
/// what is visible from it does not change when the arena grows or when a
/// younger scope binds names.
pub proof fn lemma_visible_looks_back_only(a: SpecScopeList, b: SpecScopeList, from: nat)
    requires
        a.scopes.len() >= 1,
        from < a.scopes.len() <= b.scopes.len(),
        forall|i: int| 0 <= i <= from ==> (#[trigger] a.scopes[i]).parent == b.scopes[i].parent,
        forall|i: int| 0 <= i <= from ==> (#[trigger] a.scopes[i]).values == b.scopes[i].values,
        forall|i: int| 0 < i <= from ==> (#[trigger] a.scopes[i]).parent < i,
    ensures
        a.chain(from) == b.chain(from),
        a.visible_from(from) == b.visible_from(from),
    decreases from,
{
    if from != 0 {
        let parent = a.scopes[from as int].parent;
        lemma_visible_looks_back_only(a, b, parent);
        assert(a.chain(from) =~= seq![from] + a.chain(parent));
        assert(b.chain(from) =~= seq![from] + b.chain(parent));
    }
    assert(a.chain(from) == b.chain(from));
    assert(a.visible_from(from) =~= b.visible_from(from)) by {
        lemma_chain_stays_below(a, from);
    }
}

/// The scopes visible from a scope are not younger than it.
pub proof fn lemma_chain_stays_below(list: SpecScopeList, from: nat)
    requires
        list.scopes.len() >= 1,
        from < list.scopes.len(),
        forall|i: int| 0 < i <= from ==> (#[trigger] list.scopes[i]).parent < i,
    ensures
        forall|k: int| 0 <= k < list.chain(from).len() ==> #[trigger] list.chain(from)[k] <= from,
        list.chain(from).len() >= 1,
        list.chain(from).last() == 0,
    decreases from,
{
    if from != 0 {
        let parent = list.scopes[from as int].parent;
        lemma_chain_stays_below(list, parent);
        assert(list.chain(from) =~= seq![from] + list.chain(parent));
    }
}

/// A scope is transient: after entering a scope, binding whatever names in
/// it, and leaving it, the current scope is the old one and sees what it
/// saw before.
pub proof fn lemma_inner_scope_is_transient(
    list: SpecScopeList,
    scope_type: SpecScopeType,
    range: Range,
    bound: SpecTable<SpecValueInfo>,
)
    requires
        list.well_formed(),
    ensures
        ({
            let entered = list.enter(scope_type, range);
            let left = entered.with_values(entered.current as int, bound).leave();
            &&& left.current == list.current
            &&& left.visible() == list.visible()
        }),
{
    let entered = list.enter(scope_type, range);
    let left = entered.with_values(entered.current as int, bound).leave();
    lemma_visible_looks_back_only(list, left, list.current);
}

/// What the root scope binds is visible from every scope.
pub proof fn lemma_root_is_visible_everywhere(list: SpecScopeList, from: nat, name: Seq<char>)
    requires
        list.well_formed(),
        from < list.scopes.len(),
        has_name(list.scopes[0].values, name),
    ensures
        find_visible(list.visible_from(from), name, 0) is Some,
{
    lemma_chain_stays_below(list, from);
    let tables = list.visible_from(from);
    assert(tables.last() == list.scopes[0].values);
    lemma_last_table_is_found(tables, name, 0);
}

/// A name that the last table binds is found by a lookup from any table
/// on.
pub proof fn lemma_last_table_is_found<M>(tables: Seq<SpecTable<M>>, name: Seq<char>, from: int)
    requires
        0 <= from < tables.len(),
        has_name(tables.last(), name),
    ensures
        find_visible(tables, name, from) is Some,
    decreases tables.len() - from,
{
    if !has_name(tables[from], name) {
        lemma_last_table_is_found(tables, name, from + 1);
    }
}

/// Where nothing new is bound in the scopes that were there, the current
/// scope sees what it saw before.
pub proof fn lemma_settled_sees_the_same(before: SpecScopeList, after: SpecScopeList)
    requires
        before.well_formed(),
        before.settles_to(after),
    ensures
        after.current == before.current,
        after.visible() == before.visible(),
        before.keeps_names(after),
{
    lemma_visible_looks_back_only(before, after, before.current);
}

/// What came out of an arena that came out of another came out of that
/// other.
pub proof fn lemma_growth_adds_up(a: SpecScopeList, b: SpecScopeList, c: SpecScopeList)
    requires
        a.current < a.scopes.len(),
        a.grows_to(b),
        b.grows_to(c),
    ensures
        a.grows_to(c),
        a.settles_to(b) && b.settles_to(c) ==> a.settles_to(c),
{
    assert forall|i: int| 0 <= i < a.scopes.len() implies (#[trigger] c.scopes[i]).parent
        == a.scopes[i].parent by {
        assert(b.scopes[i].parent == a.scopes[i].parent);
    }
    assert forall|i: int| 0 <= i < a.scopes.len() && i != a.current implies (
    #[trigger] c.scopes[i]).values == a.scopes[i].values by {
        assert(b.scopes[i].values == a.scopes[i].values);
    }
}

/// Leaving a scope that was entered, after whatever was evaluated in it,
/// leads back to the scope it was entered from, and no scope that was
/// there before binds anything new.
pub proof fn lemma_scope_ends_with_its_body(
    before: SpecScopeList,
    scope_type: SpecScopeType,
    range: Range,
    done: SpecScopeList,
)
    requires
        before.well_formed(),
        before.enter(scope_type, range).grows_to(done),
    ensures
        before.settles_to(done.leave()),
{
    let entered = before.enter(scope_type, range);
    let inner = before.scopes.len() as int;
    assert(done.scopes[inner].parent == entered.scopes[inner].parent);
    assert forall|i: int| 0 <= i < before.scopes.len() implies (#[trigger] done.leave().scopes[i]).parent
        == before.scopes[i].parent by {
        assert(done.scopes[i].parent == entered.scopes[i].parent);
    }
    assert forall|i: int| 0 <= i < before.scopes.len() implies (#[trigger] done.leave().scopes[i]).values
        == before.scopes[i].values by {
        assert(done.scopes[i].values == entered.scopes[i].values);
    }
}

/// The scopes visible from a scope are found by way of the parents
/// alone, and all of them but the scope itself are older than it.
pub proof fn lemma_chain_follows_parents(a: SpecScopeList, b: SpecScopeList, from: nat)
    requires
        a.scopes.len() >= 1,
        from < a.scopes.len() <= b.scopes.len(),
        forall|i: int| 0 <= i <= from ==> (#[trigger] a.scopes[i]).parent == b.scopes[i].parent,
        forall|i: int| 0 < i <= from ==> (#[trigger] a.scopes[i]).parent < i,
    ensures
        a.chain(from) == b.chain(from),
        a.chain(from).len() >= 1,
        a.chain(from)[0] == from,
        forall|k: int| 1 <= k < a.chain(from).len() ==> #[trigger] a.chain(from)[k] < from,
    decreases from,
{
    if from != 0 {
        let parent = a.scopes[from as int].parent;
        lemma_chain_follows_parents(a, b, parent);
        lemma_chain_stays_below(a, parent);
        assert(a.chain(from) =~= seq![from] + a.chain(parent));
        assert(b.chain(from) =~= seq![from] + b.chain(parent));
        assert forall|k: int| 1 <= k < a.chain(from).len() implies #[trigger] a.chain(from)[k]
            < from by {
            assert(a.chain(from)[k] == a.chain(parent)[k - 1]);
        }
    }
}

/// A lookup from a table on depends on the tables from there on alone.
pub proof fn lemma_lookup_reads_the_rest<M>(
    a: Seq<SpecTable<M>>,
    b: Seq<SpecTable<M>>,
    name: Seq<char>,
    from: int,
)
    requires
        a.len() == b.len(),
        0 <= from,
        forall|k: int| from <= k < a.len() ==> a[k] == b[k],
    ensures
        find_visible(a, name, from) == find_visible(b, name, from),
    decreases a.len() - from,
{
    if from < a.len() && !has_name(a[from], name) {
        lemma_lookup_reads_the_rest(a, b, name, from + 1);
    }
}

/// Binding a name that is not visible hides nothing: every name that was
/// visible stands for what it stood for.
pub proof fn lemma_fresh_name_hides_nothing(
    list: SpecScopeList,
    name: Seq<char>,
    info: SpecValueInfo,
)
    requires
        list.well_formed(),
        find_visible(list.visible(), name, 0) is None,
    ensures
        list.keeps_names(list.insert(name, info)),
{
    let bound = list.insert(name, info);
    let current = list.current;
    lemma_chain_follows_parents(list, bound, current);
    let before = list.visible();
    let after = bound.visible();
    assert(after.len() == before.len());
    assert forall|k: int| 1 <= k < before.len() implies before[k] == after[k] by {
        assert(list.chain(current)[k] < current);
    }
    assert(before[0] == list.scopes[current as int].values);
    assert(after[0] == with_entry(before[0], name, info));
    assert forall|other: Seq<char>| find_visible(before, other, 0) is Some implies #[trigger] find_visible(
        after,
        other,
        0,
    ) == find_visible(before, other, 0) by {
        lemma_lookup_other_after_put(before[0], name, info, other);
        lemma_lookup_reads_the_rest(before, after, other, 1);
    }
}

/// What keeps the names of an arena that kept the names of another keeps
/// the names of that other.
pub proof fn lemma_keeping_adds_up(a: SpecScopeList, b: SpecScopeList, c: SpecScopeList)
    requires
        a.keeps_names(b),
        b.keeps_names(c),
    ensures
        a.keeps_names(c),
{
    assert forall|name: Seq<char>| find_visible(a.visible(), name, 0) is Some implies #[trigger] find_visible(
        c.visible(),
        name,
        0,
    ) == find_visible(a.visible(), name, 0) by {
        assert(find_visible(b.visible(), name, 0) == find_visible(a.visible(), name, 0));
    }
}

/// Binding a name leaves the root scope every name that it bound.
pub proof fn lemma_binding_keeps_root(list: SpecScopeList, name: Seq<char>, info: SpecValueInfo)
    requires
        list.well_formed(),
    ensures
        list.root_keeps_names(list.insert(name, info)),
{
    assert forall|other: Seq<char>| has_name(list.values_of(0), other) implies #[trigger] has_name(
        list.insert(name, info).values_of(0),
        other,
    ) by {
        if list.current == 0 {
            lemma_put_keeps_names(list.values_of(0), name, info, other);
        }
    }
}

/// Binding a table of names leaves the root scope every name that it
/// bound.
pub proof fn lemma_extending_keeps_root(list: SpecScopeList, extra: SpecTable<SpecValueInfo>)
    requires
        list.well_formed(),
    ensures
        list.root_keeps_names(list.extend(extra)),
{
    assert forall|other: Seq<char>| has_name(list.values_of(0), other) implies #[trigger] has_name(
        list.extend(extra).values_of(0),
        other,
    ) by {
        if list.current == 0 {
            lemma_puts_keep_names(list.values_of(0), extra, other);
        }
    }
}

/// What keeps the names of the root of an arena that kept those of
/// another keeps those of that other.
pub proof fn lemma_root_keeping_adds_up(a: SpecScopeList, b: SpecScopeList, c: SpecScopeList)
    requires
        a.root_keeps_names(b),
        b.root_keeps_names(c),
    ensures
        a.root_keeps_names(c),
{
    assert forall|name: Seq<char>| has_name(a.values_of(0), name) implies #[trigger] has_name(
        c.values_of(0),
        name,
    ) by {
        assert(has_name(b.values_of(0), name));
    }
}

} // verus!

//! Replaces the names given to the define plugin by their definitions.
//!
//! Each definition comes as a record of callbacks: how the name evaluates, how it
//! evaluates under `typeof`, what `typeof name` becomes and what the name itself becomes.
//! Plain definitions live in `define_record`, `typeof name` definitions in
//! `typeof_define_record`, and object definitions (whose members are defined too) in
//! `object_define_record`.
use vstd::prelude::*;
use std::sync::Arc;
use crate::parser_state::{ParserState, ParserStateView, Dependency, DependencyView, EvaluatedExpression, EvaluatedView, Span, option_view, evaluate_to_string};
use crate::table::StrTable;
use crate::args::{NamedRange, MemberArgs, IdentifierArgs, EvaluateIdentifierArgs, EvaluateTypeofArgs, TypeofArgs, CanRenameArgs, DestructuringArgs};
use crate::drive::{JavascriptParserHooks, HooksView, map_bail, lemma_map_bail_tap_added};
use crate::hook::{register_all, registered, taps_at, lemma_register_all_distinct, bail_run, lemma_bail_run_push};
use crate::plugin::JavascriptParserPlugin;

verus! {

/// Key prefix of the value dependencies recorded for definitions.
pub const VALUE_DEP_PREFIX: &'static str = "webpack/DefinePlugin ";

/// The callbacks of one definition.  They receive the parser's state and may change it.
///
/// A callback type that states what it does sets `obeys_define_spec` to `true` and gives
/// the four `spec_` functions; one that keeps the defaults promises nothing.
pub trait DefineCallback {
    /// The four callbacks behave as their `spec_` functions say.
    open spec fn obeys_define_spec() -> bool {
        false
    }

    open spec fn spec_evaluate_typeof(&self, state: ParserStateView, span: Span) -> (ParserStateView, Option<EvaluatedView>) {
        vstd::pervasive::arbitrary()
    }

    /// What `typeof name` evaluates to; `span` is the `typeof` expression.
    fn evaluate_typeof(&self, state: &mut ParserState, span: Span) -> (r: Option<EvaluatedExpression>)
        ensures
            Self::obeys_define_spec() ==> (final(state)@, option_view(r)) == self.spec_evaluate_typeof(old(state)@, span),
    ;

    open spec fn spec_evaluate_identifier(&self, state: ParserStateView, for_name: Seq<char>, start: u32, end: u32) -> (ParserStateView, Option<EvaluatedView>) {
        vstd::pervasive::arbitrary()
    }

    /// What the name evaluates to at `start..end`.
    fn evaluate_identifier(&self, state: &mut ParserState, for_name: &str, start: u32, end: u32) -> (r: Option<EvaluatedExpression>)
        ensures
            Self::obeys_define_spec() ==> (final(state)@, option_view(r)) == self.spec_evaluate_identifier(old(state)@, for_name@, start, end),
    ;

    open spec fn spec_on_typeof(&self, state: ParserStateView, span: Span) -> (ParserStateView, Option<bool>) {
        vstd::pervasive::arbitrary()
    }

    /// Handles `typeof name`; `span` is the `typeof` expression.
    fn on_typeof(&self, state: &mut ParserState, span: Span) -> (r: Option<bool>)
        ensures
            Self::obeys_define_spec() ==> (final(state)@, r) == self.spec_on_typeof(old(state)@, span),
    ;

    open spec fn spec_on_expression(&self, state: ParserStateView, span: Span, for_name: Seq<char>) -> (ParserStateView, Option<bool>) {
        vstd::pervasive::arbitrary()
    }

    /// Handles the name used as an expression at `span`.
    fn on_expression(&self, state: &mut ParserState, span: Span, for_name: &str) -> (r: Option<bool>)
        ensures
            Self::obeys_define_spec() ==> (final(state)@, r) == self.spec_on_expression(old(state)@, span, for_name@),
    ;
}

/// The callbacks of one definition; a missing callback leaves that use of the name alone.
pub struct DefineRecord<C> {
    pub on_evaluate_typeof: Option<C>,
    pub on_evaluate_identifier: Option<C>,
    pub on_typeof: Option<C>,
    pub on_expression: Option<C>,
}

/// All definitions of one define plugin.
pub struct WalkData<C> {
    can_rename: StrTable<Option<String>>,
    define_record: StrTable<DefineRecord<C>>,
    typeof_define_record: StrTable<DefineRecord<C>>,
    object_define_record: StrTable<DefineRecord<C>>,
    tiling_definitions: StrTable<String>,
}

impl<C> WalkData<C> {
    /// Each table's index, key list and values agree.
    #[verifier::type_invariant]
    pub closed spec fn tables_wf(self) -> bool {
        &&& self.can_rename.wf()
        &&& self.define_record.wf()
        &&& self.typeof_define_record.wf()
        &&& self.object_define_record.wf()
        &&& self.tiling_definitions.wf()
    }

    /// Names that may be renamed, each with the first segment of its definition when that is a name.
    pub closed spec fn can_rename_entries(self) -> Map<Seq<char>, Option<String>> {
        self.can_rename.entries()
    }

    pub closed spec fn can_rename_keys(self) -> Seq<Seq<char>> {
        self.can_rename.key_order()
    }

    pub closed spec fn define_entries(self) -> Map<Seq<char>, DefineRecord<C>> {
        self.define_record.entries()
    }

    pub closed spec fn define_keys(self) -> Seq<Seq<char>> {
        self.define_record.key_order()
    }

    pub closed spec fn typeof_define_entries(self) -> Map<Seq<char>, DefineRecord<C>> {
        self.typeof_define_record.entries()
    }

    pub closed spec fn typeof_define_keys(self) -> Seq<Seq<char>> {
        self.typeof_define_record.key_order()
    }

    pub closed spec fn object_define_entries(self) -> Map<Seq<char>, DefineRecord<C>> {
        self.object_define_record.entries()
    }

    pub closed spec fn object_define_keys(self) -> Seq<Seq<char>> {
        self.object_define_record.key_order()
    }

    /// The source text of each definition, recorded as a value dependency when the name is used.
    pub closed spec fn tiling_entries(self) -> Map<Seq<char>, String> {
        self.tiling_definitions.entries()
    }

    pub fn new() -> (d: Self)
        ensures
            d.can_rename_entries() == Map::<Seq<char>, Option<String>>::empty(),
            d.can_rename_keys() == Seq::<Seq<char>>::empty(),
            d.define_entries() == Map::<Seq<char>, DefineRecord<C>>::empty(),
            d.define_keys() == Seq::<Seq<char>>::empty(),
            d.typeof_define_entries() == Map::<Seq<char>, DefineRecord<C>>::empty(),
            d.typeof_define_keys() == Seq::<Seq<char>>::empty(),
            d.object_define_entries() == Map::<Seq<char>, DefineRecord<C>>::empty(),
            d.object_define_keys() == Seq::<Seq<char>>::empty(),
            d.tiling_entries() == Map::<Seq<char>, String>::empty(),
    {
        WalkData {
            can_rename: StrTable::new(),
            define_record: StrTable::new(),
            typeof_define_record: StrTable::new(),
            object_define_record: StrTable::new(),
            tiling_definitions: StrTable::new(),
        }
    }
}


/// `tables` after `key` is set to a value, as the keys of a `StrTable` evolve.
pub open spec fn keys_after_insert<V>(entries: Map<Seq<char>, V>, keys: Seq<Seq<char>>, key: Seq<char>) -> Seq<Seq<char>> {
    if entries.contains_key(key) {
        keys
    } else {
        keys.push(key)
    }
}

impl<C> WalkData<C> {
    /// Lets `name` be renamed; `first_key` is the first segment of its definition when that is a name.
    pub fn add_can_rename(&mut self, name: String, first_key: Option<String>)
        ensures
            final(self).can_rename_entries() == old(self).can_rename_entries().insert(name@, first_key),
            final(self).can_rename_keys() == keys_after_insert(old(self).can_rename_entries(), old(self).can_rename_keys(), name@),
            final(self).define_entries() == old(self).define_entries(),
            final(self).define_keys() == old(self).define_keys(),
            final(self).typeof_define_entries() == old(self).typeof_define_entries(),
            final(self).typeof_define_keys() == old(self).typeof_define_keys(),
            final(self).object_define_entries() == old(self).object_define_entries(),
            final(self).object_define_keys() == old(self).object_define_keys(),
            final(self).tiling_entries() == old(self).tiling_entries(),
    {
        proof { use_type_invariant(&*self); }
        let mut t = StrTable::new();
        std::mem::swap(&mut t, &mut self.can_rename);
        t.insert(name, first_key);
        self.can_rename = t;
    }

    /// Defines `name`.
    pub fn add_define_record(&mut self, name: String, record: DefineRecord<C>)
        ensures
            final(self).define_entries() == old(self).define_entries().insert(name@, record),
            final(self).define_keys() == keys_after_insert(old(self).define_entries(), old(self).define_keys(), name@),
            final(self).can_rename_entries() == old(self).can_rename_entries(),
            final(self).can_rename_keys() == old(self).can_rename_keys(),
            final(self).typeof_define_entries() == old(self).typeof_define_entries(),
            final(self).typeof_define_keys() == old(self).typeof_define_keys(),
            final(self).object_define_entries() == old(self).object_define_entries(),
            final(self).object_define_keys() == old(self).object_define_keys(),
            final(self).tiling_entries() == old(self).tiling_entries(),
    {
        proof { use_type_invariant(&*self); }
        let mut t = StrTable::new();
        std::mem::swap(&mut t, &mut self.define_record);
        t.insert(name, record);
        self.define_record = t;
    }

    /// Defines `typeof name`.
    pub fn add_typeof_define_record(&mut self, name: String, record: DefineRecord<C>)
        ensures
            final(self).typeof_define_entries() == old(self).typeof_define_entries().insert(name@, record),
            final(self).typeof_define_keys() == keys_after_insert(old(self).typeof_define_entries(), old(self).typeof_define_keys(), name@),
            final(self).can_rename_entries() == old(self).can_rename_entries(),
            final(self).can_rename_keys() == old(self).can_rename_keys(),
            final(self).define_entries() == old(self).define_entries(),
            final(self).define_keys() == old(self).define_keys(),
            final(self).object_define_entries() == old(self).object_define_entries(),
            final(self).object_define_keys() == old(self).object_define_keys(),
            final(self).tiling_entries() == old(self).tiling_entries(),
    {
        proof { use_type_invariant(&*self); }
        let mut t = StrTable::new();
        std::mem::swap(&mut t, &mut self.typeof_define_record);
        t.insert(name, record);
        self.typeof_define_record = t;
    }

    /// Defines `name` as an object whose members are defined too.
    pub fn add_object_define_record(&mut self, name: String, record: DefineRecord<C>)
        ensures
            final(self).object_define_entries() == old(self).object_define_entries().insert(name@, record),
            final(self).object_define_keys() == keys_after_insert(old(self).object_define_entries(), old(self).object_define_keys(), name@),
            final(self).can_rename_entries() == old(self).can_rename_entries(),
            final(self).can_rename_keys() == old(self).can_rename_keys(),
            final(self).define_entries() == old(self).define_entries(),
            final(self).define_keys() == old(self).define_keys(),
            final(self).typeof_define_entries() == old(self).typeof_define_entries(),
            final(self).typeof_define_keys() == old(self).typeof_define_keys(),
            final(self).tiling_entries() == old(self).tiling_entries(),
    {
        proof { use_type_invariant(&*self); }
        let mut t = StrTable::new();
        std::mem::swap(&mut t, &mut self.object_define_record);
        t.insert(name, record);
        self.object_define_record = t;
    }

    /// Records the source text of the definition of `name`.
    pub fn add_tiling_definition(&mut self, name: String, code: String)
        ensures
            final(self).tiling_entries() == old(self).tiling_entries().insert(name@, code),
            final(self).can_rename_entries() == old(self).can_rename_entries(),
            final(self).can_rename_keys() == old(self).can_rename_keys(),
            final(self).define_entries() == old(self).define_entries(),
            final(self).define_keys() == old(self).define_keys(),
            final(self).typeof_define_entries() == old(self).typeof_define_entries(),
            final(self).typeof_define_keys() == old(self).typeof_define_keys(),
            final(self).object_define_entries() == old(self).object_define_entries(),
            final(self).object_define_keys() == old(self).object_define_keys(),
    {
        proof { use_type_invariant(&*self); }
        let mut t = StrTable::new();
        std::mem::swap(&mut t, &mut self.tiling_definitions);
        t.insert(name, code);
        self.tiling_definitions = t;
    }
}


/// `Arc::clone`: the new handle shares the value of `a`.
#[verifier::external_body]
fn arc_clone<T>(a: &Arc<T>) -> (r: Arc<T>)
    ensures
        r == *a,
{
    Arc::clone(a)
}

/// `Arc::as_ptr`, as a number: where the value behind `a` is allocated.
///
/// Handles on one allocation give the same number, and allocations alive at the same time
/// give different numbers.  That rests on the machine's allocator, so no clause states it.
#[verifier::external_body]
fn allocation_address<T>(a: &Arc<T>) -> (r: u64) {
    Arc::as_ptr(a) as usize as u64
}

/// The define plugin, sharing its definitions between all the hooks it is registered on.
///
/// Each plugin built by `new` has recursion guards of its own, which its handles share: the
/// parser state keeps the guard ids of the plugins that are evaluating a definition, and a
/// plugin's guard id is where a token that the plugin alone owns is allocated.
pub struct DefineParserPlugin<C> {
    id: u64,
    token: Arc<u8>,
    walk_data: Arc<WalkData<C>>,
}

impl<C> DefineParserPlugin<C> {
    pub closed spec fn data(self) -> WalkData<C> {
        *self.walk_data
    }

    /// The id under which the plugin's recursion guards are kept.
    pub closed spec fn id(self) -> u64 {
        self.id
    }

    pub fn new(walk_data: Arc<WalkData<C>>) -> (p: Self)
        ensures
            p.data() == *walk_data,
    {
        let token = Arc::new(0u8);
        let id = allocation_address(&token);
        DefineParserPlugin { id, token, walk_data }
    }

    /// The id under which the plugin's recursion guards are kept in the parser state.
    pub fn guard_id(&self) -> (r: u64)
        ensures
            r == self.id(),
    {
        self.id
    }

    /// Another handle on the same plugin: the same definitions and the same guards.
    pub fn duplicate(&self) -> (p: Self)
        ensures
            p == *self,
    {
        DefineParserPlugin { id: self.id, token: arc_clone(&self.token), walk_data: arc_clone(&self.walk_data) }
    }
}

impl<C: DefineCallback> DefineParserPlugin<C> {
    /// The definition used for `name`: a plain one first, else a `typeof` one.
    pub open spec fn record_for(self, name: Seq<char>) -> Option<DefineRecord<C>> {
        if self.data().define_entries().contains_key(name) {
            Some(self.data().define_entries()[name])
        } else if self.data().typeof_define_entries().contains_key(name) {
            Some(self.data().typeof_define_entries()[name])
        } else {
            None
        }
    }

    /// The object definition for `name`, if any.
    pub open spec fn object_record_for(self, name: Seq<char>) -> Option<DefineRecord<C>> {
        if self.data().object_define_entries().contains_key(name) {
            Some(self.data().object_define_entries()[name])
        } else {
            None
        }
    }

    /// The state after the definition of `key` was recorded as a value dependency, when it has source text.
    pub open spec fn with_value_dependency(self, s: ParserStateView, key: Seq<char>) -> ParserStateView {
        if self.data().tiling_entries().contains_key(key) {
            ParserStateView {
                value_dependencies: s.value_dependencies.insert(VALUE_DEP_PREFIX@ + key, self.data().tiling_entries()[key]@),
                ..s
            }
        } else {
            s
        }
    }

    /// `can_rename`: `None` for names without a rename entry; otherwise `Some(false)` exactly
    /// when the first segment of the definition names a variable in scope that is not free.
    pub open spec fn spec_can_rename(self, s: ParserStateView, name: Seq<char>) -> (ParserStateView, Option<bool>) {
        if self.data().can_rename_entries().contains_key(name) {
            let s1 = self.with_value_dependency(s, name);
            match self.data().can_rename_entries()[name] {
                Some(first) => if s1.variables.contains_key(first@) && !s1.variables[first@] {
                    (s1, Some(false))
                } else {
                    (s1, Some(true))
                },
                None => (s1, Some(true)),
            }
        } else {
            (s, None)
        }
    }

    pub open spec fn spec_evaluate_typeof(self, s: ParserStateView, a: NamedRange) -> (ParserStateView, Option<EvaluatedView>) {
        match self.record_for(a.for_name) {
            Some(DefineRecord { on_evaluate_typeof: Some(cb), .. }) => {
                if s.define_typeof_recursion.contains(self.id()) {
                    (s, None)
                } else {
                    let s1 = self.with_value_dependency(
                        ParserStateView { define_typeof_recursion: s.define_typeof_recursion.insert(self.id()), ..s },
                        a.for_name,
                    );
                    let (s2, r) = cb.spec_evaluate_typeof(s1, a.span);
                    (ParserStateView { define_typeof_recursion: s2.define_typeof_recursion.remove(self.id()), ..s2 }, r)
                }
            },
            _ => if self.data().object_define_entries().contains_key(a.for_name) {
                (self.with_value_dependency(s, a.for_name), Some(EvaluatedView::Str { value: "object"@, range: a.span }))
            } else {
                (s, None)
            },
        }
    }

    pub open spec fn spec_evaluate_identifier(self, s: ParserStateView, a: NamedRange) -> (ParserStateView, Option<EvaluatedView>) {
        match self.record_for(a.for_name) {
            Some(DefineRecord { on_evaluate_identifier: Some(cb), .. }) => {
                if s.define_recursion.contains(self.id()) {
                    (s, None)
                } else {
                    let s1 = self.with_value_dependency(
                        ParserStateView { define_recursion: s.define_recursion.insert(self.id()), ..s },
                        a.for_name,
                    );
                    let (s2, r) = cb.spec_evaluate_identifier(s1, a.for_name, a.span.start, a.span.end);
                    (ParserStateView { define_recursion: s2.define_recursion.remove(self.id()), ..s2 }, r)
                }
            },
            _ => match self.object_record_for(a.for_name) {
                Some(DefineRecord { on_evaluate_identifier: Some(cb), .. }) => cb.spec_evaluate_identifier(
                    self.with_value_dependency(s, a.for_name),
                    a.for_name,
                    a.span.start,
                    a.span.end,
                ),
                _ => (s, None),
            },
        }
    }

    pub open spec fn spec_typeof(self, s: ParserStateView, a: NamedRange) -> (ParserStateView, Option<bool>) {
        match self.record_for(a.for_name) {
            Some(DefineRecord { on_typeof: Some(cb), .. }) => cb.spec_on_typeof(self.with_value_dependency(s, a.for_name), a.span),
            _ => if self.data().object_define_entries().contains_key(a.for_name) {
                (self.with_value_dependency(s, a.for_name).with_presentational(
                    DependencyView::DefineConst { range: a.span, code: "\"object\""@, for_name: a.for_name },
                ), Some(true))
            } else {
                (s, None)
            },
        }
    }

    /// `member` and `identifier`: the name used as an expression.
    pub open spec fn spec_expression(self, s: ParserStateView, a: NamedRange) -> (ParserStateView, Option<bool>) {
        match self.record_for(a.for_name) {
            Some(DefineRecord { on_expression: Some(cb), .. }) => cb.spec_on_expression(
                self.with_value_dependency(s, a.for_name),
                a.span,
                a.for_name,
            ),
            _ => match self.object_record_for(a.for_name) {
                Some(DefineRecord { on_expression: Some(cb), .. }) => cb.spec_on_expression(
                    self.with_value_dependency(s, a.for_name),
                    a.span,
                    a.for_name,
                ),
                _ => (s, None),
            },
        }
    }

    /// Whether `evaluate_typeof` hands the name to the `typeof` evaluation callback of its definition.
    pub open spec fn evaluate_typeof_calls_back(self, s: ParserStateView, a: NamedRange) -> bool {
        match self.record_for(a.for_name) {
            Some(DefineRecord { on_evaluate_typeof: Some(_), .. }) => !s.define_typeof_recursion.contains(self.id()),
            _ => false,
        }
    }

    /// Whether `evaluate_identifier` hands the name to the evaluation callback of its plain
    /// (or `typeof`) definition, under the recursion guard.
    pub open spec fn evaluate_identifier_calls_guarded(self, s: ParserStateView, a: NamedRange) -> bool {
        match self.record_for(a.for_name) {
            Some(DefineRecord { on_evaluate_identifier: Some(_), .. }) => !s.define_recursion.contains(self.id()),
            _ => false,
        }
    }

    /// Whether `evaluate_identifier` hands the name to an evaluation callback at all.
    pub open spec fn evaluate_identifier_calls_back(self, s: ParserStateView, a: NamedRange) -> bool {
        match self.record_for(a.for_name) {
            Some(DefineRecord { on_evaluate_identifier: Some(_), .. }) => !s.define_recursion.contains(self.id()),
            _ => match self.object_record_for(a.for_name) {
                Some(DefineRecord { on_evaluate_identifier: Some(_), .. }) => true,
                _ => false,
            },
        }
    }

    /// Whether `typeof name` is handed to the `typeof` callback of the definition.
    pub open spec fn typeof_calls_back(self, a: NamedRange) -> bool {
        match self.record_for(a.for_name) {
            Some(DefineRecord { on_typeof: Some(_), .. }) => true,
            _ => false,
        }
    }

    /// Whether the name used as an expression is handed to an expression callback.
    pub open spec fn expression_calls_back(self, a: NamedRange) -> bool {
        match self.record_for(a.for_name) {
            Some(DefineRecord { on_expression: Some(_), .. }) => true,
            _ => match self.object_record_for(a.for_name) {
                Some(DefineRecord { on_expression: Some(_), .. }) => true,
                _ => false,
            },
        }
    }

    /// `evaluate_typeof` of `name` hands it to no callback, whatever the state.
    pub open spec fn evaluate_typeof_callback_free(self, name: Seq<char>) -> bool {
        !(self.record_for(name) matches Some(r) && r.on_evaluate_typeof is Some)
    }

    /// `evaluate_identifier` of `name` hands it to no callback, whatever the state.
    pub open spec fn evaluate_identifier_callback_free(self, name: Seq<char>) -> bool {
        &&& !(self.record_for(name) matches Some(r) && r.on_evaluate_identifier is Some)
        &&& !(self.object_record_for(name) matches Some(o) && o.on_evaluate_identifier is Some)
    }

    /// `typeof name` is handed to no callback.
    pub open spec fn typeof_callback_free(self, name: Seq<char>) -> bool {
        !(self.record_for(name) matches Some(r) && r.on_typeof is Some)
    }

    /// `name` used as an expression is handed to no callback.
    pub open spec fn expression_callback_free(self, name: Seq<char>) -> bool {
        &&& !(self.record_for(name) matches Some(r) && r.on_expression is Some)
        &&& !(self.object_record_for(name) matches Some(o) && o.on_expression is Some)
    }

    /// Destructuring a defined name (plain or object definition) collects its properties.
    pub open spec fn spec_can_collect_destructuring_assignment_properties(self, name: Option<Seq<char>>) -> Option<bool> {
        match name {
            Some(n) => if self.data().define_entries().contains_key(n) || self.data().object_define_entries().contains_key(n) {
                Some(true)
            } else {
                None
            },
            None => None,
        }
    }

    /// Records the definition of `key` as a value dependency, when it has source text.
    pub fn add_value_dependency(&self, state: &mut ParserState, key: &str)
        ensures
            final(state)@ == self.with_value_dependency(old(state)@, key@),
    {
        let data: &WalkData<C> = &self.walk_data;
        proof { use_type_invariant(data); }
        if let Some(value) = data.tiling_definitions.get(key) {
            let mut cache_key = VALUE_DEP_PREFIX.to_owned();
            cache_key.append(key);
            state.insert_value_dependency(cache_key, value.clone());
        }
    }

    /// The definition used for `for_name`: a plain one first, else a `typeof` one.
    pub fn get_define_record(&self, for_name: &str) -> (r: Option<&DefineRecord<C>>)
        ensures
            match r {
                Some(rec) => self.record_for(for_name@) == Some(*rec),
                None => self.record_for(for_name@) is None,
            },
    {
        let data: &WalkData<C> = &self.walk_data;
        proof { use_type_invariant(data); }
        match data.define_record.get(for_name) {
            Some(rec) => Some(rec),
            None => data.typeof_define_record.get(for_name),
        }
    }

    pub fn can_rename(&self, state: &mut ParserState, name: &str) -> (r: Option<bool>)
        ensures
            (final(state)@, r) == self.spec_can_rename(old(state)@, name@),
    {
        let data: &WalkData<C> = &self.walk_data;
        proof { use_type_invariant(data); }
        if let Some(first_key) = data.can_rename.get(name) {
            self.add_value_dependency(state, name);
            if let Some(first) = first_key {
                if state.is_bound_variable(first.as_str()) {
                    return Some(false);
                }
            }
            return Some(true);
        }
        None
    }

    pub fn evaluate_typeof(&self, state: &mut ParserState, span: Span, for_name: &str) -> (r: Option<EvaluatedExpression>)
        ensures
            (C::obeys_define_spec() || !self.evaluate_typeof_calls_back(old(state)@, NamedRange { span, for_name: for_name@ }))
                ==> (final(state)@, option_view(r)) == self.spec_evaluate_typeof(old(state)@, NamedRange { span, for_name: for_name@ }),
            self.evaluate_typeof_calls_back(old(state)@, NamedRange { span, for_name: for_name@ }) ==> !final(state)@.define_typeof_recursion.contains(self.id()),
    {
        let data: &WalkData<C> = &self.walk_data;
        proof { use_type_invariant(data); }
        if let Some(record) = self.get_define_record(for_name) {
            if let Some(cb) = &record.on_evaluate_typeof {
                if state.define_typeof_recursion.contains(&self.id) {
                    return None;
                }
                state.define_typeof_recursion.insert(self.id);
                self.add_value_dependency(state, for_name);
                let evaluated = cb.evaluate_typeof(state, span);
                state.define_typeof_recursion.remove(&self.id);
                return evaluated;
            }
        }
        if data.object_define_record.contains_key(for_name) {
            self.add_value_dependency(state, for_name);
            return Some(evaluate_to_string("object".to_owned(), span.start, span.end));
        }
        None
    }

    pub fn evaluate_identifier(&self, state: &mut ParserState, for_name: &str, start: u32, end: u32) -> (r: Option<EvaluatedExpression>)
        ensures
            (C::obeys_define_spec() || !self.evaluate_identifier_calls_back(old(state)@, NamedRange { span: Span { start, end }, for_name: for_name@ }))
                ==> (final(state)@, option_view(r)) == self.spec_evaluate_identifier(
                old(state)@,
                NamedRange { span: Span { start, end }, for_name: for_name@ },
            ),
            self.evaluate_identifier_calls_guarded(old(state)@, NamedRange { span: Span { start, end }, for_name: for_name@ })
                ==> !final(state)@.define_recursion.contains(self.id()),
    {
        let data: &WalkData<C> = &self.walk_data;
        proof { use_type_invariant(data); }
        if let Some(record) = self.get_define_record(for_name) {
            if let Some(cb) = &record.on_evaluate_identifier {
                if state.define_recursion.contains(&self.id) {
                    return None;
                }
                state.define_recursion.insert(self.id);
                self.add_value_dependency(state, for_name);
                let evaluated = cb.evaluate_identifier(state, for_name, start, end);
                state.define_recursion.remove(&self.id);
                return evaluated;
            }
        }
        if let Some(record) = data.object_define_record.get(for_name) {
            if let Some(cb) = &record.on_evaluate_identifier {
                self.add_value_dependency(state, for_name);
                return cb.evaluate_identifier(state, for_name, start, end);
            }
        }
        None
    }

    pub fn type_of(&self, state: &mut ParserState, span: Span, for_name: &str) -> (r: Option<bool>)
        ensures
            (C::obeys_define_spec() || !self.typeof_calls_back(NamedRange { span, for_name: for_name@ }))
                ==> (final(state)@, r) == self.spec_typeof(old(state)@, NamedRange { span, for_name: for_name@ }),
    {
        let data: &WalkData<C> = &self.walk_data;
        proof { use_type_invariant(data); }
        if let Some(record) = self.get_define_record(for_name) {
            if let Some(cb) = &record.on_typeof {
                self.add_value_dependency(state, for_name);
                return cb.on_typeof(state, span);
            }
        }
        if data.object_define_record.contains_key(for_name) {
            self.add_value_dependency(state, for_name);
            state.add_presentational_dependency(
                Dependency::DefineConst { range: span, code: "\"object\"".to_owned(), for_name: for_name.to_owned() },
            );
            return Some(true);
        }
        None
    }

    /// The name used as an expression (a member chain or an identifier) at `span`.
    fn expression(&self, state: &mut ParserState, span: Span, for_name: &str) -> (r: Option<bool>)
        ensures
            (C::obeys_define_spec() || !self.expression_calls_back(NamedRange { span, for_name: for_name@ }))
                ==> (final(state)@, r) == self.spec_expression(old(state)@, NamedRange { span, for_name: for_name@ }),
    {
        let data: &WalkData<C> = &self.walk_data;
        proof { use_type_invariant(data); }
        if let Some(record) = self.get_define_record(for_name) {
            if let Some(cb) = &record.on_expression {
                self.add_value_dependency(state, for_name);
                return cb.on_expression(state, span, for_name);
            }
        }
        if let Some(record) = data.object_define_record.get(for_name) {
            if let Some(cb) = &record.on_expression {
                self.add_value_dependency(state, for_name);
                return cb.on_expression(state, span, for_name);
            }
        }
        None
    }

    pub fn member(&self, state: &mut ParserState, span: Span, for_name: &str) -> (r: Option<bool>)
        ensures
            (C::obeys_define_spec() || !self.expression_calls_back(NamedRange { span, for_name: for_name@ }))
                ==> (final(state)@, r) == self.spec_expression(old(state)@, NamedRange { span, for_name: for_name@ }),
    {
        self.expression(state, span, for_name)
    }

    pub fn identifier(&self, state: &mut ParserState, span: Span, for_name: &str) -> (r: Option<bool>)
        ensures
            (C::obeys_define_spec() || !self.expression_calls_back(NamedRange { span, for_name: for_name@ }))
                ==> (final(state)@, r) == self.spec_expression(old(state)@, NamedRange { span, for_name: for_name@ }),
    {
        self.expression(state, span, for_name)
    }

    pub fn can_collect_destructuring_assignment_properties(&self, member_expression_name: Option<&String>) -> (r: Option<bool>)
        ensures
            r == self.spec_can_collect_destructuring_assignment_properties(option_view(member_expression_name)),
    {
        let data: &WalkData<C> = &self.walk_data;
        proof { use_type_invariant(data); }
        match member_expression_name {
            Some(name) => {
                if data.define_record.contains_key(name.as_str()) || data.object_define_record.contains_key(name.as_str()) {
                    Some(true)
                } else {
                    None
                }
            },
            None => None,
        }
    }
}


/// The keys of `keys` that neither `a` nor `b` holds, in order.
pub open spec fn keys_outside<V, W>(keys: Seq<Seq<char>>, a: Map<Seq<char>, V>, b: Map<Seq<char>, W>) -> Seq<Seq<char>>
    decreases keys.len(),
{
    if keys.len() == 0 {
        Seq::empty()
    } else {
        let rest = keys_outside(keys.drop_last(), a, b);
        if a.contains_key(keys.last()) || b.contains_key(keys.last()) {
            rest
        } else {
            rest.push(keys.last())
        }
    }
}

/// The hooks after `tap` was registered for each key of `keys` on the five expression hooks.
pub open spec fn expression_registered<C>(h: HooksView<JavascriptParserPlugin<C>>, keys: Seq<Seq<char>>, tap: JavascriptParserPlugin<C>) -> HooksView<JavascriptParserPlugin<C>> {
    HooksView {
        evaluate_typeof: register_all(h.evaluate_typeof, keys, tap),
        evaluate_identifier: register_all(h.evaluate_identifier, keys, tap),
        type_of: register_all(h.type_of, keys, tap),
        member: register_all(h.member, keys, tap),
        identifier: register_all(h.identifier, keys, tap),
        ..h
    }
}

proof fn lemma_expression_registered_push<C>(h: HooksView<JavascriptParserPlugin<C>>, done: Seq<Seq<char>>, key: Seq<char>, t: JavascriptParserPlugin<C>)
    ensures
        expression_registered(h, done.push(key), t) == ({
            let e = expression_registered(h, done, t);
            HooksView {
                evaluate_typeof: registered(e.evaluate_typeof, key, t),
                evaluate_identifier: registered(e.evaluate_identifier, key, t),
                type_of: registered(e.type_of, key, t),
                member: registered(e.member, key, t),
                identifier: registered(e.identifier, key, t),
                ..e
            }
        }),
{
    assert(done.push(key).drop_last() =~= done);
    assert(done.push(key).last() == key);
}

impl<C: DefineCallback> DefineParserPlugin<C> {
    /// Every defined name once: plain definitions, then `typeof` definitions of other names,
    /// then object definitions of names defined in neither way.
    pub open spec fn expression_keys(self) -> Seq<Seq<char>> {
        let d = self.data();
        d.define_keys() + keys_outside(d.typeof_define_keys(), d.define_entries(), d.define_entries()) + keys_outside(
            d.object_define_keys(),
            d.define_entries(),
            d.typeof_define_entries(),
        )
    }

    /// The hooks after the plugin registered: `can_rename` for each renamable name; the five
    /// expression hooks for each defined name; destructuring once.
    pub open spec fn spec_apply(self, h: HooksView<JavascriptParserPlugin<C>>) -> HooksView<JavascriptParserPlugin<C>> {
        let t = JavascriptParserPlugin::Define(self);
        let h1 = HooksView { can_rename: register_all(h.can_rename, self.data().can_rename_keys(), t), ..h };
        let h2 = expression_registered(h1, self.expression_keys(), t);
        HooksView {
            can_collect_destructuring_assignment_properties: h2.can_collect_destructuring_assignment_properties.push(t),
            ..h2
        }
    }

    fn tap_expression_key(&self, hooks: &mut JavascriptParserHooks<C>, key: &str)
        requires
            old(hooks).wf(),
        ensures
            final(hooks).wf(),
            final(hooks)@ == (HooksView {
                evaluate_typeof: registered(old(hooks)@.evaluate_typeof, key@, JavascriptParserPlugin::Define(*self)),
                evaluate_identifier: registered(old(hooks)@.evaluate_identifier, key@, JavascriptParserPlugin::Define(*self)),
                type_of: registered(old(hooks)@.type_of, key@, JavascriptParserPlugin::Define(*self)),
                member: registered(old(hooks)@.member, key@, JavascriptParserPlugin::Define(*self)),
                identifier: registered(old(hooks)@.identifier, key@, JavascriptParserPlugin::Define(*self)),
                ..old(hooks)@
            }),
    {
        hooks.evaluate_typeof.tap_for(key, JavascriptParserPlugin::Define(self.duplicate()));
        hooks.evaluate_identifier.tap_for(key, JavascriptParserPlugin::Define(self.duplicate()));
        hooks.type_of.tap_for(key, JavascriptParserPlugin::Define(self.duplicate()));
        hooks.member.tap_for(key, JavascriptParserPlugin::Define(self.duplicate()));
        hooks.identifier.tap_for(key, JavascriptParserPlugin::Define(self.duplicate()));
    }

    /// Registers the plugin on the hooks.
    pub fn apply(&self, hooks: &mut JavascriptParserHooks<C>)
        requires
            old(hooks).wf(),
        ensures
            final(hooks).wf(),
            final(hooks)@ == self.spec_apply(old(hooks)@),
    {
        let data: &WalkData<C> = &self.walk_data;
        proof { use_type_invariant(data); }
        let ghost t = JavascriptParserPlugin::Define(*self);
        let ghost h0 = old(hooks)@;

        let n = data.can_rename.len();
        let mut i: usize = 0;
        assert(data.can_rename.key_order().take(0) =~= Seq::<Seq<char>>::empty());
        while i < n
            invariant
                t == JavascriptParserPlugin::Define(*self),
                n == data.can_rename.key_order().len(),
                data.can_rename.wf(),
                i <= n,
                hooks.wf(),
                hooks@ == (HooksView { can_rename: register_all(h0.can_rename, data.can_rename.key_order().take(i as int), t), ..h0 }),
            decreases n - i,
        {
            let key = data.can_rename.key_at(i);
            assert(data.can_rename.key_order().take(i + 1).drop_last() =~= data.can_rename.key_order().take(i as int));
            assert(data.can_rename.key_order().take(i + 1).last() == key@);
            hooks.can_rename.tap_for(key.as_str(), JavascriptParserPlugin::Define(self.duplicate()));
            i += 1;
        }
        assert(data.can_rename.key_order().take(n as int) =~= data.can_rename.key_order());
        let ghost h1 = hooks@;

        let ghost mut done: Seq<Seq<char>> = Seq::empty();
        let n = data.define_record.len();
        let mut i: usize = 0;
        while i < n
            invariant
                t == JavascriptParserPlugin::Define(*self),
                n == data.define_record.key_order().len(),
                data.define_record.wf(),
                i <= n,
                hooks.wf(),
                done == data.define_record.key_order().take(i as int),
                hooks@ == expression_registered(h1, done, t),
            decreases n - i,
        {
            let key = data.define_record.key_at(i);
            self.tap_expression_key(hooks, key.as_str());
            proof {
                assert(done.push(key@).drop_last() =~= done);
                lemma_expression_registered_push(h1, done, key@, t);
                done = done.push(key@);
                assert(data.define_record.key_order().take(i + 1) =~= done);
            }
            i += 1;
        }
        assert(data.define_record.key_order().take(n as int) =~= data.define_record.key_order());
        let ghost base = done;

        let n = data.typeof_define_record.len();
        let mut i: usize = 0;
        assert(base + Seq::<Seq<char>>::empty() =~= base);
        while i < n
            invariant
                t == JavascriptParserPlugin::Define(*self),
                n == data.typeof_define_record.key_order().len(),
                data.typeof_define_record.wf(),
                data.define_record.wf(),
                i <= n,
                hooks.wf(),
                done == base + keys_outside(data.typeof_define_record.key_order().take(i as int), data.define_record.entries(), data.define_record.entries()),
                hooks@ == expression_registered(h1, done, t),
            decreases n - i,
        {
            let key = data.typeof_define_record.key_at(i);
            let ghost prefix = data.typeof_define_record.key_order().take(i + 1);
            assert(prefix.drop_last() =~= data.typeof_define_record.key_order().take(i as int));
            assert(prefix.last() == key@);
            if !data.define_record.contains_key(key.as_str()) {
                self.tap_expression_key(hooks, key.as_str());
                proof {
                    assert(done.push(key@).drop_last() =~= done);
                    done = done.push(key@);
                    assert(done =~= base + keys_outside(prefix, data.define_record.entries(), data.define_record.entries()));
                }
            }
            i += 1;
        }
        assert(data.typeof_define_record.key_order().take(n as int) =~= data.typeof_define_record.key_order());
        let ghost base2 = done;

        let n = data.object_define_record.len();
        let mut i: usize = 0;
        assert(base2 + Seq::<Seq<char>>::empty() =~= base2);
        while i < n
            invariant
                t == JavascriptParserPlugin::Define(*self),
                n == data.object_define_record.key_order().len(),
                data.object_define_record.wf(),
                data.typeof_define_record.wf(),
                data.define_record.wf(),
                i <= n,
                hooks.wf(),
                done == base2 + keys_outside(data.object_define_record.key_order().take(i as int), data.define_record.entries(), data.typeof_define_record.entries()),
                hooks@ == expression_registered(h1, done, t),
            decreases n - i,
        {
            let key = data.object_define_record.key_at(i);
            let ghost prefix = data.object_define_record.key_order().take(i + 1);
            assert(prefix.drop_last() =~= data.object_define_record.key_order().take(i as int));
            assert(prefix.last() == key@);
            if !data.define_record.contains_key(key.as_str()) && !data.typeof_define_record.contains_key(key.as_str()) {
                self.tap_expression_key(hooks, key.as_str());
                proof {
                    assert(done.push(key@).drop_last() =~= done);
                    done = done.push(key@);
                    assert(done =~= base2 + keys_outside(prefix, data.define_record.entries(), data.typeof_define_record.entries()));
                }
            }
            i += 1;
        }
        assert(data.object_define_record.key_order().take(n as int) =~= data.object_define_record.key_order());
        assert(done =~= self.expression_keys());
        hooks.can_collect_destructuring_assignment_properties.tap(JavascriptParserPlugin::Define(self.duplicate()));
    }
}


/// `keys_outside` keeps the keys of `keys` that neither map holds, each as often as `keys` has it.
proof fn lemma_keys_outside<V, W>(keys: Seq<Seq<char>>, a: Map<Seq<char>, V>, b: Map<Seq<char>, W>)
    requires
        keys.no_duplicates(),
    ensures
        keys_outside(keys, a, b).no_duplicates(),
        forall|k: Seq<char>|
            #[trigger] keys_outside(keys, a, b).contains(k) <==> (keys.contains(k) && !a.contains_key(k) && !b.contains_key(k)),
    decreases keys.len(),
{
    if keys.len() > 0 {
        let init = keys.drop_last();
        assert(init.no_duplicates()) by {
            assert forall|i: int, j: int| 0 <= i < init.len() && 0 <= j < init.len() && i != j implies init[i] != init[j] by {
                assert(init[i] == keys[i] && init[j] == keys[j]);
            }
        }
        lemma_keys_outside(init, a, b);
        let rest = keys_outside(init, a, b);
        let last = keys.last();
        assert(!init.contains(last)) by {
            if init.contains(last) {
                let i = choose|i: int| 0 <= i < init.len() && init[i] == last;
                assert(keys[i] == keys[keys.len() - 1]);
            }
        }
        assert forall|k: Seq<char>| #[trigger] keys.contains(k) <==> (init.contains(k) || k == last) by {
            if keys.contains(k) && k != last {
                let i = choose|i: int| 0 <= i < keys.len() && keys[i] == k;
                assert(init[i] == k);
            }
            if init.contains(k) {
                let i = choose|i: int| 0 <= i < init.len() && init[i] == k;
                assert(keys[i] == k);
            }
            if k == last {
                assert(keys[keys.len() - 1] == k);
            }
        }
        if !(a.contains_key(last) || b.contains_key(last)) {
            assert(!rest.contains(last));
            assert forall|k: Seq<char>| #[trigger] rest.push(last).contains(k) <==> (rest.contains(k) || k == last) by {
                if rest.push(last).contains(k) && k != last {
                    let i = choose|i: int| 0 <= i < rest.push(last).len() && rest.push(last)[i] == k;
                    assert(rest[i] == k);
                }
                if rest.contains(k) {
                    let i = choose|i: int| 0 <= i < rest.len() && rest[i] == k;
                    assert(rest.push(last)[i] == k);
                }
                if k == last {
                    assert(rest.push(last)[rest.len() as int] == k);
                }
            }
        }
    }
}

/// Whether the define plugin has a definition of `name`, of any of the three kinds.
pub open spec fn is_defined<C: DefineCallback>(p: DefineParserPlugin<C>, name: Seq<char>) -> bool {
    ||| p.data().define_entries().contains_key(name)
    ||| p.data().typeof_define_entries().contains_key(name)
    ||| p.data().object_define_entries().contains_key(name)
}

/// The taps of one name after one more tap `t` was registered when `added` holds.
pub open spec fn taps_after<C>(taps: Seq<JavascriptParserPlugin<C>>, added: bool, t: JavascriptParserPlugin<C>) -> Seq<JavascriptParserPlugin<C>> {
    if added {
        taps.push(t)
    } else {
        taps
    }
}

/// Applying the define plugin registers it once on `can_rename` for each renamable name, once
/// on each of the five expression hooks for each defined name, and nowhere else.
pub proof fn lemma_define_apply_once_per_name<C: DefineCallback>(p: DefineParserPlugin<C>, h: HooksView<JavascriptParserPlugin<C>>, k: Seq<char>)
    requires
        p.data().tables_wf(),
    ensures
        ({
            let t = JavascriptParserPlugin::Define(p);
            let after = p.spec_apply(h);
            &&& taps_at(after.can_rename, k) == taps_after(taps_at(h.can_rename, k), p.data().can_rename_entries().contains_key(k), t)
            &&& taps_at(after.evaluate_typeof, k) == taps_after(taps_at(h.evaluate_typeof, k), is_defined(p, k), t)
            &&& taps_at(after.evaluate_identifier, k) == taps_after(taps_at(h.evaluate_identifier, k), is_defined(p, k), t)
            &&& taps_at(after.type_of, k) == taps_after(taps_at(h.type_of, k), is_defined(p, k), t)
            &&& taps_at(after.member, k) == taps_after(taps_at(h.member, k), is_defined(p, k), t)
            &&& taps_at(after.identifier, k) == taps_after(taps_at(h.identifier, k), is_defined(p, k), t)
        }),
{
    let d = p.data();
    let t = JavascriptParserPlugin::Define(p);
    d.can_rename.lemma_key_order();
    d.define_record.lemma_key_order();
    d.typeof_define_record.lemma_key_order();
    d.object_define_record.lemma_key_order();
    let dk = d.define_keys();
    let tk = d.typeof_define_keys();
    let ok = d.object_define_keys();
    let de = d.define_entries();
    let te = d.typeof_define_entries();
    let oe = d.object_define_entries();
    assert(dk.no_duplicates());
    assert(tk.no_duplicates());
    assert(ok.no_duplicates());
    lemma_keys_outside(tk, de, de);
    lemma_keys_outside(ok, de, te);
    let part2 = keys_outside(tk, de, de);
    let part3 = keys_outside(ok, de, te);
    let keys = p.expression_keys();
    assert(keys == dk + part2 + part3);
    assert forall|i: int, j: int| 0 <= i < j < keys.len() implies keys[i] != keys[j] by {
        let n1 = dk.len() as int;
        let n2 = n1 + part2.len();
        if j < n1 {
        } else if i < n1 && j < n2 {
            assert(de.contains_key(keys[i]));
            assert(part2.contains(keys[j]));
        } else if i < n1 {
            assert(de.contains_key(keys[i]));
            assert(part3.contains(keys[j]));
        } else if j < n2 {
            assert(keys[i] == part2[i - n1] && keys[j] == part2[j - n1]);
        } else if i < n2 {
            assert(part2.contains(keys[i]));
            assert(te.contains_key(keys[i]));
            assert(part3.contains(keys[j]));
        } else {
            assert(keys[i] == part3[i - n2] && keys[j] == part3[j - n2]);
        }
    }
    assert(keys.contains(k) == is_defined(p, k)) by {
        if is_defined(p, k) {
            if de.contains_key(k) {
                let i = choose|i: int| 0 <= i < dk.len() && dk[i] == k;
                assert(keys[i] == k);
            } else if te.contains_key(k) {
                assert(part2.contains(k));
                let i = choose|i: int| 0 <= i < part2.len() && part2[i] == k;
                assert(keys[dk.len() + i] == k);
            } else {
                assert(part3.contains(k));
                let i = choose|i: int| 0 <= i < part3.len() && part3[i] == k;
                assert(keys[dk.len() + part2.len() + i] == k);
            }
        }
        if keys.contains(k) {
            let i = choose|i: int| 0 <= i < keys.len() && keys[i] == k;
            if i < dk.len() {
                assert(dk[i] == k);
                assert(de.contains_key(dk[i]));
            } else if i < dk.len() + part2.len() {
                assert(part2[i - dk.len()] == k);
                assert(part2.contains(k));
                assert(tk.contains(k));
                let j = choose|j: int| 0 <= j < tk.len() && tk[j] == k;
                assert(te.contains_key(tk[j]));
            } else {
                assert(part3[i - dk.len() - part2.len()] == k);
                assert(part3.contains(k));
                assert(ok.contains(k));
                let j = choose|j: int| 0 <= j < ok.len() && ok[j] == k;
                assert(oe.contains_key(ok[j]));
            }
        }
    }
    let h1 = HooksView { can_rename: register_all(h.can_rename, d.can_rename_keys(), t), ..h };
    lemma_register_all_distinct(h.can_rename, d.can_rename_keys(), t, k);
    lemma_register_all_distinct(h1.evaluate_typeof, keys, t, k);
    lemma_register_all_distinct(h1.evaluate_identifier, keys, t, k);
    lemma_register_all_distinct(h1.type_of, keys, t, k);
    lemma_register_all_distinct(h1.member, keys, t, k);
    lemma_register_all_distinct(h1.identifier, keys, t, k);
    assert(d.can_rename_keys().contains(k) == d.can_rename_entries().contains_key(k));
}

/// The recursion guards are kept per plugin.  While a define plugin evaluates one of its
/// definitions, asking the same plugin again gives nothing and changes nothing, and once the
/// evaluation is over its guard is down again.  Whatever other define plugins are evaluating,
/// a plugin whose own guard is down hands the name to its callback, with its guard raised
/// and the value dependency recorded, and answers what the callback answers.
pub proof fn lemma_define_recursion_guard<C: DefineCallback>(p: DefineParserPlugin<C>, s: ParserStateView, a: NamedRange)
    ensures
        match p.record_for(a.for_name) {
            Some(DefineRecord { on_evaluate_identifier: Some(cb), .. }) => {
            &&& s.define_recursion.contains(p.id()) ==> p.spec_evaluate_identifier(s, a) == (s, None::<EvaluatedView>)
            &&& !s.define_recursion.contains(p.id()) ==> {
                let s1 = p.with_value_dependency(
                    ParserStateView { define_recursion: s.define_recursion.insert(p.id()), ..s },
                    a.for_name,
                );
                &&& p.spec_evaluate_identifier(s, a).1 == cb.spec_evaluate_identifier(s1, a.for_name, a.span.start, a.span.end).1
                &&& !p.spec_evaluate_identifier(s, a).0.define_recursion.contains(p.id())
            }
            },
            _ => true,
        },
        match p.record_for(a.for_name) {
            Some(DefineRecord { on_evaluate_typeof: Some(cb), .. }) => {
            &&& s.define_typeof_recursion.contains(p.id()) ==> p.spec_evaluate_typeof(s, a) == (s, None::<EvaluatedView>)
            &&& !s.define_typeof_recursion.contains(p.id()) ==> {
                let s1 = p.with_value_dependency(
                    ParserStateView { define_typeof_recursion: s.define_typeof_recursion.insert(p.id()), ..s },
                    a.for_name,
                );
                &&& p.spec_evaluate_typeof(s, a).1 == cb.spec_evaluate_typeof(s1, a.span).1
                &&& !p.spec_evaluate_typeof(s, a).0.define_typeof_recursion.contains(p.id())
            }
            },
            _ => true,
        },
{
}

/// Once the define plugin registered, a defined name used as a member expression is handed
/// to the expression callback of its plain (or `typeof`) definition, else of its object
/// definition, with the value dependency recorded first, and the callback's answer is the
/// hook's; with no such callback the name is left alone.  Taps registered before answer first.
pub proof fn lemma_define_member_hook<C: DefineCallback>(p: DefineParserPlugin<C>, h: HooksView<JavascriptParserPlugin<C>>, s: ParserStateView, span: Span, n: Seq<char>)
    requires
        p.data().tables_wf(),
    ensures
        ({
            let a = NamedRange { span, for_name: n };
            let (s1, r1) = map_bail::<MemberArgs, bool, C>(h.member, n, s, a);
            map_bail::<MemberArgs, bool, C>(p.spec_apply(h).member, n, s, a) == if r1 == Ok::<Option<bool>, Seq<char>>(None) {
                match p.record_for(n) {
                    Some(DefineRecord { on_expression: Some(cb), .. }) => {
                        let (s2, r2) = cb.spec_on_expression(p.with_value_dependency(s1, n), span, n);
                        (s2, Ok::<Option<bool>, Seq<char>>(r2))
                    },
                    _ => match p.object_record_for(n) {
                        Some(DefineRecord { on_expression: Some(cb), .. }) => {
                            let (s2, r2) = cb.spec_on_expression(p.with_value_dependency(s1, n), span, n);
                            (s2, Ok::<Option<bool>, Seq<char>>(r2))
                        },
                        _ => (s1, Ok::<Option<bool>, Seq<char>>(None)),
                    },
                }
            } else {
                (s1, r1)
            }
        }),
{
    lemma_define_apply_once_per_name(p, h, n);
    let t = JavascriptParserPlugin::Define(p);
    let a = NamedRange { span, for_name: n };
    lemma_map_bail_tap_added::<MemberArgs, bool, C>(h.member, p.spec_apply(h).member, n, is_defined(p, n), t, s, a);
}

/// As `lemma_define_member_hook`, for a defined name used as an identifier.
pub proof fn lemma_define_identifier_hook<C: DefineCallback>(p: DefineParserPlugin<C>, h: HooksView<JavascriptParserPlugin<C>>, s: ParserStateView, span: Span, n: Seq<char>)
    requires
        p.data().tables_wf(),
    ensures
        ({
            let a = NamedRange { span, for_name: n };
            let (s1, r1) = map_bail::<IdentifierArgs, bool, C>(h.identifier, n, s, a);
            map_bail::<IdentifierArgs, bool, C>(p.spec_apply(h).identifier, n, s, a) == if r1 == Ok::<Option<bool>, Seq<char>>(None) {
                match p.record_for(n) {
                    Some(DefineRecord { on_expression: Some(cb), .. }) => {
                        let (s2, r2) = cb.spec_on_expression(p.with_value_dependency(s1, n), span, n);
                        (s2, Ok::<Option<bool>, Seq<char>>(r2))
                    },
                    _ => match p.object_record_for(n) {
                        Some(DefineRecord { on_expression: Some(cb), .. }) => {
                            let (s2, r2) = cb.spec_on_expression(p.with_value_dependency(s1, n), span, n);
                            (s2, Ok::<Option<bool>, Seq<char>>(r2))
                        },
                        _ => (s1, Ok::<Option<bool>, Seq<char>>(None)),
                    },
                }
            } else {
                (s1, r1)
            }
        }),
{
    lemma_define_apply_once_per_name(p, h, n);
    let t = JavascriptParserPlugin::Define(p);
    let a = NamedRange { span, for_name: n };
    lemma_map_bail_tap_added::<IdentifierArgs, bool, C>(h.identifier, p.spec_apply(h).identifier, n, is_defined(p, n), t, s, a);
}

/// Once the define plugin registered, evaluating a defined name hands it to the evaluation
/// callback of its plain (or `typeof`) definition, under the plugin's own recursion guard, or,
/// when that definition has none, to the evaluation callback of its object definition, with
/// the value dependency recorded first; the callback's answer is the hook's.  Taps registered
/// before answer first.
pub proof fn lemma_define_evaluate_identifier_hook<C: DefineCallback>(p: DefineParserPlugin<C>, h: HooksView<JavascriptParserPlugin<C>>, s: ParserStateView, span: Span, n: Seq<char>)
    requires
        p.data().tables_wf(),
    ensures
        ({
            let a = NamedRange { span, for_name: n };
            let (s1, r1) = map_bail::<EvaluateIdentifierArgs, EvaluatedExpression, C>(h.evaluate_identifier, n, s, a);
            map_bail::<EvaluateIdentifierArgs, EvaluatedExpression, C>(p.spec_apply(h).evaluate_identifier, n, s, a) == if r1 == Ok::<Option<EvaluatedView>, Seq<char>>(None) {
                match p.record_for(n) {
                    Some(DefineRecord { on_evaluate_identifier: Some(cb), .. }) => if s1.define_recursion.contains(p.id()) {
                        (s1, Ok::<Option<EvaluatedView>, Seq<char>>(None))
                    } else {
                        let s2 = p.with_value_dependency(ParserStateView { define_recursion: s1.define_recursion.insert(p.id()), ..s1 }, n);
                        let (s3, r3) = cb.spec_evaluate_identifier(s2, n, span.start, span.end);
                        (ParserStateView { define_recursion: s3.define_recursion.remove(p.id()), ..s3 }, Ok::<Option<EvaluatedView>, Seq<char>>(r3))
                    },
                    _ => match p.object_record_for(n) {
                        Some(DefineRecord { on_evaluate_identifier: Some(cb), .. }) => {
                            let (s2, r2) = cb.spec_evaluate_identifier(p.with_value_dependency(s1, n), n, span.start, span.end);
                            (s2, Ok::<Option<EvaluatedView>, Seq<char>>(r2))
                        },
                        _ => (s1, Ok::<Option<EvaluatedView>, Seq<char>>(None)),
                    },
                }
            } else {
                (s1, r1)
            }
        }),
{
    lemma_define_apply_once_per_name(p, h, n);
    let t = JavascriptParserPlugin::Define(p);
    let a = NamedRange { span, for_name: n };
    lemma_map_bail_tap_added::<EvaluateIdentifierArgs, EvaluatedExpression, C>(h.evaluate_identifier, p.spec_apply(h).evaluate_identifier, n, is_defined(p, n), t, s, a);
}

/// Once the define plugin registered, evaluating `typeof name` hands the name to the `typeof`
/// evaluation callback of its plain (or `typeof`) definition, under the plugin's own recursion
/// guard; an object definition evaluates to `"object"`.  Taps registered before answer first.
pub proof fn lemma_define_evaluate_typeof_hook<C: DefineCallback>(p: DefineParserPlugin<C>, h: HooksView<JavascriptParserPlugin<C>>, s: ParserStateView, span: Span, n: Seq<char>)
    requires
        p.data().tables_wf(),
    ensures
        ({
            let a = NamedRange { span, for_name: n };
            let (s1, r1) = map_bail::<EvaluateTypeofArgs, EvaluatedExpression, C>(h.evaluate_typeof, n, s, a);
            map_bail::<EvaluateTypeofArgs, EvaluatedExpression, C>(p.spec_apply(h).evaluate_typeof, n, s, a) == if r1 == Ok::<Option<EvaluatedView>, Seq<char>>(None) {
                match p.record_for(n) {
                    Some(DefineRecord { on_evaluate_typeof: Some(cb), .. }) => if s1.define_typeof_recursion.contains(p.id()) {
                        (s1, Ok::<Option<EvaluatedView>, Seq<char>>(None))
                    } else {
                        let s2 = p.with_value_dependency(ParserStateView { define_typeof_recursion: s1.define_typeof_recursion.insert(p.id()), ..s1 }, n);
                        let (s3, r3) = cb.spec_evaluate_typeof(s2, span);
                        (ParserStateView { define_typeof_recursion: s3.define_typeof_recursion.remove(p.id()), ..s3 }, Ok::<Option<EvaluatedView>, Seq<char>>(r3))
                    },
                    _ => if p.data().object_define_entries().contains_key(n) {
                        (p.with_value_dependency(s1, n), Ok::<Option<EvaluatedView>, Seq<char>>(Some(EvaluatedView::Str { value: "object"@, range: span })))
                    } else {
                        (s1, Ok::<Option<EvaluatedView>, Seq<char>>(None))
                    },
                }
            } else {
                (s1, r1)
            }
        }),
{
    lemma_define_apply_once_per_name(p, h, n);
    let t = JavascriptParserPlugin::Define(p);
    let a = NamedRange { span, for_name: n };
    lemma_map_bail_tap_added::<EvaluateTypeofArgs, EvaluatedExpression, C>(h.evaluate_typeof, p.spec_apply(h).evaluate_typeof, n, is_defined(p, n), t, s, a);
}

/// Once the define plugin registered, `typeof name` is handed to the `typeof` callback of the
/// name's plain (or `typeof`) definition; for an object definition it is replaced by
/// `"object"`.  Taps registered before answer first.
pub proof fn lemma_define_typeof_hook<C: DefineCallback>(p: DefineParserPlugin<C>, h: HooksView<JavascriptParserPlugin<C>>, s: ParserStateView, span: Span, n: Seq<char>)
    requires
        p.data().tables_wf(),
    ensures
        ({
            let a = NamedRange { span, for_name: n };
            let (s1, r1) = map_bail::<TypeofArgs, bool, C>(h.type_of, n, s, a);
            map_bail::<TypeofArgs, bool, C>(p.spec_apply(h).type_of, n, s, a) == if r1 == Ok::<Option<bool>, Seq<char>>(None) {
                match p.record_for(n) {
                    Some(DefineRecord { on_typeof: Some(cb), .. }) => {
                        let (s2, r2) = cb.spec_on_typeof(p.with_value_dependency(s1, n), span);
                        (s2, Ok::<Option<bool>, Seq<char>>(r2))
                    },
                    _ => if p.data().object_define_entries().contains_key(n) {
                        (ParserStateView {
                            presentational_dependencies: p.with_value_dependency(s1, n).presentational_dependencies.push(
                                DependencyView::DefineConst { range: span, code: "\"object\""@, for_name: n },
                            ),
                            ..p.with_value_dependency(s1, n)
                        }, Ok::<Option<bool>, Seq<char>>(Some(true)))
                    } else {
                        (s1, Ok::<Option<bool>, Seq<char>>(None))
                    },
                }
            } else {
                (s1, r1)
            }
        }),
{
    lemma_define_apply_once_per_name(p, h, n);
    let t = JavascriptParserPlugin::Define(p);
    let a = NamedRange { span, for_name: n };
    lemma_map_bail_tap_added::<TypeofArgs, bool, C>(h.type_of, p.spec_apply(h).type_of, n, is_defined(p, n), t, s, a);
}

/// Once the define plugin registered, a name it may rename is renamable unless the first
/// segment of its definition is a variable in scope that is not free; the value dependency of
/// the name is recorded first.  Other names are left to other taps.  Taps registered before
/// answer first.
pub proof fn lemma_define_can_rename_hook<C: DefineCallback>(p: DefineParserPlugin<C>, h: HooksView<JavascriptParserPlugin<C>>, s: ParserStateView, n: Seq<char>)
    requires
        p.data().tables_wf(),
    ensures
        ({
            let (s1, r1) = map_bail::<CanRenameArgs, bool, C>(h.can_rename, n, s, n);
            map_bail::<CanRenameArgs, bool, C>(p.spec_apply(h).can_rename, n, s, n) == if r1 == Ok::<Option<bool>, Seq<char>>(None) {
                if p.data().can_rename_entries().contains_key(n) {
                    let s2 = p.with_value_dependency(s1, n);
                    let bound = match p.data().can_rename_entries()[n] {
                        Some(first) => s2.variables.contains_key(first@) && !s2.variables[first@],
                        None => false,
                    };
                    (s2, Ok::<Option<bool>, Seq<char>>(Some(!bound)))
                } else {
                    (s1, Ok::<Option<bool>, Seq<char>>(None))
                }
            } else {
                (s1, r1)
            }
        }),
{
    lemma_define_apply_once_per_name(p, h, n);
    let t = JavascriptParserPlugin::Define(p);
    lemma_map_bail_tap_added::<CanRenameArgs, bool, C>(
        h.can_rename,
        p.spec_apply(h).can_rename,
        n,
        p.data().can_rename_entries().contains_key(n),
        t,
        s,
        n,
    );
}

/// Once the define plugin registered, destructuring a member expression named by a plain or
/// object definition collects its properties, with the state unchanged; anything else is left
/// to other taps.  Taps registered before answer first.
pub proof fn lemma_define_destructuring_hook<C: DefineCallback>(p: DefineParserPlugin<C>, h: HooksView<JavascriptParserPlugin<C>>, s: ParserStateView, name: Option<Seq<char>>)
    ensures
        ({
            let (s1, r1) = bail_run::<ParserState, DestructuringArgs, bool, JavascriptParserPlugin<C>>(
                h.can_collect_destructuring_assignment_properties,
                s,
                name,
            );
            bail_run::<ParserState, DestructuringArgs, bool, JavascriptParserPlugin<C>>(
                p.spec_apply(h).can_collect_destructuring_assignment_properties,
                s,
                name,
            ) == if r1 == Ok::<Option<bool>, Seq<char>>(None) {
                (s1, Ok::<Option<bool>, Seq<char>>(
                    if name matches Some(n) && (p.data().define_entries().contains_key(n) || p.data().object_define_entries().contains_key(n)) {
                        Some(true)
                    } else {
                        None
                    },
                ))
            } else {
                (s1, r1)
            }
        }),
{
    lemma_bail_run_push::<ParserState, DestructuringArgs, bool, JavascriptParserPlugin<C>>(
        h.can_collect_destructuring_assignment_properties,
        JavascriptParserPlugin::Define(p),
        s,
        name,
    );
}

} // verus!

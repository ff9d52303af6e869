//! The parser's hooks, filled by the plugins, and the calls that the parser makes on them.
use vstd::prelude::*;
use crate::hook::{BailTap, HookMap, SyncBailHook, SyncHook, bail_run, sync_run, bail_taps_obey, lemma_bail_run_ok, lemma_bail_run_push, registered, taps_at};
use crate::parser_state::{ParserState, ParserStateView, EvaluatedExpression, EvaluatedView, Span, option_view};
use crate::args::{
    ProgramArgs, FinishArgs, CanRenameArgs, EvaluateTypeofArgs, EvaluateIdentifierArgs, TypeofArgs, MemberArgs,
    MemberChainArgs, CallMemberChainArgs, IdentifierArgs, ThisArgs, CallArgs, DestructuringArgs, NodeArgs, NamedNodeArgs,
    EvaluateCallExpressionMemberArgs,
};
use crate::plugin::{JavascriptParserPlugin, DefineCallback, plugins_applied};

verus! {

/// The taps of every hook: a sequence for a plain hook, a sequence per name for a hook map.
pub struct HooksView<P> {
    pub pre_statement: Seq<P>,
    pub block_pre_statement: Seq<P>,
    pub top_level_await_expr: Seq<P>,
    pub top_level_for_of_await_stmt: Seq<P>,
    pub can_rename: Map<Seq<char>, Seq<P>>,
    pub rename: Map<Seq<char>, Seq<P>>,
    pub program: Seq<P>,
    pub statement: Seq<P>,
    pub unused_statement: Seq<P>,
    pub module_declaration: Seq<P>,
    pub block_pre_module_declaration: Seq<P>,
    pub pre_declarator: Seq<P>,
    pub evaluate: Seq<P>,
    pub evaluate_typeof: Map<Seq<char>, Seq<P>>,
    pub evaluate_typeof_any: Seq<P>,
    pub evaluate_call_expression: Seq<P>,
    pub evaluate_call_expression_member: Seq<P>,
    pub evaluate_identifier: Map<Seq<char>, Seq<P>>,
    pub can_collect_destructuring_assignment_properties: Seq<P>,
    pub pattern: Map<Seq<char>, Seq<P>>,
    pub call: Map<Seq<char>, Seq<P>>,
    pub call_member_chain: Map<Seq<char>, Seq<P>>,
    pub member: Map<Seq<char>, Seq<P>>,
    pub member_chain: Map<Seq<char>, Seq<P>>,
    pub unhandled_expression_member_chain: Seq<P>,
    pub member_chain_of_call_member_chain: Map<Seq<char>, Seq<P>>,
    pub call_member_chain_of_call_member_chain: Map<Seq<char>, Seq<P>>,
    pub type_of: Map<Seq<char>, Seq<P>>,
    pub expression_logical_operator: Seq<P>,
    pub binary_expression: Seq<P>,
    pub statement_if: Seq<P>,
    pub class_extends_expression: Seq<P>,
    pub class_body_element: Seq<P>,
    pub class_body_value: Seq<P>,
    pub declarator: Seq<P>,
    pub new_expression: Map<Seq<char>, Seq<P>>,
    pub identifier: Map<Seq<char>, Seq<P>>,
    pub this: Map<Seq<char>, Seq<P>>,
    pub assign: Map<Seq<char>, Seq<P>>,
    pub assign_member_chain: Map<Seq<char>, Seq<P>>,
    pub import_call: Seq<P>,
    pub meta_property: Seq<P>,
    pub import: Seq<P>,
    pub import_specifier: Seq<P>,
    pub export_import: Seq<P>,
    pub export: Seq<P>,
    pub export_import_specifier: Seq<P>,
    pub export_specifier: Seq<P>,
    pub export_expression: Seq<P>,
    pub optional_chaining: Seq<P>,
    pub expression_conditional_operation: Seq<P>,
    pub finish: Seq<P>,
    pub is_pure: Seq<P>,
    pub import_meta_property_in_destructuring: Seq<P>,
}

/// Hooks with no taps.
pub open spec fn empty_hooks<P>() -> HooksView<P> {
    HooksView {
        pre_statement: Seq::empty(),
        block_pre_statement: Seq::empty(),
        top_level_await_expr: Seq::empty(),
        top_level_for_of_await_stmt: Seq::empty(),
        can_rename: Map::empty(),
        rename: Map::empty(),
        program: Seq::empty(),
        statement: Seq::empty(),
        unused_statement: Seq::empty(),
        module_declaration: Seq::empty(),
        block_pre_module_declaration: Seq::empty(),
        pre_declarator: Seq::empty(),
        evaluate: Seq::empty(),
        evaluate_typeof: Map::empty(),
        evaluate_typeof_any: Seq::empty(),
        evaluate_call_expression: Seq::empty(),
        evaluate_call_expression_member: Seq::empty(),
        evaluate_identifier: Map::empty(),
        can_collect_destructuring_assignment_properties: Seq::empty(),
        pattern: Map::empty(),
        call: Map::empty(),
        call_member_chain: Map::empty(),
        member: Map::empty(),
        member_chain: Map::empty(),
        unhandled_expression_member_chain: Seq::empty(),
        member_chain_of_call_member_chain: Map::empty(),
        call_member_chain_of_call_member_chain: Map::empty(),
        type_of: Map::empty(),
        expression_logical_operator: Seq::empty(),
        binary_expression: Seq::empty(),
        statement_if: Seq::empty(),
        class_extends_expression: Seq::empty(),
        class_body_element: Seq::empty(),
        class_body_value: Seq::empty(),
        declarator: Seq::empty(),
        new_expression: Map::empty(),
        identifier: Map::empty(),
        this: Map::empty(),
        assign: Map::empty(),
        assign_member_chain: Map::empty(),
        import_call: Seq::empty(),
        meta_property: Seq::empty(),
        import: Seq::empty(),
        import_specifier: Seq::empty(),
        export_import: Seq::empty(),
        export: Seq::empty(),
        export_import_specifier: Seq::empty(),
        export_specifier: Seq::empty(),
        export_expression: Seq::empty(),
        optional_chaining: Seq::empty(),
        expression_conditional_operation: Seq::empty(),
        finish: Seq::empty(),
        is_pure: Seq::empty(),
        import_meta_property_in_destructuring: Seq::empty(),
    }
}

/// The hooks of the JavaScript parser.
pub struct JavascriptParserHooks<C> {
    pub pre_statement: SyncBailHook<JavascriptParserPlugin<C>>,
    pub block_pre_statement: SyncBailHook<JavascriptParserPlugin<C>>,
    pub top_level_await_expr: SyncHook<JavascriptParserPlugin<C>>,
    pub top_level_for_of_await_stmt: SyncHook<JavascriptParserPlugin<C>>,
    pub can_rename: HookMap<SyncBailHook<JavascriptParserPlugin<C>>>,
    pub rename: HookMap<SyncBailHook<JavascriptParserPlugin<C>>>,
    pub program: SyncBailHook<JavascriptParserPlugin<C>>,
    pub statement: SyncBailHook<JavascriptParserPlugin<C>>,
    pub unused_statement: SyncBailHook<JavascriptParserPlugin<C>>,
    pub module_declaration: SyncBailHook<JavascriptParserPlugin<C>>,
    pub block_pre_module_declaration: SyncBailHook<JavascriptParserPlugin<C>>,
    pub pre_declarator: SyncBailHook<JavascriptParserPlugin<C>>,
    pub evaluate: SyncBailHook<JavascriptParserPlugin<C>>,
    pub evaluate_typeof: HookMap<SyncBailHook<JavascriptParserPlugin<C>>>,
    pub evaluate_typeof_any: SyncBailHook<JavascriptParserPlugin<C>>,
    pub evaluate_call_expression: SyncBailHook<JavascriptParserPlugin<C>>,
    pub evaluate_call_expression_member: SyncBailHook<JavascriptParserPlugin<C>>,
    pub evaluate_identifier: HookMap<SyncBailHook<JavascriptParserPlugin<C>>>,
    pub can_collect_destructuring_assignment_properties: SyncBailHook<JavascriptParserPlugin<C>>,
    pub pattern: HookMap<SyncBailHook<JavascriptParserPlugin<C>>>,
    pub call: HookMap<SyncBailHook<JavascriptParserPlugin<C>>>,
    pub call_member_chain: HookMap<SyncBailHook<JavascriptParserPlugin<C>>>,
    pub member: HookMap<SyncBailHook<JavascriptParserPlugin<C>>>,
    pub member_chain: HookMap<SyncBailHook<JavascriptParserPlugin<C>>>,
    pub unhandled_expression_member_chain: SyncBailHook<JavascriptParserPlugin<C>>,
    pub member_chain_of_call_member_chain: HookMap<SyncBailHook<JavascriptParserPlugin<C>>>,
    pub call_member_chain_of_call_member_chain: HookMap<SyncBailHook<JavascriptParserPlugin<C>>>,
    pub type_of: HookMap<SyncBailHook<JavascriptParserPlugin<C>>>,
    pub expression_logical_operator: SyncBailHook<JavascriptParserPlugin<C>>,
    pub binary_expression: SyncBailHook<JavascriptParserPlugin<C>>,
    pub statement_if: SyncBailHook<JavascriptParserPlugin<C>>,
    pub class_extends_expression: SyncBailHook<JavascriptParserPlugin<C>>,
    pub class_body_element: SyncBailHook<JavascriptParserPlugin<C>>,
    pub class_body_value: SyncBailHook<JavascriptParserPlugin<C>>,
    pub declarator: SyncBailHook<JavascriptParserPlugin<C>>,
    pub new_expression: HookMap<SyncBailHook<JavascriptParserPlugin<C>>>,
    pub identifier: HookMap<SyncBailHook<JavascriptParserPlugin<C>>>,
    pub this: HookMap<SyncBailHook<JavascriptParserPlugin<C>>>,
    pub assign: HookMap<SyncBailHook<JavascriptParserPlugin<C>>>,
    pub assign_member_chain: HookMap<SyncBailHook<JavascriptParserPlugin<C>>>,
    pub import_call: SyncBailHook<JavascriptParserPlugin<C>>,
    pub meta_property: SyncBailHook<JavascriptParserPlugin<C>>,
    pub import: SyncBailHook<JavascriptParserPlugin<C>>,
    pub import_specifier: SyncBailHook<JavascriptParserPlugin<C>>,
    pub export_import: SyncBailHook<JavascriptParserPlugin<C>>,
    pub export: SyncBailHook<JavascriptParserPlugin<C>>,
    pub export_import_specifier: SyncBailHook<JavascriptParserPlugin<C>>,
    pub export_specifier: SyncBailHook<JavascriptParserPlugin<C>>,
    pub export_expression: SyncBailHook<JavascriptParserPlugin<C>>,
    pub optional_chaining: SyncBailHook<JavascriptParserPlugin<C>>,
    pub expression_conditional_operation: SyncBailHook<JavascriptParserPlugin<C>>,
    pub finish: SyncBailHook<JavascriptParserPlugin<C>>,
    pub is_pure: SyncBailHook<JavascriptParserPlugin<C>>,
    pub import_meta_property_in_destructuring: SyncBailHook<JavascriptParserPlugin<C>>,
}

impl<C> View for JavascriptParserHooks<C> {
    type V = HooksView<JavascriptParserPlugin<C>>;

    open spec fn view(&self) -> HooksView<JavascriptParserPlugin<C>> {
        HooksView {
            pre_statement: self.pre_statement@,
            block_pre_statement: self.block_pre_statement@,
            top_level_await_expr: self.top_level_await_expr@,
            top_level_for_of_await_stmt: self.top_level_for_of_await_stmt@,
            can_rename: self.can_rename@,
            rename: self.rename@,
            program: self.program@,
            statement: self.statement@,
            unused_statement: self.unused_statement@,
            module_declaration: self.module_declaration@,
            block_pre_module_declaration: self.block_pre_module_declaration@,
            pre_declarator: self.pre_declarator@,
            evaluate: self.evaluate@,
            evaluate_typeof: self.evaluate_typeof@,
            evaluate_typeof_any: self.evaluate_typeof_any@,
            evaluate_call_expression: self.evaluate_call_expression@,
            evaluate_call_expression_member: self.evaluate_call_expression_member@,
            evaluate_identifier: self.evaluate_identifier@,
            can_collect_destructuring_assignment_properties: self.can_collect_destructuring_assignment_properties@,
            pattern: self.pattern@,
            call: self.call@,
            call_member_chain: self.call_member_chain@,
            member: self.member@,
            member_chain: self.member_chain@,
            unhandled_expression_member_chain: self.unhandled_expression_member_chain@,
            member_chain_of_call_member_chain: self.member_chain_of_call_member_chain@,
            call_member_chain_of_call_member_chain: self.call_member_chain_of_call_member_chain@,
            type_of: self.type_of@,
            expression_logical_operator: self.expression_logical_operator@,
            binary_expression: self.binary_expression@,
            statement_if: self.statement_if@,
            class_extends_expression: self.class_extends_expression@,
            class_body_element: self.class_body_element@,
            class_body_value: self.class_body_value@,
            declarator: self.declarator@,
            new_expression: self.new_expression@,
            identifier: self.identifier@,
            this: self.this@,
            assign: self.assign@,
            assign_member_chain: self.assign_member_chain@,
            import_call: self.import_call@,
            meta_property: self.meta_property@,
            import: self.import@,
            import_specifier: self.import_specifier@,
            export_import: self.export_import@,
            export: self.export@,
            export_import_specifier: self.export_import_specifier@,
            export_specifier: self.export_specifier@,
            export_expression: self.export_expression@,
            optional_chaining: self.optional_chaining@,
            expression_conditional_operation: self.expression_conditional_operation@,
            finish: self.finish@,
            is_pure: self.is_pure@,
            import_meta_property_in_destructuring: self.import_meta_property_in_destructuring@,
        }
    }
}

/// Calling the hook for `key` in a hook map: no answer when the name has no hook.
pub open spec fn map_bail<A: View, R: View, C>(
    m: Map<Seq<char>, Seq<JavascriptParserPlugin<C>>>,
    key: Seq<char>,
    s: ParserStateView,
    a: A::V,
) -> (ParserStateView, Result<Option<R::V>, Seq<char>>)
    where
        JavascriptParserPlugin<C>: BailTap<ParserState, A, R>,
{
    if m.contains_key(key) {
        bail_run::<ParserState, A, R, JavascriptParserPlugin<C>>(m[key], s, a)
    } else {
        (s, Ok(None))
    }
}

/// No tap of `taps` fails on `args`, whatever the state.
pub open spec fn never_fail<A: View, R: View, C>(taps: Seq<JavascriptParserPlugin<C>>, args: A::V) -> bool
    where
        JavascriptParserPlugin<C>: BailTap<ParserState, A, R>,
{
    forall|i: int, s: ParserStateView|
        0 <= i < taps.len() ==> (#[trigger] <JavascriptParserPlugin<C> as BailTap<ParserState, A, R>>::spec_run(
            &taps[i],
            s,
            args,
        )).1 is Ok
}

fn call_hook<C, A: View, R: View>(hook: &SyncBailHook<JavascriptParserPlugin<C>>, state: &mut ParserState, args: &A) -> (r: Option<R>)
    where
        JavascriptParserPlugin<C>: BailTap<ParserState, A, R>,
    requires
        never_fail::<A, R, C>(hook@, args@),
    ensures
        bail_taps_obey::<ParserState, A, R, JavascriptParserPlugin<C>>(hook@, args@) ==> bail_run::<ParserState, A, R, JavascriptParserPlugin<C>>(
            hook@,
            old(state)@,
            args@,
        ) == (final(state)@, Ok::<Option<R::V>, Seq<char>>(option_view(r))),
{
    proof {
        lemma_bail_run_ok::<ParserState, A, R, JavascriptParserPlugin<C>>(hook@, old(state)@, args@);
    }
    match hook.call(state, args) {
        Ok(r) => r,
        Err(_) => None,
    }
}

fn call_map<C, A: View, R: View>(m: &HookMap<SyncBailHook<JavascriptParserPlugin<C>>>, key: &str, state: &mut ParserState, args: &A) -> (r: Option<R>)
    where
        JavascriptParserPlugin<C>: BailTap<ParserState, A, R>,
    requires
        m.wf(),
        forall|k: Seq<char>| #[trigger] m@.contains_key(k) ==> never_fail::<A, R, C>(m@[k], args@),
    ensures
        bail_taps_obey::<ParserState, A, R, JavascriptParserPlugin<C>>(taps_at(m@, key@), args@) ==> map_bail::<A, R, C>(m@, key@, old(state)@, args@)
            == (final(state)@, Ok::<Option<R::V>, Seq<char>>(option_view(r))),
{
    match m.get(key) {
        Some(hook) => {
            assert(m@.contains_key(key@));
            call_hook(hook, state, args)
        },
        None => None,
    }
}

/// The plain hooks that no plugin of this crate taps run without failing and change nothing.
proof fn lemma_untapped_sync_run<C: DefineCallback>(taps: Seq<JavascriptParserPlugin<C>>, s: ParserStateView, a: Span)
    ensures
        sync_run::<ParserState, NodeArgs, JavascriptParserPlugin<C>>(taps, s, a) == (s, None::<Seq<char>>),
    decreases taps.len(),
{
    if taps.len() > 0 {
        lemma_untapped_sync_run::<C>(taps.drop_first(), s, a);
    }
}

fn call_sync_hook<C: DefineCallback>(hook: &SyncHook<JavascriptParserPlugin<C>>, state: &mut ParserState, args: &NodeArgs)
    ensures
        sync_run::<ParserState, NodeArgs, JavascriptParserPlugin<C>>(hook@, old(state)@, args@) == (final(state)@, None::<Seq<char>>),
{
    proof {
        lemma_untapped_sync_run::<C>(hook@, old(state)@, args@);
    }
    let _ = hook.call(state, args);
}

impl<C> JavascriptParserHooks<C> {
    /// Every hook map is well formed.
    pub open spec fn wf(&self) -> bool {
        self.can_rename.wf() &&
        self.rename.wf() &&
        self.evaluate_typeof.wf() &&
        self.evaluate_identifier.wf() &&
        self.pattern.wf() &&
        self.call.wf() &&
        self.call_member_chain.wf() &&
        self.member.wf() &&
        self.member_chain.wf() &&
        self.member_chain_of_call_member_chain.wf() &&
        self.call_member_chain_of_call_member_chain.wf() &&
        self.type_of.wf() &&
        self.new_expression.wf() &&
        self.identifier.wf() &&
        self.this.wf() &&
        self.assign.wf() &&
        self.assign_member_chain.wf()
    }

    /// Hooks with no taps.
    pub fn new_empty() -> (h: Self)
        ensures
            h.wf(),
            h@ == empty_hooks::<JavascriptParserPlugin<C>>(),
    {
        let h = JavascriptParserHooks {
            pre_statement: SyncBailHook::new(),
            block_pre_statement: SyncBailHook::new(),
            top_level_await_expr: SyncHook::new(),
            top_level_for_of_await_stmt: SyncHook::new(),
            can_rename: HookMap::new(),
            rename: HookMap::new(),
            program: SyncBailHook::new(),
            statement: SyncBailHook::new(),
            unused_statement: SyncBailHook::new(),
            module_declaration: SyncBailHook::new(),
            block_pre_module_declaration: SyncBailHook::new(),
            pre_declarator: SyncBailHook::new(),
            evaluate: SyncBailHook::new(),
            evaluate_typeof: HookMap::new(),
            evaluate_typeof_any: SyncBailHook::new(),
            evaluate_call_expression: SyncBailHook::new(),
            evaluate_call_expression_member: SyncBailHook::new(),
            evaluate_identifier: HookMap::new(),
            can_collect_destructuring_assignment_properties: SyncBailHook::new(),
            pattern: HookMap::new(),
            call: HookMap::new(),
            call_member_chain: HookMap::new(),
            member: HookMap::new(),
            member_chain: HookMap::new(),
            unhandled_expression_member_chain: SyncBailHook::new(),
            member_chain_of_call_member_chain: HookMap::new(),
            call_member_chain_of_call_member_chain: HookMap::new(),
            type_of: HookMap::new(),
            expression_logical_operator: SyncBailHook::new(),
            binary_expression: SyncBailHook::new(),
            statement_if: SyncBailHook::new(),
            class_extends_expression: SyncBailHook::new(),
            class_body_element: SyncBailHook::new(),
            class_body_value: SyncBailHook::new(),
            declarator: SyncBailHook::new(),
            new_expression: HookMap::new(),
            identifier: HookMap::new(),
            this: HookMap::new(),
            assign: HookMap::new(),
            assign_member_chain: HookMap::new(),
            import_call: SyncBailHook::new(),
            meta_property: SyncBailHook::new(),
            import: SyncBailHook::new(),
            import_specifier: SyncBailHook::new(),
            export_import: SyncBailHook::new(),
            export: SyncBailHook::new(),
            export_import_specifier: SyncBailHook::new(),
            export_specifier: SyncBailHook::new(),
            export_expression: SyncBailHook::new(),
            optional_chaining: SyncBailHook::new(),
            expression_conditional_operation: SyncBailHook::new(),
            finish: SyncBailHook::new(),
            is_pure: SyncBailHook::new(),
            import_meta_property_in_destructuring: SyncBailHook::new(),
        };
        assert(h.can_rename@ =~= Map::empty());
        assert(h.rename@ =~= Map::empty());
        assert(h.evaluate_typeof@ =~= Map::empty());
        assert(h.evaluate_identifier@ =~= Map::empty());
        assert(h.pattern@ =~= Map::empty());
        assert(h.call@ =~= Map::empty());
        assert(h.call_member_chain@ =~= Map::empty());
        assert(h.member@ =~= Map::empty());
        assert(h.member_chain@ =~= Map::empty());
        assert(h.member_chain_of_call_member_chain@ =~= Map::empty());
        assert(h.call_member_chain_of_call_member_chain@ =~= Map::empty());
        assert(h.type_of@ =~= Map::empty());
        assert(h.new_expression@ =~= Map::empty());
        assert(h.identifier@ =~= Map::empty());
        assert(h.this@ =~= Map::empty());
        assert(h.assign@ =~= Map::empty());
        assert(h.assign_member_chain@ =~= Map::empty());
        h
    }
}

impl<C: DefineCallback> JavascriptParserHooks<C> {
    /// The hooks after each plugin registered its taps, in the order of `plugins`.
    pub fn new(plugins: Vec<JavascriptParserPlugin<C>>) -> (h: Self)
        ensures
            h.wf(),
            h@ == plugins_applied(empty_hooks::<JavascriptParserPlugin<C>>(), plugins@),
    {
        let mut hooks = Self::new_empty();
        let mut i: usize = 0;
        while i < plugins.len()
            invariant
                i <= plugins.len(),
                hooks.wf(),
                hooks@ == plugins_applied(empty_hooks::<JavascriptParserPlugin<C>>(), plugins@.take(i as int)),
            decreases plugins.len() - i,
        {
            assert(plugins@.take(i + 1).drop_last() =~= plugins@.take(i as int));
            plugins[i].apply(&mut hooks);
            i += 1;
        }
        assert(plugins@.take(i as int) =~= plugins@);
        hooks
    }

    pub fn program(&self, state: &mut ParserState, args: &ProgramArgs) -> (r: Option<bool>)
        ensures
            bail_run::<ParserState, ProgramArgs, bool, JavascriptParserPlugin<C>>(self@.program, old(state)@, args@)
                == (final(state)@, Ok::<Option<bool>, Seq<char>>(r)),
    {
        call_hook(&self.program, state, args)
    }

    pub fn finish(&self, state: &mut ParserState) -> (r: Option<bool>)
        ensures
            bail_run::<ParserState, FinishArgs, bool, JavascriptParserPlugin<C>>(self@.finish, old(state)@, ())
                == (final(state)@, Ok::<Option<bool>, Seq<char>>(r)),
    {
        call_hook(&self.finish, state, &FinishArgs)
    }

    pub fn can_rename(&self, state: &mut ParserState, args: &CanRenameArgs) -> (r: Option<bool>)
        requires
            self.wf(),
        ensures
            map_bail::<CanRenameArgs, bool, C>(self@.can_rename, args.for_name@, old(state)@, args@) == (final(state)@, Ok::<Option<bool>, Seq<char>>(r)),
    {
        call_map(&self.can_rename, args.for_name.as_str(), state, args)
    }

    /// The hook for the name answers first; when it does not, `evaluate_typeof_any` is asked.
    /// The answer is exact when every tap under the name follows its `spec_run`: every plugin
    /// but the define plugin does, and a define plugin does when its callback type states its
    /// behaviour or no callback of it is reached for the name.
    pub fn evaluate_typeof(&self, state: &mut ParserState, args: &EvaluateTypeofArgs) -> (r: Option<EvaluatedExpression>)
        requires
            self.wf(),
        ensures
            (bail_taps_obey::<ParserState, EvaluateTypeofArgs, EvaluatedExpression, JavascriptParserPlugin<C>>(taps_at(self@.evaluate_typeof, args.for_name@), args@)
                && bail_taps_obey::<ParserState, EvaluateTypeofArgs, EvaluatedExpression, JavascriptParserPlugin<C>>(self@.evaluate_typeof_any, args@))
                ==> (final(state)@, Ok::<Option<EvaluatedView>, Seq<char>>(option_view(r))) == {
                let (s1, r1) = map_bail::<EvaluateTypeofArgs, EvaluatedExpression, C>(
                    self@.evaluate_typeof,
                    args.for_name@,
                    old(state)@,
                    args@,
                );
                if r1 is Ok && r1->Ok_0 is Some {
                    (s1, r1)
                } else {
                    bail_run::<ParserState, EvaluateTypeofArgs, EvaluatedExpression, JavascriptParserPlugin<C>>(
                        self@.evaluate_typeof_any,
                        s1,
                        args@,
                    )
                }
            },
    {
        match call_map(&self.evaluate_typeof, args.for_name.as_str(), state, args) {
            Some(r) => Some(r),
            None => call_hook(&self.evaluate_typeof_any, state, args),
        }
    }

    /// The answer is exact when every tap under the name follows its `spec_run`: every plugin
    /// but the define plugin does, and a define plugin does when its callback type states its
    /// behaviour or no callback of it is reached for the name.
    pub fn evaluate_identifier(&self, state: &mut ParserState, args: &EvaluateIdentifierArgs) -> (r: Option<EvaluatedExpression>)
        requires
            self.wf(),
        ensures
            bail_taps_obey::<ParserState, EvaluateIdentifierArgs, EvaluatedExpression, JavascriptParserPlugin<C>>(taps_at(self@.evaluate_identifier, args.for_name@), args@) ==> map_bail::<EvaluateIdentifierArgs, EvaluatedExpression, C>(
                self@.evaluate_identifier,
                args.for_name@,
                old(state)@,
                args@,
            ) == (final(state)@, Ok::<Option<EvaluatedView>, Seq<char>>(option_view(r))),
    {
        call_map(&self.evaluate_identifier, args.for_name.as_str(), state, args)
    }

    /// The answer is exact when every tap under the name follows its `spec_run`: every plugin
    /// but the define plugin does, and a define plugin does when its callback type states its
    /// behaviour or no callback of it is reached for the name.
    pub fn type_of(&self, state: &mut ParserState, args: &TypeofArgs) -> (r: Option<bool>)
        requires
            self.wf(),
        ensures
            bail_taps_obey::<ParserState, TypeofArgs, bool, JavascriptParserPlugin<C>>(taps_at(self@.type_of, args.for_name@), args@)
                ==> map_bail::<TypeofArgs, bool, C>(self@.type_of, args.for_name@, old(state)@, args@) == (final(state)@, Ok::<Option<bool>, Seq<char>>(r)),
    {
        call_map(&self.type_of, args.for_name.as_str(), state, args)
    }

    /// The answer is exact when every tap under the name follows its `spec_run`: every plugin
    /// but the define plugin does, and a define plugin does when its callback type states its
    /// behaviour or no callback of it is reached for the name.
    pub fn member(&self, state: &mut ParserState, args: &MemberArgs) -> (r: Option<bool>)
        requires
            self.wf(),
        ensures
            bail_taps_obey::<ParserState, MemberArgs, bool, JavascriptParserPlugin<C>>(taps_at(self@.member, args.for_name@), args@)
                ==> map_bail::<MemberArgs, bool, C>(self@.member, args.for_name@, old(state)@, args@) == (final(state)@, Ok::<Option<bool>, Seq<char>>(r)),
    {
        call_map(&self.member, args.for_name.as_str(), state, args)
    }

    pub fn member_chain(&self, state: &mut ParserState, args: &MemberChainArgs) -> (r: Option<bool>)
        requires
            self.wf(),
        ensures
            map_bail::<MemberChainArgs, bool, C>(self@.member_chain, args.for_name@, old(state)@, args@) == (final(state)@, Ok::<Option<bool>, Seq<char>>(r)),
    {
        call_map(&self.member_chain, args.for_name.as_str(), state, args)
    }

    /// The answer is exact when every tap under the name follows its `spec_run`: every plugin
    /// but the define plugin does, and a define plugin does when its callback type states its
    /// behaviour or no callback of it is reached for the name.
    pub fn identifier(&self, state: &mut ParserState, args: &IdentifierArgs) -> (r: Option<bool>)
        requires
            self.wf(),
        ensures
            bail_taps_obey::<ParserState, IdentifierArgs, bool, JavascriptParserPlugin<C>>(taps_at(self@.identifier, args.for_name@), args@)
                ==> map_bail::<IdentifierArgs, bool, C>(self@.identifier, args.for_name@, old(state)@, args@) == (final(state)@, Ok::<Option<bool>, Seq<char>>(r)),
    {
        call_map(&self.identifier, args.for_name.as_str(), state, args)
    }

    pub fn this(&self, state: &mut ParserState, args: &ThisArgs) -> (r: Option<bool>)
        requires
            self.wf(),
        ensures
            map_bail::<ThisArgs, bool, C>(self@.this, args.for_name@, old(state)@, args@) == (final(state)@, Ok::<Option<bool>, Seq<char>>(r)),
    {
        call_map(&self.this, args.for_name.as_str(), state, args)
    }

    pub fn call(&self, state: &mut ParserState, args: &CallArgs) -> (r: Option<bool>)
        requires
            self.wf(),
        ensures
            map_bail::<CallArgs, bool, C>(self@.call, args.for_name@, old(state)@, args@) == (final(state)@, Ok::<Option<bool>, Seq<char>>(r)),
    {
        call_map(&self.call, args.for_name.as_str(), state, args)
    }

    pub fn call_member_chain(&self, state: &mut ParserState, args: &CallMemberChainArgs) -> (r: Option<bool>)
        requires
            self.wf(),
        ensures
            map_bail::<CallMemberChainArgs, bool, C>(self@.call_member_chain, args.for_name@, old(state)@, args@) == (final(state)@, Ok::<Option<bool>, Seq<char>>(r)),
    {
        call_map(&self.call_member_chain, args.for_name.as_str(), state, args)
    }

    /// `call_member_chain` for a call whose callee is an expression.
    pub fn call_member_chain_from_call_expr(&self, state: &mut ParserState, args: &CallMemberChainArgs) -> (r: Option<bool>)
        requires
            self.wf(),
            args.callee_is_expression,
        ensures
            map_bail::<CallMemberChainArgs, bool, C>(self@.call_member_chain, args.for_name@, old(state)@, args@) == (final(state)@, Ok::<Option<bool>, Seq<char>>(r)),
    {
        self.call_member_chain(state, args)
    }

    pub fn can_collect_destructuring_assignment_properties(&self, state: &mut ParserState, args: &DestructuringArgs) -> (r: Option<bool>)
        ensures
            bail_run::<ParserState, DestructuringArgs, bool, JavascriptParserPlugin<C>>(
                self@.can_collect_destructuring_assignment_properties,
                old(state)@,
                args@,
            ) == (final(state)@, Ok::<Option<bool>, Seq<char>>(r)),
    {
        call_hook(&self.can_collect_destructuring_assignment_properties, state, args)
    }

    pub fn pre_statement(&self, state: &mut ParserState, args: &NodeArgs) -> (r: Option<bool>)
        ensures
            bail_run::<ParserState, NodeArgs, bool, JavascriptParserPlugin<C>>(self@.pre_statement, old(state)@, args@)
                == (final(state)@, Ok::<Option<bool>, Seq<char>>(r)),
    {
        call_hook(&self.pre_statement, state, args)
    }

    pub fn block_pre_statement(&self, state: &mut ParserState, args: &NodeArgs) -> (r: Option<bool>)
        ensures
            bail_run::<ParserState, NodeArgs, bool, JavascriptParserPlugin<C>>(self@.block_pre_statement, old(state)@, args@)
                == (final(state)@, Ok::<Option<bool>, Seq<char>>(r)),
    {
        call_hook(&self.block_pre_statement, state, args)
    }

    pub fn top_level_await_expr(&self, state: &mut ParserState, args: &NodeArgs)
        ensures
            sync_run::<ParserState, NodeArgs, JavascriptParserPlugin<C>>(self@.top_level_await_expr, old(state)@, args@) == (final(state)@, None::<Seq<char>>),
    {
        call_sync_hook(&self.top_level_await_expr, state, args)
    }

    pub fn top_level_for_of_await_stmt(&self, state: &mut ParserState, args: &NodeArgs)
        ensures
            sync_run::<ParserState, NodeArgs, JavascriptParserPlugin<C>>(self@.top_level_for_of_await_stmt, old(state)@, args@) == (final(state)@, None::<Seq<char>>),
    {
        call_sync_hook(&self.top_level_for_of_await_stmt, state, args)
    }

    pub fn rename(&self, state: &mut ParserState, args: &NamedNodeArgs) -> (r: Option<bool>)
        requires
            self.wf(),
        ensures
            map_bail::<NamedNodeArgs, bool, C>(self@.rename, args.for_name@, old(state)@, args@) == (final(state)@, Ok::<Option<bool>, Seq<char>>(r)),
    {
        call_map(&self.rename, args.for_name.as_str(), state, args)
    }

    pub fn statement(&self, state: &mut ParserState, args: &NodeArgs) -> (r: Option<bool>)
        ensures
            bail_run::<ParserState, NodeArgs, bool, JavascriptParserPlugin<C>>(self@.statement, old(state)@, args@)
                == (final(state)@, Ok::<Option<bool>, Seq<char>>(r)),
    {
        call_hook(&self.statement, state, args)
    }

    pub fn unused_statement(&self, state: &mut ParserState, args: &NodeArgs) -> (r: Option<bool>)
        ensures
            bail_run::<ParserState, NodeArgs, bool, JavascriptParserPlugin<C>>(self@.unused_statement, old(state)@, args@)
                == (final(state)@, Ok::<Option<bool>, Seq<char>>(r)),
    {
        call_hook(&self.unused_statement, state, args)
    }

    pub fn module_declaration(&self, state: &mut ParserState, args: &NodeArgs) -> (r: Option<bool>)
        ensures
            bail_run::<ParserState, NodeArgs, bool, JavascriptParserPlugin<C>>(self@.module_declaration, old(state)@, args@)
                == (final(state)@, Ok::<Option<bool>, Seq<char>>(r)),
    {
        call_hook(&self.module_declaration, state, args)
    }

    pub fn block_pre_module_declaration(&self, state: &mut ParserState, args: &NodeArgs) -> (r: Option<bool>)
        ensures
            bail_run::<ParserState, NodeArgs, bool, JavascriptParserPlugin<C>>(self@.block_pre_module_declaration, old(state)@, args@)
                == (final(state)@, Ok::<Option<bool>, Seq<char>>(r)),
    {
        call_hook(&self.block_pre_module_declaration, state, args)
    }

    pub fn pre_declarator(&self, state: &mut ParserState, args: &NodeArgs) -> (r: Option<bool>)
        ensures
            bail_run::<ParserState, NodeArgs, bool, JavascriptParserPlugin<C>>(self@.pre_declarator, old(state)@, args@)
                == (final(state)@, Ok::<Option<bool>, Seq<char>>(r)),
    {
        call_hook(&self.pre_declarator, state, args)
    }

    pub fn evaluate(&self, state: &mut ParserState, args: &NodeArgs) -> (r: Option<EvaluatedExpression>)
        ensures
            bail_run::<ParserState, NodeArgs, EvaluatedExpression, JavascriptParserPlugin<C>>(self@.evaluate, old(state)@, args@)
                == (final(state)@, Ok::<Option<EvaluatedView>, Seq<char>>(option_view(r))),
    {
        call_hook(&self.evaluate, state, args)
    }

    pub fn evaluate_call_expression(&self, state: &mut ParserState, args: &NamedNodeArgs) -> (r: Option<EvaluatedExpression>)
        ensures
            bail_run::<ParserState, NamedNodeArgs, EvaluatedExpression, JavascriptParserPlugin<C>>(self@.evaluate_call_expression, old(state)@, args@)
                == (final(state)@, Ok::<Option<EvaluatedView>, Seq<char>>(option_view(r))),
    {
        call_hook(&self.evaluate_call_expression, state, args)
    }

    pub fn evaluate_call_expression_member(&self, state: &mut ParserState, args: &EvaluateCallExpressionMemberArgs) -> (r: Option<EvaluatedExpression>)
        ensures
            bail_run::<ParserState, EvaluateCallExpressionMemberArgs, EvaluatedExpression, JavascriptParserPlugin<C>>(self@.evaluate_call_expression_member, old(state)@, args@)
                == (final(state)@, Ok::<Option<EvaluatedView>, Seq<char>>(option_view(r))),
    {
        call_hook(&self.evaluate_call_expression_member, state, args)
    }

    pub fn pattern(&self, state: &mut ParserState, args: &NamedNodeArgs) -> (r: Option<bool>)
        requires
            self.wf(),
        ensures
            map_bail::<NamedNodeArgs, bool, C>(self@.pattern, args.for_name@, old(state)@, args@) == (final(state)@, Ok::<Option<bool>, Seq<char>>(r)),
    {
        call_map(&self.pattern, args.for_name.as_str(), state, args)
    }

    pub fn unhandled_expression_member_chain(&self, state: &mut ParserState, args: &NodeArgs) -> (r: Option<bool>)
        ensures
            bail_run::<ParserState, NodeArgs, bool, JavascriptParserPlugin<C>>(self@.unhandled_expression_member_chain, old(state)@, args@)
                == (final(state)@, Ok::<Option<bool>, Seq<char>>(r)),
    {
        call_hook(&self.unhandled_expression_member_chain, state, args)
    }

    pub fn member_chain_of_call_member_chain(&self, state: &mut ParserState, args: &NamedNodeArgs) -> (r: Option<bool>)
        requires
            self.wf(),
        ensures
            map_bail::<NamedNodeArgs, bool, C>(self@.member_chain_of_call_member_chain, args.for_name@, old(state)@, args@) == (final(state)@, Ok::<Option<bool>, Seq<char>>(r)),
    {
        call_map(&self.member_chain_of_call_member_chain, args.for_name.as_str(), state, args)
    }

    pub fn call_member_chain_of_call_member_chain(&self, state: &mut ParserState, args: &NamedNodeArgs) -> (r: Option<bool>)
        requires
            self.wf(),
        ensures
            map_bail::<NamedNodeArgs, bool, C>(self@.call_member_chain_of_call_member_chain, args.for_name@, old(state)@, args@) == (final(state)@, Ok::<Option<bool>, Seq<char>>(r)),
    {
        call_map(&self.call_member_chain_of_call_member_chain, args.for_name.as_str(), state, args)
    }

    pub fn expression_logical_operator(&self, state: &mut ParserState, args: &NodeArgs) -> (r: Option<bool>)
        ensures
            bail_run::<ParserState, NodeArgs, bool, JavascriptParserPlugin<C>>(self@.expression_logical_operator, old(state)@, args@)
                == (final(state)@, Ok::<Option<bool>, Seq<char>>(r)),
    {
        call_hook(&self.expression_logical_operator, state, args)
    }

    pub fn binary_expression(&self, state: &mut ParserState, args: &NodeArgs) -> (r: Option<bool>)
        ensures
            bail_run::<ParserState, NodeArgs, bool, JavascriptParserPlugin<C>>(self@.binary_expression, old(state)@, args@)
                == (final(state)@, Ok::<Option<bool>, Seq<char>>(r)),
    {
        call_hook(&self.binary_expression, state, args)
    }

    pub fn statement_if(&self, state: &mut ParserState, args: &NodeArgs) -> (r: Option<bool>)
        ensures
            bail_run::<ParserState, NodeArgs, bool, JavascriptParserPlugin<C>>(self@.statement_if, old(state)@, args@)
                == (final(state)@, Ok::<Option<bool>, Seq<char>>(r)),
    {
        call_hook(&self.statement_if, state, args)
    }

    pub fn class_extends_expression(&self, state: &mut ParserState, args: &NodeArgs) -> (r: Option<bool>)
        ensures
            bail_run::<ParserState, NodeArgs, bool, JavascriptParserPlugin<C>>(self@.class_extends_expression, old(state)@, args@)
                == (final(state)@, Ok::<Option<bool>, Seq<char>>(r)),
    {
        call_hook(&self.class_extends_expression, state, args)
    }

    pub fn class_body_element(&self, state: &mut ParserState, args: &NodeArgs) -> (r: Option<bool>)
        ensures
            bail_run::<ParserState, NodeArgs, bool, JavascriptParserPlugin<C>>(self@.class_body_element, old(state)@, args@)
                == (final(state)@, Ok::<Option<bool>, Seq<char>>(r)),
    {
        call_hook(&self.class_body_element, state, args)
    }

    pub fn class_body_value(&self, state: &mut ParserState, args: &NodeArgs) -> (r: Option<bool>)
        ensures
            bail_run::<ParserState, NodeArgs, bool, JavascriptParserPlugin<C>>(self@.class_body_value, old(state)@, args@)
                == (final(state)@, Ok::<Option<bool>, Seq<char>>(r)),
    {
        call_hook(&self.class_body_value, state, args)
    }

    pub fn declarator(&self, state: &mut ParserState, args: &NodeArgs) -> (r: Option<bool>)
        ensures
            bail_run::<ParserState, NodeArgs, bool, JavascriptParserPlugin<C>>(self@.declarator, old(state)@, args@)
                == (final(state)@, Ok::<Option<bool>, Seq<char>>(r)),
    {
        call_hook(&self.declarator, state, args)
    }

    pub fn new_expression(&self, state: &mut ParserState, args: &NamedNodeArgs) -> (r: Option<bool>)
        requires
            self.wf(),
        ensures
            map_bail::<NamedNodeArgs, bool, C>(self@.new_expression, args.for_name@, old(state)@, args@) == (final(state)@, Ok::<Option<bool>, Seq<char>>(r)),
    {
        call_map(&self.new_expression, args.for_name.as_str(), state, args)
    }

    pub fn assign(&self, state: &mut ParserState, args: &NamedNodeArgs) -> (r: Option<bool>)
        requires
            self.wf(),
        ensures
            map_bail::<NamedNodeArgs, bool, C>(self@.assign, args.for_name@, old(state)@, args@) == (final(state)@, Ok::<Option<bool>, Seq<char>>(r)),
    {
        call_map(&self.assign, args.for_name.as_str(), state, args)
    }

    pub fn assign_member_chain(&self, state: &mut ParserState, args: &NamedNodeArgs) -> (r: Option<bool>)
        requires
            self.wf(),
        ensures
            map_bail::<NamedNodeArgs, bool, C>(self@.assign_member_chain, args.for_name@, old(state)@, args@) == (final(state)@, Ok::<Option<bool>, Seq<char>>(r)),
    {
        call_map(&self.assign_member_chain, args.for_name.as_str(), state, args)
    }

    pub fn import_call(&self, state: &mut ParserState, args: &NodeArgs) -> (r: Option<bool>)
        ensures
            bail_run::<ParserState, NodeArgs, bool, JavascriptParserPlugin<C>>(self@.import_call, old(state)@, args@)
                == (final(state)@, Ok::<Option<bool>, Seq<char>>(r)),
    {
        call_hook(&self.import_call, state, args)
    }

    pub fn meta_property(&self, state: &mut ParserState, args: &NodeArgs) -> (r: Option<bool>)
        ensures
            bail_run::<ParserState, NodeArgs, bool, JavascriptParserPlugin<C>>(self@.meta_property, old(state)@, args@)
                == (final(state)@, Ok::<Option<bool>, Seq<char>>(r)),
    {
        call_hook(&self.meta_property, state, args)
    }

    pub fn import(&self, state: &mut ParserState, args: &NodeArgs) -> (r: Option<bool>)
        ensures
            bail_run::<ParserState, NodeArgs, bool, JavascriptParserPlugin<C>>(self@.import, old(state)@, args@)
                == (final(state)@, Ok::<Option<bool>, Seq<char>>(r)),
    {
        call_hook(&self.import, state, args)
    }

    pub fn import_specifier(&self, state: &mut ParserState, args: &NodeArgs) -> (r: Option<bool>)
        ensures
            bail_run::<ParserState, NodeArgs, bool, JavascriptParserPlugin<C>>(self@.import_specifier, old(state)@, args@)
                == (final(state)@, Ok::<Option<bool>, Seq<char>>(r)),
    {
        call_hook(&self.import_specifier, state, args)
    }

    pub fn export_import(&self, state: &mut ParserState, args: &NodeArgs) -> (r: Option<bool>)
        ensures
            bail_run::<ParserState, NodeArgs, bool, JavascriptParserPlugin<C>>(self@.export_import, old(state)@, args@)
                == (final(state)@, Ok::<Option<bool>, Seq<char>>(r)),
    {
        call_hook(&self.export_import, state, args)
    }

    pub fn export(&self, state: &mut ParserState, args: &NodeArgs) -> (r: Option<bool>)
        ensures
            bail_run::<ParserState, NodeArgs, bool, JavascriptParserPlugin<C>>(self@.export, old(state)@, args@)
                == (final(state)@, Ok::<Option<bool>, Seq<char>>(r)),
    {
        call_hook(&self.export, state, args)
    }

    pub fn export_import_specifier(&self, state: &mut ParserState, args: &NodeArgs) -> (r: Option<bool>)
        ensures
            bail_run::<ParserState, NodeArgs, bool, JavascriptParserPlugin<C>>(self@.export_import_specifier, old(state)@, args@)
                == (final(state)@, Ok::<Option<bool>, Seq<char>>(r)),
    {
        call_hook(&self.export_import_specifier, state, args)
    }

    pub fn export_specifier(&self, state: &mut ParserState, args: &NodeArgs) -> (r: Option<bool>)
        ensures
            bail_run::<ParserState, NodeArgs, bool, JavascriptParserPlugin<C>>(self@.export_specifier, old(state)@, args@)
                == (final(state)@, Ok::<Option<bool>, Seq<char>>(r)),
    {
        call_hook(&self.export_specifier, state, args)
    }

    pub fn export_expression(&self, state: &mut ParserState, args: &NodeArgs) -> (r: Option<bool>)
        ensures
            bail_run::<ParserState, NodeArgs, bool, JavascriptParserPlugin<C>>(self@.export_expression, old(state)@, args@)
                == (final(state)@, Ok::<Option<bool>, Seq<char>>(r)),
    {
        call_hook(&self.export_expression, state, args)
    }

    pub fn optional_chaining(&self, state: &mut ParserState, args: &NodeArgs) -> (r: Option<bool>)
        ensures
            bail_run::<ParserState, NodeArgs, bool, JavascriptParserPlugin<C>>(self@.optional_chaining, old(state)@, args@)
                == (final(state)@, Ok::<Option<bool>, Seq<char>>(r)),
    {
        call_hook(&self.optional_chaining, state, args)
    }

    pub fn expression_conditional_operation(&self, state: &mut ParserState, args: &NodeArgs) -> (r: Option<bool>)
        ensures
            bail_run::<ParserState, NodeArgs, bool, JavascriptParserPlugin<C>>(self@.expression_conditional_operation, old(state)@, args@)
                == (final(state)@, Ok::<Option<bool>, Seq<char>>(r)),
    {
        call_hook(&self.expression_conditional_operation, state, args)
    }

    pub fn is_pure(&self, state: &mut ParserState, args: &NodeArgs) -> (r: Option<bool>)
        ensures
            bail_run::<ParserState, NodeArgs, bool, JavascriptParserPlugin<C>>(self@.is_pure, old(state)@, args@)
                == (final(state)@, Ok::<Option<bool>, Seq<char>>(r)),
    {
        call_hook(&self.is_pure, state, args)
    }

    pub fn import_meta_property_in_destructuring(&self, state: &mut ParserState, args: &NodeArgs) -> (r: Option<String>)
        ensures
            bail_run::<ParserState, NodeArgs, String, JavascriptParserPlugin<C>>(self@.import_meta_property_in_destructuring, old(state)@, args@)
                == (final(state)@, Ok::<Option<Seq<char>>, Seq<char>>(option_view(r))),
    {
        call_hook(&self.import_meta_property_in_destructuring, state, args)
    }
}


/// Registering a tap for one name leaves the answer for every other name as it was.
pub proof fn lemma_map_bail_other_name<A: View, R: View, C>(
    m: Map<Seq<char>, Seq<JavascriptParserPlugin<C>>>,
    key: Seq<char>,
    tap: JavascriptParserPlugin<C>,
    other: Seq<char>,
    s: ParserStateView,
    a: A::V,
)
    where
        JavascriptParserPlugin<C>: BailTap<ParserState, A, R>,
    requires
        other != key,
    ensures
        map_bail::<A, R, C>(registered(m, key, tap), other, s, a) == map_bail::<A, R, C>(m, other, s, a),
{
}

/// For the name it is registered for, a new tap runs only after the taps registered before
/// it all passed, and its answer is then the answer for that name.
pub proof fn lemma_map_bail_registered<A: View, R: View, C>(
    m: Map<Seq<char>, Seq<JavascriptParserPlugin<C>>>,
    key: Seq<char>,
    tap: JavascriptParserPlugin<C>,
    s: ParserStateView,
    a: A::V,
)
    where
        JavascriptParserPlugin<C>: BailTap<ParserState, A, R>,
    ensures
        map_bail::<A, R, C>(registered(m, key, tap), key, s, a) == ({
            let (s1, r1) = map_bail::<A, R, C>(m, key, s, a);
            if r1 == Ok::<Option<R::V>, Seq<char>>(None) {
                <JavascriptParserPlugin<C> as BailTap<ParserState, A, R>>::spec_run(&tap, s1, a)
            } else {
                (s1, r1)
            }
        }),
{
    lemma_bail_run_push::<ParserState, A, R, JavascriptParserPlugin<C>>(taps_at(m, key), tap, s, a);
    if !m.contains_key(key) {
        assert(taps_at(m, key) =~= Seq::<JavascriptParserPlugin<C>>::empty());
    }
}

/// Calling a hook map for a name runs the taps registered for that name, in order.
pub proof fn lemma_map_bail_taps<A: View, R: View, C>(
    m: Map<Seq<char>, Seq<JavascriptParserPlugin<C>>>,
    key: Seq<char>,
    s: ParserStateView,
    a: A::V,
)
    where
        JavascriptParserPlugin<C>: BailTap<ParserState, A, R>,
    ensures
        map_bail::<A, R, C>(m, key, s, a) == bail_run::<ParserState, A, R, JavascriptParserPlugin<C>>(taps_at(m, key), s, a),
{
    if !m.contains_key(key) {
        assert(taps_at(m, key) =~= Seq::<JavascriptParserPlugin<C>>::empty());
    }
}

/// When a name's taps grew by `tap` at the end (or stayed as they were, when `added` is
/// false), the name's answer is the old answer, unless that was a pass: then `tap` answers,
/// from the state the old taps left.
pub proof fn lemma_map_bail_tap_added<A: View, R: View, C>(
    before: Map<Seq<char>, Seq<JavascriptParserPlugin<C>>>,
    after: Map<Seq<char>, Seq<JavascriptParserPlugin<C>>>,
    key: Seq<char>,
    added: bool,
    tap: JavascriptParserPlugin<C>,
    s: ParserStateView,
    a: A::V,
)
    where
        JavascriptParserPlugin<C>: BailTap<ParserState, A, R>,
    requires
        taps_at(after, key) == (if added { taps_at(before, key).push(tap) } else { taps_at(before, key) }),
    ensures
        map_bail::<A, R, C>(after, key, s, a) == ({
            let (s1, r1) = map_bail::<A, R, C>(before, key, s, a);
            if added && r1 == Ok::<Option<R::V>, Seq<char>>(None) {
                <JavascriptParserPlugin<C> as BailTap<ParserState, A, R>>::spec_run(&tap, s1, a)
            } else {
                (s1, r1)
            }
        }),
{
    lemma_map_bail_taps::<A, R, C>(before, key, s, a);
    lemma_map_bail_taps::<A, R, C>(after, key, s, a);
    if added {
        lemma_bail_run_push::<ParserState, A, R, JavascriptParserPlugin<C>>(taps_at(before, key), tap, s, a);
    }
}

} // verus!

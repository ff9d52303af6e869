//! Answers for `module.hot`, `typeof module`, `module.id` and `module.loaded`.
use vstd::prelude::*;
use crate::parser_state::{ParserState, ParserStateView, Dependency, DependencyView, EvaluatedExpression, EvaluatedView, RuntimeGlobal, Span, option_view, str_eq, evaluate_to_identifier};
use crate::drive::{JavascriptParserHooks, HooksView, map_bail, lemma_map_bail_tap_added};
use crate::args::{NamedRange, MemberArgs, TypeofArgs, EvaluateIdentifierArgs};
use crate::hook::{registered, taps_at};
use crate::plugin::{JavascriptParserPlugin, DefineCallback};

verus! {

pub struct CommonJsPlugin;

/// `module.hot` evaluates to itself, an identifier rooted at `module`.
pub open spec fn common_js_evaluate_identifier(for_name: Seq<char>, start: u32, end: u32) -> Option<EvaluatedView> {
    if for_name == "module.hot"@ {
        Some(EvaluatedView::Identifier { name: "module.hot"@, root: "module"@, truthy: None, range: Span { start, end } })
    } else {
        None
    }
}

/// `typeof module` is replaced by `'object'`.
pub open spec fn common_js_typeof(s: ParserStateView, span: Span, for_name: Seq<char>) -> (ParserStateView, Option<bool>) {
    if for_name == "module"@ {
        (s.with_presentational(DependencyView::Const { range: span, content: "'object'"@ }), Some(true))
    } else {
        (s, None)
    }
}

/// `module.id` and `module.loaded` need their runtime global and stop module concatenation.
pub open spec fn common_js_member(s: ParserStateView, for_name: Seq<char>) -> (ParserStateView, Option<bool>) {
    if for_name == "module.id"@ {
        (ParserStateView {
            module_concatenation_bailout: Some(for_name),
            ..s.with_presentational(DependencyView::RuntimeRequirements { global: RuntimeGlobal::ModuleId })
        }, Some(true))
    } else if for_name == "module.loaded"@ {
        (ParserStateView {
            module_concatenation_bailout: Some(for_name),
            ..s.with_presentational(DependencyView::RuntimeRequirements { global: RuntimeGlobal::ModuleLoaded })
        }, Some(true))
    } else {
        (s, None)
    }
}

impl CommonJsPlugin {
    pub fn evaluate_identifier(&self, state: &mut ParserState, for_name: &str, start: u32, end: u32) -> (r: Option<EvaluatedExpression>)
        ensures
            final(state)@ == old(state)@,
            option_view(r) == common_js_evaluate_identifier(for_name@, start, end),
    {
        if str_eq(for_name, "module.hot") {
            Some(evaluate_to_identifier("module.hot".to_owned(), "module".to_owned(), None, start, end))
        } else {
            None
        }
    }

    pub fn type_of(&self, state: &mut ParserState, span: Span, for_name: &str) -> (r: Option<bool>)
        ensures
            (final(state)@, r) == common_js_typeof(old(state)@, span, for_name@),
    {
        if str_eq(for_name, "module") {
            state.add_presentational_dependency(Dependency::Const { range: span, content: "'object'".to_owned() });
            Some(true)
        } else {
            None
        }
    }

    pub fn member(&self, state: &mut ParserState, for_name: &str) -> (r: Option<bool>)
        ensures
            (final(state)@, r) == common_js_member(old(state)@, for_name@),
    {
        if str_eq(for_name, "module.id") {
            state.add_presentational_dependency(Dependency::RuntimeRequirements { global: RuntimeGlobal::ModuleId });
            state.module_concatenation_bailout = Some(for_name.to_owned());
            return Some(true);
        }
        if str_eq(for_name, "module.loaded") {
            state.add_presentational_dependency(Dependency::RuntimeRequirements { global: RuntimeGlobal::ModuleLoaded });
            state.module_concatenation_bailout = Some(for_name.to_owned());
            return Some(true);
        }
        None
    }
}

/// The hooks after the plugin registered on `module.hot`, `module`, `module.id` and `module.loaded`.
pub open spec fn common_js_apply<C>(h: HooksView<JavascriptParserPlugin<C>>) -> HooksView<JavascriptParserPlugin<C>> {
    let t = JavascriptParserPlugin::CommonJs(CommonJsPlugin);
    HooksView {
        evaluate_identifier: registered(h.evaluate_identifier, "module.hot"@, t),
        type_of: registered(h.type_of, "module"@, t),
        member: registered(registered(h.member, "module.id"@, t), "module.loaded"@, t),
        ..h
    }
}

impl CommonJsPlugin {
    pub fn apply<C: DefineCallback>(&self, hooks: &mut JavascriptParserHooks<C>)
        requires
            old(hooks).wf(),
        ensures
            final(hooks).wf(),
            final(hooks)@ == common_js_apply(old(hooks)@),
    {
        hooks.evaluate_identifier.tap_for("module.hot", JavascriptParserPlugin::CommonJs(CommonJsPlugin));
        hooks.type_of.tap_for("module", JavascriptParserPlugin::CommonJs(CommonJsPlugin));
        hooks.member.tap_for("module.id", JavascriptParserPlugin::CommonJs(CommonJsPlugin));
        hooks.member.tap_for("module.loaded", JavascriptParserPlugin::CommonJs(CommonJsPlugin));
    }
}

/// Once the CommonJS plugin registered, `module.id` and `module.loaded` used as member
/// expressions each record their own runtime global and stop module concatenation, unless a
/// tap registered before answered for the name.
pub proof fn lemma_common_js_member_hook<C: DefineCallback>(h: HooksView<JavascriptParserPlugin<C>>, s: ParserStateView, span: Span, name: Seq<char>)
    requires
        name == "module.id"@ || name == "module.loaded"@,
    ensures
        ({
            let a = NamedRange { span, for_name: name };
            let (s1, r1) = map_bail::<MemberArgs, bool, C>(h.member, name, s, a);
            let g = if name == "module.id"@ { RuntimeGlobal::ModuleId } else { RuntimeGlobal::ModuleLoaded };
            map_bail::<MemberArgs, bool, C>(common_js_apply(h).member, name, s, a) == if r1 == Ok::<Option<bool>, Seq<char>>(None) {
                (ParserStateView {
                    module_concatenation_bailout: Some(name),
                    presentational_dependencies: s1.presentational_dependencies.push(DependencyView::RuntimeRequirements { global: g }),
                    ..s1
                }, Ok::<Option<bool>, Seq<char>>(Some(true)))
            } else {
                (s1, r1)
            }
        }),
{
    reveal_strlit("module.id");
    reveal_strlit("module.loaded");
    assert("module.id"@.len() != "module.loaded"@.len());
    let t = JavascriptParserPlugin::CommonJs(CommonJsPlugin);
    let a = NamedRange { span, for_name: name };
    let after = common_js_apply(h).member;
    assert(taps_at(after, name) == taps_at(h.member, name).push(t));
    lemma_map_bail_tap_added::<MemberArgs, bool, C>(h.member, after, name, true, t, s, a);
}

/// Once the CommonJS plugin registered, `typeof module` is replaced by `'object'`, unless a tap
/// registered before answered.
pub proof fn lemma_common_js_typeof_hook<C: DefineCallback>(h: HooksView<JavascriptParserPlugin<C>>, s: ParserStateView, span: Span)
    ensures
        ({
            let a = NamedRange { span, for_name: "module"@ };
            let (s1, r1) = map_bail::<TypeofArgs, bool, C>(h.type_of, "module"@, s, a);
            map_bail::<TypeofArgs, bool, C>(common_js_apply(h).type_of, "module"@, s, a) == if r1 == Ok::<Option<bool>, Seq<char>>(None) {
                (ParserStateView {
                    presentational_dependencies: s1.presentational_dependencies.push(DependencyView::Const { range: span, content: "'object'"@ }),
                    ..s1
                }, Ok::<Option<bool>, Seq<char>>(Some(true)))
            } else {
                (s1, r1)
            }
        }),
{
    let t = JavascriptParserPlugin::CommonJs(CommonJsPlugin);
    let a = NamedRange { span, for_name: "module"@ };
    lemma_map_bail_tap_added::<TypeofArgs, bool, C>(h.type_of, common_js_apply(h).type_of, "module"@, true, t, s, a);
}

/// Once the CommonJS plugin registered, `module.hot` evaluates to the identifier `module.hot`
/// rooted at `module`, with the state unchanged, unless a tap registered before answered.
pub proof fn lemma_common_js_evaluate_identifier_hook<C: DefineCallback>(h: HooksView<JavascriptParserPlugin<C>>, s: ParserStateView, span: Span)
    ensures
        ({
            let a = NamedRange { span, for_name: "module.hot"@ };
            let (s1, r1) = map_bail::<EvaluateIdentifierArgs, EvaluatedExpression, C>(h.evaluate_identifier, "module.hot"@, s, a);
            map_bail::<EvaluateIdentifierArgs, EvaluatedExpression, C>(common_js_apply(h).evaluate_identifier, "module.hot"@, s, a)
                == if r1 == Ok::<Option<EvaluatedView>, Seq<char>>(None) {
                (s1, Ok::<Option<EvaluatedView>, Seq<char>>(Some(EvaluatedView::Identifier {
                    name: "module.hot"@,
                    root: "module"@,
                    truthy: None,
                    range: span,
                })))
            } else {
                (s1, r1)
            }
        }),
{
    let t = JavascriptParserPlugin::CommonJs(CommonJsPlugin);
    let a = NamedRange { span, for_name: "module.hot"@ };
    lemma_map_bail_tap_added::<EvaluateIdentifierArgs, EvaluatedExpression, C>(
        h.evaluate_identifier,
        common_js_apply(h).evaluate_identifier,
        "module.hot"@,
        true,
        t,
        s,
        a,
    );
}

} // verus!

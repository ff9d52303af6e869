//! `__webpack_is_included__("request")` asks whether a module is part of the output.
use vstd::prelude::*;
use crate::parser_state::{ParserState, ParserStateView, Dependency, DependencyView, EvaluatedExpression, EvaluatedView, Span, str_eq};
use crate::args::CallArgumentView;
use crate::args::CallArgument;
use crate::drive::{JavascriptParserHooks, HooksView, map_bail, lemma_map_bail_tap_added};
use crate::args::{NamedRange, CallView, CallArgs, TypeofArgs};
use crate::hook::registered;
use crate::plugin::{JavascriptParserPlugin, DefineCallback};

verus! {

pub const IS_INCLUDED: &'static str = "__webpack_is_included__";

pub struct IsIncludedPlugin;

/// A call with exactly one argument, not spread, that evaluates to a string records the request.
pub open spec fn is_included_call(s: ParserStateView, span: Span, name: Seq<char>, arguments: Seq<CallArgumentView>) -> (ParserStateView, Option<bool>) {
    if name != IS_INCLUDED@ || arguments.len() != 1 || arguments[0].spread {
        (s, None)
    } else {
        match arguments[0].evaluated {
            EvaluatedView::Str { value, .. } => (s.with_dependency(DependencyView::IsInclude { range: span, request: value }), Some(true)),
            _ => (s, None),
        }
    }
}

/// `typeof __webpack_is_included__` is replaced by `'function'`.
pub open spec fn is_included_typeof(s: ParserStateView, span: Span, for_name: Seq<char>) -> (ParserStateView, Option<bool>) {
    if for_name == IS_INCLUDED@ {
        (s.with_presentational(DependencyView::Const { range: span, content: "'function'"@ }), Some(true))
    } else {
        (s, None)
    }
}

impl IsIncludedPlugin {
    pub fn call(&self, state: &mut ParserState, span: Span, name: &str, arguments: &Vec<CallArgument>) -> (r: Option<bool>)
        ensures
            (final(state)@, r) == is_included_call(old(state)@, span, name@, arguments@.map_values(|a: CallArgument| a@)),
    {
        if !str_eq(name, IS_INCLUDED) || arguments.len() != 1 || arguments[0].spread {
            return None;
        }
        match &arguments[0].evaluated {
            EvaluatedExpression::Str { value, .. } => {
                state.add_dependency(Dependency::IsInclude { range: span, request: value.clone() });
                Some(true)
            },
            _ => None,
        }
    }

    pub fn type_of(&self, state: &mut ParserState, span: Span, for_name: &str) -> (r: Option<bool>)
        ensures
            (final(state)@, r) == is_included_typeof(old(state)@, span, for_name@),
    {
        if str_eq(for_name, IS_INCLUDED) {
            state.add_presentational_dependency(Dependency::Const { range: span, content: "'function'".to_owned() });
            Some(true)
        } else {
            None
        }
    }
}

pub open spec fn is_included_apply<C>(h: HooksView<JavascriptParserPlugin<C>>) -> HooksView<JavascriptParserPlugin<C>> {
    let t = JavascriptParserPlugin::IsIncluded(IsIncludedPlugin);
    HooksView { call: registered(h.call, IS_INCLUDED@, t), type_of: registered(h.type_of, IS_INCLUDED@, t), ..h }
}

impl IsIncludedPlugin {
    pub fn apply<C: DefineCallback>(&self, hooks: &mut JavascriptParserHooks<C>)
        requires
            old(hooks).wf(),
        ensures
            final(hooks).wf(),
            final(hooks)@ == is_included_apply(old(hooks)@),
    {
        hooks.call.tap_for(IS_INCLUDED, JavascriptParserPlugin::IsIncluded(IsIncludedPlugin));
        hooks.type_of.tap_for(IS_INCLUDED, JavascriptParserPlugin::IsIncluded(IsIncludedPlugin));
    }
}

/// Once the plugin registered, a call of `__webpack_is_included__` with one argument, not
/// spread, that evaluates to a string records the request as a dependency of the call and is
/// answered `true`; any other call of it is left alone.  Taps registered before answer first.
pub proof fn lemma_is_included_call_hook<C: DefineCallback>(h: HooksView<JavascriptParserPlugin<C>>, s: ParserStateView, span: Span, arguments: Seq<CallArgumentView>)
    ensures
        ({
            let a = CallView { span, for_name: IS_INCLUDED@, arguments };
            let (s1, r1) = map_bail::<CallArgs, bool, C>(h.call, IS_INCLUDED@, s, a);
            map_bail::<CallArgs, bool, C>(is_included_apply(h).call, IS_INCLUDED@, s, a) == if r1 == Ok::<Option<bool>, Seq<char>>(None) {
                if arguments.len() == 1 && !arguments[0].spread && arguments[0].evaluated is Str {
                    (ParserStateView {
                        dependencies: s1.dependencies.push(DependencyView::IsInclude { range: span, request: arguments[0].evaluated->Str_value }),
                        ..s1
                    }, Ok::<Option<bool>, Seq<char>>(Some(true)))
                } else {
                    (s1, Ok::<Option<bool>, Seq<char>>(None))
                }
            } else {
                (s1, r1)
            }
        }),
{
    let t = JavascriptParserPlugin::IsIncluded(IsIncludedPlugin);
    let a = CallView { span, for_name: IS_INCLUDED@, arguments };
    lemma_map_bail_tap_added::<CallArgs, bool, C>(h.call, is_included_apply(h).call, IS_INCLUDED@, true, t, s, a);
}

/// Once the plugin registered, `typeof __webpack_is_included__` is replaced by `'function'`,
/// unless a tap registered before answered.
pub proof fn lemma_is_included_typeof_hook<C: DefineCallback>(h: HooksView<JavascriptParserPlugin<C>>, s: ParserStateView, span: Span)
    ensures
        ({
            let a = NamedRange { span, for_name: IS_INCLUDED@ };
            let (s1, r1) = map_bail::<TypeofArgs, bool, C>(h.type_of, IS_INCLUDED@, s, a);
            map_bail::<TypeofArgs, bool, C>(is_included_apply(h).type_of, IS_INCLUDED@, s, a) == if r1 == Ok::<Option<bool>, Seq<char>>(None) {
                (ParserStateView {
                    presentational_dependencies: s1.presentational_dependencies.push(DependencyView::Const { range: span, content: "'function'"@ }),
                    ..s1
                }, Ok::<Option<bool>, Seq<char>>(Some(true)))
            } else {
                (s1, r1)
            }
        }),
{
    let t = JavascriptParserPlugin::IsIncluded(IsIncludedPlugin);
    let a = NamedRange { span, for_name: IS_INCLUDED@ };
    lemma_map_bail_tap_added::<TypeofArgs, bool, C>(h.type_of, is_included_apply(h).type_of, IS_INCLUDED@, true, t, s, a);
}

} // verus!

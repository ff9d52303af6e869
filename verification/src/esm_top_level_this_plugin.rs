//! In an ECMAScript module, `this` at the top level is `undefined`.
use vstd::prelude::*;
use crate::parser_state::{ParserState, ParserStateView, Dependency, DependencyView, Span};
use crate::drive::{JavascriptParserHooks, HooksView, map_bail, lemma_map_bail_tap_added};
use crate::args::{NamedRange, ThisArgs};
use crate::hook::registered;
use crate::plugin::{JavascriptParserPlugin, DefineCallback};

verus! {

pub struct ESMTopLevelThisParserPlugin;

pub open spec fn esm_top_level_this(s: ParserStateView, span: Span) -> (ParserStateView, Option<bool>) {
    if s.is_esm && s.top_level_this {
        (s.with_presentational(DependencyView::Const { range: span, content: "undefined"@ }), Some(true))
    } else {
        (s, None)
    }
}

impl ESMTopLevelThisParserPlugin {
    pub fn this(&self, state: &mut ParserState, span: Span, _for_name: &str) -> (r: Option<bool>)
        ensures
            (final(state)@, r) == esm_top_level_this(old(state)@, span),
    {
        if state.is_esm && state.top_level_this {
            state.add_presentational_dependency(Dependency::Const { range: span, content: "undefined".to_owned() });
            Some(true)
        } else {
            None
        }
    }
}

pub open spec fn esm_top_level_this_apply<C>(h: HooksView<JavascriptParserPlugin<C>>) -> HooksView<JavascriptParserPlugin<C>> {
    HooksView {
        this: registered(h.this, "this"@, JavascriptParserPlugin::EsmTopLevelThis(ESMTopLevelThisParserPlugin)),
        ..h
    }
}

impl ESMTopLevelThisParserPlugin {
    pub fn apply<C: DefineCallback>(&self, hooks: &mut JavascriptParserHooks<C>)
        requires
            old(hooks).wf(),
        ensures
            final(hooks).wf(),
            final(hooks)@ == esm_top_level_this_apply(old(hooks)@),
    {
        hooks.this.tap_for("this", JavascriptParserPlugin::EsmTopLevelThis(ESMTopLevelThisParserPlugin));
    }
}

/// Once the plugin registered, a top-level `this` in an ECMAScript module is replaced by
/// `undefined`; elsewhere it is left alone.  Taps registered before answer first.
pub proof fn lemma_esm_top_level_this_hook<C: DefineCallback>(h: HooksView<JavascriptParserPlugin<C>>, s: ParserStateView, span: Span)
    ensures
        ({
            let a = NamedRange { span, for_name: "this"@ };
            let (s1, r1) = map_bail::<ThisArgs, bool, C>(h.this, "this"@, s, a);
            map_bail::<ThisArgs, bool, C>(esm_top_level_this_apply(h).this, "this"@, s, a) == if r1 == Ok::<Option<bool>, Seq<char>>(None) {
                if s1.is_esm && s1.top_level_this {
                    (ParserStateView {
                        presentational_dependencies: s1.presentational_dependencies.push(DependencyView::Const { range: span, content: "undefined"@ }),
                        ..s1
                    }, Ok::<Option<bool>, Seq<char>>(Some(true)))
                } else {
                    (s1, Ok::<Option<bool>, Seq<char>>(None))
                }
            } else {
                (s1, r1)
            }
        }),
{
    let t = JavascriptParserPlugin::EsmTopLevelThis(ESMTopLevelThisParserPlugin);
    let a = NamedRange { span, for_name: "this"@ };
    lemma_map_bail_tap_added::<ThisArgs, bool, C>(h.this, esm_top_level_this_apply(h).this, "this"@, true, t, s, a);
}

} // verus!

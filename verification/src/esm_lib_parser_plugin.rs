//! At the end of parsing, a `javascript/auto` module whose exports shape is still unset and
//! that uses no CommonJS feature is marked as an ECMAScript module.
use vstd::prelude::*;
use crate::parser_state::{ParserState, ParserStateView, Dependency, DependencyView, DependencyType, ExportsType};
use crate::drive::{JavascriptParserHooks, HooksView};
use crate::hook::{bail_run, lemma_bail_run_push};
use crate::args::FinishArgs;
use crate::plugin::{JavascriptParserPlugin, DefineCallback};

verus! {

pub struct EsmLibParserPlugin;

/// Dependency kinds that show that a module uses CommonJS.
pub open spec fn is_common_js_dependency(t: DependencyType) -> bool {
    ||| t == DependencyType::CjsExportRequire
    ||| t == DependencyType::CjsExports
    ||| t == DependencyType::CjsFullRequire
    ||| t == DependencyType::CjsRequire
    ||| t == DependencyType::CjsSelfReference
    ||| t == DependencyType::CommonJSRequireContext
    ||| t == DependencyType::ModuleDecorator
}

/// The module has a dependency of a CommonJS kind.
pub open spec fn uses_common_js(s: ParserStateView) -> bool {
    exists|i: int| 0 <= i < s.dependencies.len() && is_common_js_dependency(#[trigger] s.dependencies[i].dependency_type())
}

pub open spec fn esm_lib_finish(s: ParserStateView) -> (ParserStateView, Option<bool>) {
    if s.module_type_is_js_auto && s.exports_type == ExportsType::Unset && !uses_common_js(s) {
        (ParserStateView { exports_type: ExportsType::Namespace, ..s }.with_presentational(DependencyView::EsmCompatibility), None)
    } else {
        (s, None)
    }
}

fn is_common_js_dependency_exec(t: DependencyType) -> (b: bool)
    ensures
        b == is_common_js_dependency(t),
{
    match t {
        DependencyType::CjsExportRequire
        | DependencyType::CjsExports
        | DependencyType::CjsFullRequire
        | DependencyType::CjsRequire
        | DependencyType::CjsSelfReference
        | DependencyType::CommonJSRequireContext
        | DependencyType::ModuleDecorator => true,
        _ => false,
    }
}

impl EsmLibParserPlugin {
    pub fn finish(&self, state: &mut ParserState) -> (r: Option<bool>)
        ensures
            (final(state)@, r) == esm_lib_finish(old(state)@),
    {
        let mut found = false;
        let mut i: usize = 0;
        while i < state.dependencies.len()
            invariant
                i <= state.dependencies.len(),
                state@ == old(state)@,
                found == exists|j: int| 0 <= j < i && is_common_js_dependency(#[trigger] state@.dependencies[j].dependency_type()),
            decreases state.dependencies.len() - i,
        {
            let t = state.dependencies[i].dependency_type();
            assert(state@.dependencies[i as int] == state.dependencies@[i as int]@);
            if is_common_js_dependency_exec(t) {
                found = true;
            }
            i += 1;
        }
        if state.module_type_is_js_auto && state.exports_type == ExportsType::Unset && !found {
            state.exports_type = ExportsType::Namespace;
            state.add_presentational_dependency(Dependency::EsmCompatibility);
        }
        None
    }
}

pub open spec fn esm_lib_apply<C>(h: HooksView<JavascriptParserPlugin<C>>) -> HooksView<JavascriptParserPlugin<C>> {
    HooksView { finish: h.finish.push(JavascriptParserPlugin::EsmLib(EsmLibParserPlugin)), ..h }
}

impl EsmLibParserPlugin {
    pub fn apply<C: DefineCallback>(&self, hooks: &mut JavascriptParserHooks<C>)
        requires
            old(hooks).wf(),
        ensures
            final(hooks).wf(),
            final(hooks)@ == esm_lib_apply(old(hooks)@),
    {
        hooks.finish.tap(JavascriptParserPlugin::EsmLib(EsmLibParserPlugin));
    }
}


/// Finishing twice changes nothing more than finishing once.
pub proof fn lemma_esm_lib_finish_idempotent(s: ParserStateView)
    ensures
        esm_lib_finish(esm_lib_finish(s).0) == (esm_lib_finish(s).0, None::<bool>),
{
}

/// A module with a dependency of a CommonJS kind is left as it is by `finish`.
pub proof fn lemma_esm_lib_finish_keeps_common_js(s: ParserStateView, i: int)
    requires
        0 <= i < s.dependencies.len(),
        ({
            let t = s.dependencies[i].dependency_type();
            ||| t == DependencyType::CjsExportRequire
            ||| t == DependencyType::CjsExports
            ||| t == DependencyType::CjsFullRequire
            ||| t == DependencyType::CjsRequire
            ||| t == DependencyType::CjsSelfReference
            ||| t == DependencyType::CommonJSRequireContext
            ||| t == DependencyType::ModuleDecorator
        }),
    ensures
        esm_lib_finish(s) == (s, None::<bool>),
{
    assert(is_common_js_dependency(s.dependencies[i].dependency_type()));
}

/// A `javascript/auto` module with its exports shape unset and no dependency of a CommonJS
/// kind becomes an ECMAScript namespace module, with the compatibility dependency recorded.
pub proof fn lemma_esm_lib_finish_marks_esm(s: ParserStateView)
    requires
        s.module_type_is_js_auto,
        s.exports_type == ExportsType::Unset,
        forall|i: int| 0 <= i < s.dependencies.len() ==> {
            let t = #[trigger] s.dependencies[i].dependency_type();
            &&& t != DependencyType::CjsExportRequire
            &&& t != DependencyType::CjsExports
            &&& t != DependencyType::CjsFullRequire
            &&& t != DependencyType::CjsRequire
            &&& t != DependencyType::CjsSelfReference
            &&& t != DependencyType::CommonJSRequireContext
            &&& t != DependencyType::ModuleDecorator
        },
    ensures
        esm_lib_finish(s) == (ParserStateView {
            exports_type: ExportsType::Namespace,
            presentational_dependencies: s.presentational_dependencies.push(DependencyView::EsmCompatibility),
            ..s
        }, None::<bool>),
{
}

/// Once the plugin registered, the `finish` hook marks a `javascript/auto` module whose exports
/// shape is unset and that has no dependency of a CommonJS kind as an ECMAScript namespace
/// module, with the compatibility dependency recorded, and leaves any other module as it is.
/// The hook's answer stays a pass.  Taps registered before run first.
pub proof fn lemma_esm_lib_finish_hook<C: DefineCallback>(h: HooksView<JavascriptParserPlugin<C>>, s: ParserStateView)
    ensures
        ({
            let (s1, r1) = bail_run::<ParserState, FinishArgs, bool, JavascriptParserPlugin<C>>(h.finish, s, ());
            let cjs = exists|i: int| 0 <= i < s1.dependencies.len() && {
                let t = #[trigger] s1.dependencies[i].dependency_type();
                ||| t == DependencyType::CjsExportRequire
                ||| t == DependencyType::CjsExports
                ||| t == DependencyType::CjsFullRequire
                ||| t == DependencyType::CjsRequire
                ||| t == DependencyType::CjsSelfReference
                ||| t == DependencyType::CommonJSRequireContext
                ||| t == DependencyType::ModuleDecorator
            };
            bail_run::<ParserState, FinishArgs, bool, JavascriptParserPlugin<C>>(esm_lib_apply(h).finish, s, ())
                == if r1 == Ok::<Option<bool>, Seq<char>>(None) {
                if s1.module_type_is_js_auto && s1.exports_type == ExportsType::Unset && !cjs {
                    (ParserStateView {
                        exports_type: ExportsType::Namespace,
                        presentational_dependencies: s1.presentational_dependencies.push(DependencyView::EsmCompatibility),
                        ..s1
                    }, Ok::<Option<bool>, Seq<char>>(None))
                } else {
                    (s1, Ok::<Option<bool>, Seq<char>>(None))
                }
            } else {
                (s1, r1)
            }
        }),
{
    lemma_bail_run_push::<ParserState, FinishArgs, bool, JavascriptParserPlugin<C>>(
        h.finish,
        JavascriptParserPlugin::EsmLib(EsmLibParserPlugin),
        s,
        (),
    );
}

} // verus!

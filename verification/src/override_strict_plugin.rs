//! The parser option `overrideStrict` decides whether the module is strict.
use vstd::prelude::*;
use crate::parser_state::{ParserState, ParserStateView, OverrideStrict};
use crate::drive::{JavascriptParserHooks, HooksView};
use crate::hook::{bail_run, lemma_bail_run_push};
use crate::args::ProgramArgs;
use crate::plugin::{JavascriptParserPlugin, DefineCallback};

verus! {

pub struct OverrideStrictPlugin;

pub open spec fn override_strict_program(s: ParserStateView) -> (ParserStateView, Option<bool>) {
    match s.override_strict {
        Some(strict) => (ParserStateView { strict: strict == OverrideStrict::Strict, ..s }, None),
        None => (s, None),
    }
}

impl OverrideStrictPlugin {
    pub fn program(&self, state: &mut ParserState) -> (r: Option<bool>)
        ensures
            (final(state)@, r) == override_strict_program(old(state)@),
    {
        if let Some(strict) = state.override_strict {
            state.strict = match strict {
                OverrideStrict::Strict => true,
                OverrideStrict::NonStrict => false,
            };
        }
        None
    }
}

pub open spec fn override_strict_apply<C>(h: HooksView<JavascriptParserPlugin<C>>) -> HooksView<JavascriptParserPlugin<C>> {
    HooksView { program: h.program.push(JavascriptParserPlugin::OverrideStrict(OverrideStrictPlugin)), ..h }
}

impl OverrideStrictPlugin {
    pub fn apply<C: DefineCallback>(&self, hooks: &mut JavascriptParserHooks<C>)
        requires
            old(hooks).wf(),
        ensures
            final(hooks).wf(),
            final(hooks)@ == override_strict_apply(old(hooks)@),
    {
        hooks.program.tap(JavascriptParserPlugin::OverrideStrict(OverrideStrictPlugin));
    }
}


/// Running the plugin twice changes nothing more than running it once.
pub proof fn lemma_override_strict_idempotent(s: ParserStateView)
    ensures
        override_strict_program(override_strict_program(s).0) == override_strict_program(s),
{
}

/// Once the plugin registered, the `program` hook makes the module strict exactly when the
/// option says strict, and not strict when it says non-strict; without the option the module
/// is left as it is.  The hook's answer stays a pass.  Taps registered before run first.
pub proof fn lemma_override_strict_program_hook<C: DefineCallback>(h: HooksView<JavascriptParserPlugin<C>>, s: ParserStateView, shebang: Option<Seq<char>>)
    ensures
        ({
            let (s1, r1) = bail_run::<ParserState, ProgramArgs, bool, JavascriptParserPlugin<C>>(h.program, s, shebang);
            bail_run::<ParserState, ProgramArgs, bool, JavascriptParserPlugin<C>>(override_strict_apply(h).program, s, shebang)
                == if r1 == Ok::<Option<bool>, Seq<char>>(None) {
                (match s1.override_strict {
                    Some(OverrideStrict::Strict) => ParserStateView { strict: true, ..s1 },
                    Some(OverrideStrict::NonStrict) => ParserStateView { strict: false, ..s1 },
                    None => s1,
                }, Ok::<Option<bool>, Seq<char>>(None))
            } else {
                (s1, r1)
            }
        }),
{
    lemma_bail_run_push::<ParserState, ProgramArgs, bool, JavascriptParserPlugin<C>>(
        h.program,
        JavascriptParserPlugin::OverrideStrict(OverrideStrictPlugin),
        s,
        shebang,
    );
}

} // verus!

//! The parser plugins of this crate, and how each one answers the hooks it is registered on.
use vstd::prelude::*;
pub use crate::define_plugin::DefineCallback;
use crate::define_plugin::DefineParserPlugin;
use crate::drive::{HooksView, JavascriptParserHooks};
use crate::hook::{BailTap, SyncTap, HookError};
use crate::parser_state::{ParserState, ParserStateView, EvaluatedExpression, EvaluatedView, Span};
use crate::args::{
    NamedRange, ChainView, CallChainView, CallView, ProgramArgs, FinishArgs, CanRenameArgs, EvaluateTypeofArgs,
    EvaluateIdentifierArgs, TypeofArgs, MemberArgs, MemberChainArgs, CallMemberChainArgs, IdentifierArgs, ThisArgs,
    CallArgs, DestructuringArgs, NodeArgs, NamedNodeArgs, EvaluateCallExpressionMemberArgs, CallMemberView,
};
use crate::common_js_plugin::{CommonJsPlugin, common_js_evaluate_identifier, common_js_typeof, common_js_member, common_js_apply};
use crate::esm_lib_parser_plugin::{EsmLibParserPlugin, esm_lib_finish, esm_lib_apply};
use crate::esm_top_level_this_plugin::{ESMTopLevelThisParserPlugin, esm_top_level_this, esm_top_level_this_apply};
use crate::exports_info_api_plugin::{ExportsInfoApiPlugin, exports_info_member_chain, exports_info_identifier, exports_info_apply};
use crate::is_included_plugin::{IsIncludedPlugin, is_included_call, is_included_typeof, is_included_apply};
use crate::override_strict_plugin::{OverrideStrictPlugin, override_strict_program, override_strict_apply};
use crate::hashbang_parser_plugin::{HashbangParserPlugin, hashbang_program, hashbang_apply};
use crate::rslib_parser_plugin::{RslibParserPlugin, rslib_member, rslib_typeof, rslib_apply};

verus! {

/// A parser plugin, as it is registered on the hooks.
pub enum JavascriptParserPlugin<C> {
    EsmLib(EsmLibParserPlugin),
    CommonJs(CommonJsPlugin),
    Define(DefineParserPlugin<C>),
    EsmTopLevelThis(ESMTopLevelThisParserPlugin),
    ExportsInfoApi(ExportsInfoApiPlugin),
    IsIncluded(IsIncludedPlugin),
    OverrideStrict(OverrideStrictPlugin),
    Hashbang(HashbangParserPlugin),
    Rslib(RslibParserPlugin),
}

impl<C: DefineCallback> BailTap<ParserState, ProgramArgs, bool> for JavascriptParserPlugin<C> {
    open spec fn obeys_tap_spec(&self, args: Option<Seq<char>>) -> bool {
        true
    }

    open spec fn spec_run(&self, state: ParserStateView, args: Option<Seq<char>>) -> (ParserStateView, Result<Option<bool>, Seq<char>>) {
        let (s, r) = match self {
            JavascriptParserPlugin::OverrideStrict(_) => override_strict_program(state),
            JavascriptParserPlugin::Hashbang(_) => hashbang_program(state, args),
            _ => (state, None),
        };
        (s, Ok(r))
    }

    fn run(&self, state: &mut ParserState, args: &ProgramArgs) -> (out: Result<Option<bool>, HookError>) {
        match self {
            JavascriptParserPlugin::OverrideStrict(p) => Ok(p.program(state)),
            JavascriptParserPlugin::Hashbang(p) => Ok(p.program(state, args.shebang.as_ref())),
            _ => Ok(None),
        }
    }
}

impl<C: DefineCallback> BailTap<ParserState, FinishArgs, bool> for JavascriptParserPlugin<C> {
    open spec fn obeys_tap_spec(&self, args: ()) -> bool {
        true
    }

    open spec fn spec_run(&self, state: ParserStateView, args: ()) -> (ParserStateView, Result<Option<bool>, Seq<char>>) {
        let (s, r) = match self {
            JavascriptParserPlugin::EsmLib(_) => esm_lib_finish(state),
            _ => (state, None),
        };
        (s, Ok(r))
    }

    fn run(&self, state: &mut ParserState, args: &FinishArgs) -> (out: Result<Option<bool>, HookError>) {
        match self {
            JavascriptParserPlugin::EsmLib(p) => Ok(p.finish(state)),
            _ => Ok(None),
        }
    }
}

impl<C: DefineCallback> BailTap<ParserState, CanRenameArgs, bool> for JavascriptParserPlugin<C> {
    open spec fn obeys_tap_spec(&self, args: Seq<char>) -> bool {
        true
    }

    open spec fn spec_run(&self, state: ParserStateView, args: Seq<char>) -> (ParserStateView, Result<Option<bool>, Seq<char>>) {
        let (s, r) = match self {
            JavascriptParserPlugin::Define(p) => p.spec_can_rename(state, args),
            _ => (state, None),
        };
        (s, Ok(r))
    }

    fn run(&self, state: &mut ParserState, args: &CanRenameArgs) -> (out: Result<Option<bool>, HookError>) {
        match self {
            JavascriptParserPlugin::Define(p) => Ok(p.can_rename(state, args.for_name.as_str())),
            _ => Ok(None),
        }
    }
}

impl<C: DefineCallback> BailTap<ParserState, EvaluateTypeofArgs, EvaluatedExpression> for JavascriptParserPlugin<C> {
    open spec fn obeys_tap_spec(&self, args: NamedRange) -> bool {
        match self {
            JavascriptParserPlugin::Define(p) => C::obeys_define_spec() || p.evaluate_typeof_callback_free(args.for_name),
            _ => true,
        }
    }

    open spec fn spec_run(&self, state: ParserStateView, args: NamedRange) -> (ParserStateView, Result<Option<EvaluatedView>, Seq<char>>) {
        let (s, r) = match self {
            JavascriptParserPlugin::Define(p) => p.spec_evaluate_typeof(state, args),
            _ => (state, None),
        };
        (s, Ok(r))
    }

    fn run(&self, state: &mut ParserState, args: &EvaluateTypeofArgs) -> (out: Result<Option<EvaluatedExpression>, HookError>) {
        match self {
            JavascriptParserPlugin::Define(p) => Ok(p.evaluate_typeof(state, args.span, args.for_name.as_str())),
            _ => Ok(None),
        }
    }
}

impl<C: DefineCallback> BailTap<ParserState, EvaluateIdentifierArgs, EvaluatedExpression> for JavascriptParserPlugin<C> {
    open spec fn obeys_tap_spec(&self, args: NamedRange) -> bool {
        match self {
            JavascriptParserPlugin::Define(p) => C::obeys_define_spec() || p.evaluate_identifier_callback_free(args.for_name),
            _ => true,
        }
    }

    open spec fn spec_run(&self, state: ParserStateView, args: NamedRange) -> (ParserStateView, Result<Option<EvaluatedView>, Seq<char>>) {
        let (s, r) = match self {
            JavascriptParserPlugin::CommonJs(_) => (state, common_js_evaluate_identifier(args.for_name, args.span.start, args.span.end)),
            JavascriptParserPlugin::Define(p) => p.spec_evaluate_identifier(state, args),
            _ => (state, None),
        };
        (s, Ok(r))
    }

    fn run(&self, state: &mut ParserState, args: &EvaluateIdentifierArgs) -> (out: Result<Option<EvaluatedExpression>, HookError>) {
        match self {
            JavascriptParserPlugin::CommonJs(p) => Ok(p.evaluate_identifier(state, args.for_name.as_str(), args.start, args.end)),
            JavascriptParserPlugin::Define(p) => Ok(p.evaluate_identifier(state, args.for_name.as_str(), args.start, args.end)),
            _ => Ok(None),
        }
    }
}

impl<C: DefineCallback> BailTap<ParserState, TypeofArgs, bool> for JavascriptParserPlugin<C> {
    open spec fn obeys_tap_spec(&self, args: NamedRange) -> bool {
        match self {
            JavascriptParserPlugin::Define(p) => C::obeys_define_spec() || p.typeof_callback_free(args.for_name),
            _ => true,
        }
    }

    open spec fn spec_run(&self, state: ParserStateView, args: NamedRange) -> (ParserStateView, Result<Option<bool>, Seq<char>>) {
        let (s, r) = match self {
            JavascriptParserPlugin::CommonJs(_) => common_js_typeof(state, args.span, args.for_name),
            JavascriptParserPlugin::Define(p) => p.spec_typeof(state, args),
            JavascriptParserPlugin::IsIncluded(_) => is_included_typeof(state, args.span, args.for_name),
            JavascriptParserPlugin::Rslib(_) => (state, rslib_typeof(args.for_name)),
            _ => (state, None),
        };
        (s, Ok(r))
    }

    fn run(&self, state: &mut ParserState, args: &TypeofArgs) -> (out: Result<Option<bool>, HookError>) {
        match self {
            JavascriptParserPlugin::CommonJs(p) => Ok(p.type_of(state, args.span, args.for_name.as_str())),
            JavascriptParserPlugin::Define(p) => Ok(p.type_of(state, args.span, args.for_name.as_str())),
            JavascriptParserPlugin::IsIncluded(p) => Ok(p.type_of(state, args.span, args.for_name.as_str())),
            JavascriptParserPlugin::Rslib(p) => Ok(p.type_of(state, args.for_name.as_str())),
            _ => Ok(None),
        }
    }
}

impl<C: DefineCallback> BailTap<ParserState, MemberArgs, bool> for JavascriptParserPlugin<C> {
    open spec fn obeys_tap_spec(&self, args: NamedRange) -> bool {
        match self {
            JavascriptParserPlugin::Define(p) => C::obeys_define_spec() || p.expression_callback_free(args.for_name),
            _ => true,
        }
    }

    open spec fn spec_run(&self, state: ParserStateView, args: NamedRange) -> (ParserStateView, Result<Option<bool>, Seq<char>>) {
        let (s, r) = match self {
            JavascriptParserPlugin::CommonJs(_) => common_js_member(state, args.for_name),
            JavascriptParserPlugin::Define(p) => p.spec_expression(state, args),
            JavascriptParserPlugin::Rslib(_) => (state, rslib_member(args.for_name)),
            _ => (state, None),
        };
        (s, Ok(r))
    }

    fn run(&self, state: &mut ParserState, args: &MemberArgs) -> (out: Result<Option<bool>, HookError>) {
        match self {
            JavascriptParserPlugin::CommonJs(p) => Ok(p.member(state, args.for_name.as_str())),
            JavascriptParserPlugin::Define(p) => Ok(p.member(state, args.span, args.for_name.as_str())),
            JavascriptParserPlugin::Rslib(p) => Ok(p.member(state, args.for_name.as_str())),
            _ => Ok(None),
        }
    }
}

impl<C: DefineCallback> BailTap<ParserState, MemberChainArgs, bool> for JavascriptParserPlugin<C> {
    open spec fn obeys_tap_spec(&self, args: ChainView) -> bool {
        true
    }

    open spec fn spec_run(&self, state: ParserStateView, args: ChainView) -> (ParserStateView, Result<Option<bool>, Seq<char>>) {
        let (s, r) = match self {
            JavascriptParserPlugin::ExportsInfoApi(_) => exports_info_member_chain(state, args.span, args.for_name, args.members),
            _ => (state, None),
        };
        (s, Ok(r))
    }

    fn run(&self, state: &mut ParserState, args: &MemberChainArgs) -> (out: Result<Option<bool>, HookError>) {
        match self {
            JavascriptParserPlugin::ExportsInfoApi(p) => Ok(p.member_chain(state, args.span, args.for_name.as_str(), &args.members)),
            _ => Ok(None),
        }
    }
}

impl<C: DefineCallback> BailTap<ParserState, CallMemberChainArgs, bool> for JavascriptParserPlugin<C> {
    open spec fn obeys_tap_spec(&self, args: CallChainView) -> bool {
        true
    }

    open spec fn spec_run(&self, state: ParserStateView, args: CallChainView) -> (ParserStateView, Result<Option<bool>, Seq<char>>) {
        (state, Ok(None))
    }

    fn run(&self, state: &mut ParserState, args: &CallMemberChainArgs) -> (out: Result<Option<bool>, HookError>) {
        Ok(None)
    }
}

impl<C: DefineCallback> BailTap<ParserState, IdentifierArgs, bool> for JavascriptParserPlugin<C> {
    open spec fn obeys_tap_spec(&self, args: NamedRange) -> bool {
        match self {
            JavascriptParserPlugin::Define(p) => C::obeys_define_spec() || p.expression_callback_free(args.for_name),
            _ => true,
        }
    }

    open spec fn spec_run(&self, state: ParserStateView, args: NamedRange) -> (ParserStateView, Result<Option<bool>, Seq<char>>) {
        let (s, r) = match self {
            JavascriptParserPlugin::Define(p) => p.spec_expression(state, args),
            JavascriptParserPlugin::ExportsInfoApi(_) => exports_info_identifier(state, args.span, args.for_name),
            _ => (state, None),
        };
        (s, Ok(r))
    }

    fn run(&self, state: &mut ParserState, args: &IdentifierArgs) -> (out: Result<Option<bool>, HookError>) {
        match self {
            JavascriptParserPlugin::Define(p) => Ok(p.identifier(state, args.span, args.for_name.as_str())),
            JavascriptParserPlugin::ExportsInfoApi(p) => Ok(p.identifier(state, args.span, args.for_name.as_str())),
            _ => Ok(None),
        }
    }
}

impl<C: DefineCallback> BailTap<ParserState, ThisArgs, bool> for JavascriptParserPlugin<C> {
    open spec fn obeys_tap_spec(&self, args: NamedRange) -> bool {
        true
    }

    open spec fn spec_run(&self, state: ParserStateView, args: NamedRange) -> (ParserStateView, Result<Option<bool>, Seq<char>>) {
        let (s, r) = match self {
            JavascriptParserPlugin::EsmTopLevelThis(_) => esm_top_level_this(state, args.span),
            _ => (state, None),
        };
        (s, Ok(r))
    }

    fn run(&self, state: &mut ParserState, args: &ThisArgs) -> (out: Result<Option<bool>, HookError>) {
        match self {
            JavascriptParserPlugin::EsmTopLevelThis(p) => Ok(p.this(state, args.span, args.for_name.as_str())),
            _ => Ok(None),
        }
    }
}

impl<C: DefineCallback> BailTap<ParserState, CallArgs, bool> for JavascriptParserPlugin<C> {
    open spec fn obeys_tap_spec(&self, args: CallView) -> bool {
        true
    }

    open spec fn spec_run(&self, state: ParserStateView, args: CallView) -> (ParserStateView, Result<Option<bool>, Seq<char>>) {
        let (s, r) = match self {
            JavascriptParserPlugin::IsIncluded(_) => is_included_call(state, args.span, args.for_name, args.arguments),
            _ => (state, None),
        };
        (s, Ok(r))
    }

    fn run(&self, state: &mut ParserState, args: &CallArgs) -> (out: Result<Option<bool>, HookError>) {
        match self {
            JavascriptParserPlugin::IsIncluded(p) => Ok(p.call(state, args.span, args.for_name.as_str(), &args.arguments)),
            _ => Ok(None),
        }
    }
}

impl<C: DefineCallback> BailTap<ParserState, DestructuringArgs, bool> for JavascriptParserPlugin<C> {
    open spec fn obeys_tap_spec(&self, args: Option<Seq<char>>) -> bool {
        true
    }

    open spec fn spec_run(&self, state: ParserStateView, args: Option<Seq<char>>) -> (ParserStateView, Result<Option<bool>, Seq<char>>) {
        match self {
            JavascriptParserPlugin::Define(p) => (state, Ok(p.spec_can_collect_destructuring_assignment_properties(args))),
            _ => (state, Ok(None)),
        }
    }

    fn run(&self, state: &mut ParserState, args: &DestructuringArgs) -> (out: Result<Option<bool>, HookError>) {
        match self {
            JavascriptParserPlugin::Define(p) => Ok(p.can_collect_destructuring_assignment_properties(args.member_expression_name.as_ref())),
            _ => Ok(None),
        }
    }
}

// No plugin of this crate taps the hooks below: each of them passes.

impl<C: DefineCallback> SyncTap<ParserState, NodeArgs> for JavascriptParserPlugin<C> {
    open spec fn obeys_tap_spec(&self, args: Span) -> bool {
        true
    }

    open spec fn spec_run(&self, state: ParserStateView, args: Span) -> (ParserStateView, Option<Seq<char>>) {
        (state, None)
    }

    fn run(&self, state: &mut ParserState, args: &NodeArgs) -> (out: Result<(), HookError>) {
        Ok(())
    }
}

impl<C: DefineCallback> BailTap<ParserState, NodeArgs, bool> for JavascriptParserPlugin<C> {
    open spec fn obeys_tap_spec(&self, args: Span) -> bool {
        true
    }

    open spec fn spec_run(&self, state: ParserStateView, args: Span) -> (ParserStateView, Result<Option<bool>, Seq<char>>) {
        (state, Ok(None))
    }

    fn run(&self, state: &mut ParserState, args: &NodeArgs) -> (out: Result<Option<bool>, HookError>) {
        Ok(None)
    }
}

impl<C: DefineCallback> BailTap<ParserState, NamedNodeArgs, bool> for JavascriptParserPlugin<C> {
    open spec fn obeys_tap_spec(&self, args: NamedRange) -> bool {
        true
    }

    open spec fn spec_run(&self, state: ParserStateView, args: NamedRange) -> (ParserStateView, Result<Option<bool>, Seq<char>>) {
        (state, Ok(None))
    }

    fn run(&self, state: &mut ParserState, args: &NamedNodeArgs) -> (out: Result<Option<bool>, HookError>) {
        Ok(None)
    }
}

impl<C: DefineCallback> BailTap<ParserState, NodeArgs, EvaluatedExpression> for JavascriptParserPlugin<C> {
    open spec fn obeys_tap_spec(&self, args: Span) -> bool {
        true
    }

    open spec fn spec_run(&self, state: ParserStateView, args: Span) -> (ParserStateView, Result<Option<EvaluatedView>, Seq<char>>) {
        (state, Ok(None))
    }

    fn run(&self, state: &mut ParserState, args: &NodeArgs) -> (out: Result<Option<EvaluatedExpression>, HookError>) {
        Ok(None)
    }
}

impl<C: DefineCallback> BailTap<ParserState, NamedNodeArgs, EvaluatedExpression> for JavascriptParserPlugin<C> {
    open spec fn obeys_tap_spec(&self, args: NamedRange) -> bool {
        true
    }

    open spec fn spec_run(&self, state: ParserStateView, args: NamedRange) -> (ParserStateView, Result<Option<EvaluatedView>, Seq<char>>) {
        (state, Ok(None))
    }

    fn run(&self, state: &mut ParserState, args: &NamedNodeArgs) -> (out: Result<Option<EvaluatedExpression>, HookError>) {
        Ok(None)
    }
}

impl<C: DefineCallback> BailTap<ParserState, EvaluateCallExpressionMemberArgs, EvaluatedExpression> for JavascriptParserPlugin<C> {
    open spec fn obeys_tap_spec(&self, args: CallMemberView) -> bool {
        true
    }

    open spec fn spec_run(&self, state: ParserStateView, args: CallMemberView) -> (ParserStateView, Result<Option<EvaluatedView>, Seq<char>>) {
        (state, Ok(None))
    }

    fn run(&self, state: &mut ParserState, args: &EvaluateCallExpressionMemberArgs) -> (out: Result<Option<EvaluatedExpression>, HookError>) {
        Ok(None)
    }
}

impl<C: DefineCallback> BailTap<ParserState, NodeArgs, String> for JavascriptParserPlugin<C> {
    open spec fn obeys_tap_spec(&self, args: Span) -> bool {
        true
    }

    open spec fn spec_run(&self, state: ParserStateView, args: Span) -> (ParserStateView, Result<Option<Seq<char>>, Seq<char>>) {
        (state, Ok(None))
    }

    fn run(&self, state: &mut ParserState, args: &NodeArgs) -> (out: Result<Option<String>, HookError>) {
        Ok(None)
    }
}

/// The hooks after `plugin` registered its taps.
pub open spec fn plugin_applied<C: DefineCallback>(h: HooksView<JavascriptParserPlugin<C>>, plugin: JavascriptParserPlugin<C>) -> HooksView<JavascriptParserPlugin<C>> {
    match plugin {
        JavascriptParserPlugin::EsmLib(_) => esm_lib_apply(h),
        JavascriptParserPlugin::CommonJs(_) => common_js_apply(h),
        JavascriptParserPlugin::Define(p) => p.spec_apply(h),
        JavascriptParserPlugin::EsmTopLevelThis(_) => esm_top_level_this_apply(h),
        JavascriptParserPlugin::ExportsInfoApi(_) => exports_info_apply(h),
        JavascriptParserPlugin::IsIncluded(_) => is_included_apply(h),
        JavascriptParserPlugin::OverrideStrict(_) => override_strict_apply(h),
        JavascriptParserPlugin::Hashbang(_) => hashbang_apply(h),
        JavascriptParserPlugin::Rslib(p) => rslib_apply(p, h),
    }
}

/// The hooks after each plugin of `plugins` registered its taps, in order.
pub open spec fn plugins_applied<C: DefineCallback>(h: HooksView<JavascriptParserPlugin<C>>, plugins: Seq<JavascriptParserPlugin<C>>) -> HooksView<JavascriptParserPlugin<C>>
    decreases plugins.len(),
{
    if plugins.len() == 0 {
        h
    } else {
        plugin_applied(plugins_applied(h, plugins.drop_last()), plugins.last())
    }
}

impl<C: DefineCallback> JavascriptParserPlugin<C> {
    /// Registers the plugin's taps on the hooks.
    pub fn apply(&self, hooks: &mut JavascriptParserHooks<C>)
        requires
            old(hooks).wf(),
        ensures
            final(hooks).wf(),
            final(hooks)@ == plugin_applied(old(hooks)@, *self),
    {
        match self {
            JavascriptParserPlugin::EsmLib(p) => p.apply(hooks),
            JavascriptParserPlugin::CommonJs(p) => p.apply(hooks),
            JavascriptParserPlugin::Define(p) => p.apply(hooks),
            JavascriptParserPlugin::EsmTopLevelThis(p) => p.apply(hooks),
            JavascriptParserPlugin::ExportsInfoApi(p) => p.apply(hooks),
            JavascriptParserPlugin::IsIncluded(p) => p.apply(hooks),
            JavascriptParserPlugin::OverrideStrict(p) => p.apply(hooks),
            JavascriptParserPlugin::Hashbang(p) => p.apply(hooks),
            JavascriptParserPlugin::Rslib(p) => p.apply(hooks),
        }
    }
}

} // verus!

//! Library builds leave the CommonJS `require` extensions alone and keep `typeof module`.
use vstd::prelude::*;
use crate::parser_state::{ParserState, str_eq};
use crate::drive::{JavascriptParserHooks, HooksView, map_bail, lemma_map_bail_tap_added};
use crate::args::{NamedRange, MemberArgs, TypeofArgs};
use crate::parser_state::{ParserStateView, Span};
use crate::hook::{registered, taps_at};
use crate::plugin::{JavascriptParserPlugin, DefineCallback};

verus! {

#[derive(PartialEq, Eq, Debug, Default)]
pub struct RslibParserPlugin {
    pub intercept_api_plugin: bool,
}

/// The `require` members that are left as they are written.
pub open spec fn is_kept_require_member(for_name: Seq<char>) -> bool {
    ||| for_name == "require.cache"@
    ||| for_name == "require.extensions"@
    ||| for_name == "require.config"@
    ||| for_name == "require.version"@
    ||| for_name == "require.include"@
    ||| for_name == "require.onError"@
}

pub open spec fn rslib_member(for_name: Seq<char>) -> Option<bool> {
    if is_kept_require_member(for_name) {
        Some(true)
    } else {
        None
    }
}

/// `typeof module` is not evaluated: the hook answers that it did not handle it.
pub open spec fn rslib_typeof(for_name: Seq<char>) -> Option<bool> {
    if for_name == "module"@ {
        Some(false)
    } else {
        None
    }
}

impl RslibParserPlugin {
    pub fn new(intercept_api_plugin: bool) -> (p: Self)
        ensures
            p.intercept_api_plugin == intercept_api_plugin,
    {
        RslibParserPlugin { intercept_api_plugin }
    }

    /// Another handle on the same settings.
    pub fn duplicate(&self) -> (p: Self)
        ensures
            p == *self,
    {
        RslibParserPlugin { intercept_api_plugin: self.intercept_api_plugin }
    }

    pub fn member(&self, state: &mut ParserState, for_name: &str) -> (r: Option<bool>)
        ensures
            final(state)@ == old(state)@,
            r == rslib_member(for_name@),
    {
        if str_eq(for_name, "require.cache") || str_eq(for_name, "require.extensions") || str_eq(
            for_name,
            "require.config",
        ) || str_eq(for_name, "require.version") || str_eq(for_name, "require.include") || str_eq(
            for_name,
            "require.onError",
        ) {
            return Some(true);
        }
        None
    }

    pub fn type_of(&self, state: &mut ParserState, for_name: &str) -> (r: Option<bool>)
        ensures
            final(state)@ == old(state)@,
            r == rslib_typeof(for_name@),
    {
        if str_eq(for_name, "module") {
            Some(false)
        } else {
            None
        }
    }
}

pub open spec fn rslib_apply<C>(p: RslibParserPlugin, h: HooksView<JavascriptParserPlugin<C>>) -> HooksView<JavascriptParserPlugin<C>> {
    let t = JavascriptParserPlugin::Rslib(p);
    HooksView {
        member: registered(
            registered(
                registered(
                    registered(registered(registered(h.member, "require.cache"@, t), "require.extensions"@, t), "require.config"@, t),
                    "require.version"@,
                    t,
                ),
                "require.include"@,
                t,
            ),
            "require.onError"@,
            t,
        ),
        type_of: registered(h.type_of, "module"@, t),
        ..h
    }
}

impl RslibParserPlugin {
    pub fn apply<C: DefineCallback>(&self, hooks: &mut JavascriptParserHooks<C>)
        requires
            old(hooks).wf(),
        ensures
            final(hooks).wf(),
            final(hooks)@ == rslib_apply(*self, old(hooks)@),
    {
        hooks.member.tap_for("require.cache", JavascriptParserPlugin::Rslib(self.duplicate()));
        hooks.member.tap_for("require.extensions", JavascriptParserPlugin::Rslib(self.duplicate()));
        hooks.member.tap_for("require.config", JavascriptParserPlugin::Rslib(self.duplicate()));
        hooks.member.tap_for("require.version", JavascriptParserPlugin::Rslib(self.duplicate()));
        hooks.member.tap_for("require.include", JavascriptParserPlugin::Rslib(self.duplicate()));
        hooks.member.tap_for("require.onError", JavascriptParserPlugin::Rslib(self.duplicate()));
        hooks.type_of.tap_for("module", JavascriptParserPlugin::Rslib(self.duplicate()));
    }
}

/// Once the plugin registered, each of `require.cache`, `require.extensions`, `require.config`,
/// `require.version`, `require.include` and `require.onError` used as a member expression is
/// kept as written (answered `true`, the state unchanged), unless a tap registered before
/// answered for the name.
pub proof fn lemma_rslib_member_hook<C: DefineCallback>(p: RslibParserPlugin, h: HooksView<JavascriptParserPlugin<C>>, s: ParserStateView, span: Span, name: Seq<char>)
    requires
        name == "require.cache"@ || name == "require.extensions"@ || name == "require.config"@
            || name == "require.version"@ || name == "require.include"@ || name == "require.onError"@,
    ensures
        ({
            let a = NamedRange { span, for_name: name };
            let (s1, r1) = map_bail::<MemberArgs, bool, C>(h.member, name, s, a);
            map_bail::<MemberArgs, bool, C>(rslib_apply(p, h).member, name, s, a) == if r1 == Ok::<Option<bool>, Seq<char>>(None) {
                (s1, Ok::<Option<bool>, Seq<char>>(Some(true)))
            } else {
                (s1, r1)
            }
        }),
{
    reveal_strlit("require.cache");
    reveal_strlit("require.extensions");
    reveal_strlit("require.config");
    reveal_strlit("require.version");
    reveal_strlit("require.include");
    reveal_strlit("require.onError");
    assert("require.cache"@[8] == 'c' && "require.cache"@.len() == 13);
    assert("require.extensions"@[8] == 'e');
    assert("require.config"@[8] == 'c' && "require.config"@.len() == 14);
    assert("require.version"@[8] == 'v');
    assert("require.include"@[8] == 'i');
    assert("require.onError"@[8] == 'o');
    let t = JavascriptParserPlugin::Rslib(p);
    let a = NamedRange { span, for_name: name };
    let after = rslib_apply(p, h).member;
    assert(taps_at(after, name) == taps_at(h.member, name).push(t));
    lemma_map_bail_tap_added::<MemberArgs, bool, C>(h.member, after, name, true, t, s, a);
}

/// Once the plugin registered, `typeof module` is answered `false` with the state unchanged,
/// unless a tap registered before answered.
pub proof fn lemma_rslib_typeof_hook<C: DefineCallback>(p: RslibParserPlugin, h: HooksView<JavascriptParserPlugin<C>>, s: ParserStateView, span: Span)
    ensures
        ({
            let a = NamedRange { span, for_name: "module"@ };
            let (s1, r1) = map_bail::<TypeofArgs, bool, C>(h.type_of, "module"@, s, a);
            map_bail::<TypeofArgs, bool, C>(rslib_apply(p, h).type_of, "module"@, s, a) == if r1 == Ok::<Option<bool>, Seq<char>>(None) {
                (s1, Ok::<Option<bool>, Seq<char>>(Some(false)))
            } else {
                (s1, r1)
            }
        }),
{
    let t = JavascriptParserPlugin::Rslib(p);
    let a = NamedRange { span, for_name: "module"@ };
    lemma_map_bail_tap_added::<TypeofArgs, bool, C>(h.type_of, rslib_apply(p, h).type_of, "module"@, true, t, s, a);
}

} // verus!

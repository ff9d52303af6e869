//! `__webpack_exports_info__` and its members are answered from the exports information.
use vstd::prelude::*;
use crate::parser_state::{ParserState, ParserStateView, Dependency, DependencyView, Span, str_eq, strings_view};
use crate::drive::{JavascriptParserHooks, HooksView, map_bail, lemma_map_bail_tap_added};
use crate::args::{NamedRange, ChainView, MemberChainArgs, IdentifierArgs};
use crate::hook::registered;
use crate::plugin::{JavascriptParserPlugin, DefineCallback};

verus! {

pub const EXPORTS_INFO: &'static str = "__webpack_exports_info__";

pub struct ExportsInfoApiPlugin;

/// `__webpack_exports_info__.a.b.prop` asks for `prop` of the export `a.b`.
pub open spec fn exports_info_member_chain(s: ParserStateView, span: Span, for_name: Seq<char>, members: Seq<Seq<char>>) -> (ParserStateView, Option<bool>) {
    if members.len() >= 1 && for_name == EXPORTS_INFO@ {
        (s.with_presentational(DependencyView::ExportInfo {
            range: span,
            export_name: members.take(members.len() - 1),
            property: members[members.len() - 1],
        }), Some(true))
    } else {
        (s, None)
    }
}

/// `__webpack_exports_info__` alone is replaced by `true`.
pub open spec fn exports_info_identifier(s: ParserStateView, span: Span, for_name: Seq<char>) -> (ParserStateView, Option<bool>) {
    if for_name == EXPORTS_INFO@ {
        (s.with_presentational(DependencyView::Const { range: span, content: "true"@ }), Some(true))
    } else {
        (s, None)
    }
}

impl ExportsInfoApiPlugin {
    pub fn member_chain(&self, state: &mut ParserState, span: Span, for_name: &str, members: &Vec<String>) -> (r: Option<bool>)
        ensures
            (final(state)@, r) == exports_info_member_chain(old(state)@, span, for_name@, strings_view(members@)),
    {
        let len = members.len();
        if len >= 1 && str_eq(for_name, EXPORTS_INFO) {
            let prop = members[len - 1].clone();
            let mut export_name: Vec<String> = Vec::new();
            let mut i: usize = 0;
            while i < len - 1
                invariant
                    len == members.len(),
                    len >= 1,
                    i <= len - 1,
                    strings_view(export_name@) =~= strings_view(members@).take(i as int),
                decreases len - 1 - i,
            {
                export_name.push(members[i].clone());
                assert(strings_view(members@).take(i + 1) =~= strings_view(members@).take(i as int).push(members@[i as int]@));
                i += 1;
            }
            state.add_presentational_dependency(Dependency::ExportInfo { range: span, export_name, property: prop });
            Some(true)
        } else {
            None
        }
    }

    pub fn identifier(&self, state: &mut ParserState, span: Span, for_name: &str) -> (r: Option<bool>)
        ensures
            (final(state)@, r) == exports_info_identifier(old(state)@, span, for_name@),
    {
        if str_eq(for_name, EXPORTS_INFO) {
            state.add_presentational_dependency(Dependency::Const { range: span, content: "true".to_owned() });
            Some(true)
        } else {
            None
        }
    }
}

pub open spec fn exports_info_apply<C>(h: HooksView<JavascriptParserPlugin<C>>) -> HooksView<JavascriptParserPlugin<C>> {
    let t = JavascriptParserPlugin::ExportsInfoApi(ExportsInfoApiPlugin);
    HooksView {
        member_chain: registered(h.member_chain, EXPORTS_INFO@, t),
        identifier: registered(h.identifier, EXPORTS_INFO@, t),
        ..h
    }
}

impl ExportsInfoApiPlugin {
    pub fn apply<C: DefineCallback>(&self, hooks: &mut JavascriptParserHooks<C>)
        requires
            old(hooks).wf(),
        ensures
            final(hooks).wf(),
            final(hooks)@ == exports_info_apply(old(hooks)@),
    {
        hooks.member_chain.tap_for(EXPORTS_INFO, JavascriptParserPlugin::ExportsInfoApi(ExportsInfoApiPlugin));
        hooks.identifier.tap_for(EXPORTS_INFO, JavascriptParserPlugin::ExportsInfoApi(ExportsInfoApiPlugin));
    }
}


/// The export name and the property recorded for a member chain are the chain's members.
pub proof fn lemma_export_info_members(s: ParserStateView, span: Span, members: Seq<Seq<char>>)
    requires
        members.len() >= 1,
    ensures
        ({
            let (s1, r) = exports_info_member_chain(s, span, EXPORTS_INFO@, members);
            &&& r == Some(true)
            &&& s1.presentational_dependencies.last() matches DependencyView::ExportInfo { export_name, property, .. }
                && export_name.push(property) == members
        }),
{
    assert(members.take(members.len() - 1).push(members[members.len() - 1]) =~= members);
}

/// Once the plugin registered, `__webpack_exports_info__.m1. ... .mk.prop` (at least one member)
/// records a request for `prop` of the export `m1. ... .mk` over the chain's range and is
/// answered `true`; with no member it is left alone.  Taps registered before answer first.
pub proof fn lemma_exports_info_member_chain_hook<C: DefineCallback>(h: HooksView<JavascriptParserPlugin<C>>, s: ParserStateView, span: Span, members: Seq<Seq<char>>)
    ensures
        ({
            let a = ChainView { span, for_name: EXPORTS_INFO@, members };
            let (s1, r1) = map_bail::<MemberChainArgs, bool, C>(h.member_chain, EXPORTS_INFO@, s, a);
            map_bail::<MemberChainArgs, bool, C>(exports_info_apply(h).member_chain, EXPORTS_INFO@, s, a) == if r1 == Ok::<Option<bool>, Seq<char>>(None) {
                if members.len() >= 1 {
                    (ParserStateView {
                        presentational_dependencies: s1.presentational_dependencies.push(DependencyView::ExportInfo {
                            range: span,
                            export_name: members.subrange(0, members.len() - 1),
                            property: members.last(),
                        }),
                        ..s1
                    }, Ok::<Option<bool>, Seq<char>>(Some(true)))
                } else {
                    (s1, Ok::<Option<bool>, Seq<char>>(None))
                }
            } else {
                (s1, r1)
            }
        }),
{
    let t = JavascriptParserPlugin::ExportsInfoApi(ExportsInfoApiPlugin);
    let a = ChainView { span, for_name: EXPORTS_INFO@, members };
    lemma_map_bail_tap_added::<MemberChainArgs, bool, C>(h.member_chain, exports_info_apply(h).member_chain, EXPORTS_INFO@, true, t, s, a);
    if members.len() >= 1 {
        assert(members.take(members.len() - 1) =~= members.subrange(0, members.len() - 1));
    }
}

/// Once the plugin registered, `__webpack_exports_info__` alone is replaced by `true`, unless a
/// tap registered before answered.
pub proof fn lemma_exports_info_identifier_hook<C: DefineCallback>(h: HooksView<JavascriptParserPlugin<C>>, s: ParserStateView, span: Span)
    ensures
        ({
            let a = NamedRange { span, for_name: EXPORTS_INFO@ };
            let (s1, r1) = map_bail::<IdentifierArgs, bool, C>(h.identifier, EXPORTS_INFO@, s, a);
            map_bail::<IdentifierArgs, bool, C>(exports_info_apply(h).identifier, EXPORTS_INFO@, s, a) == if r1 == Ok::<Option<bool>, Seq<char>>(None) {
                (ParserStateView {
                    presentational_dependencies: s1.presentational_dependencies.push(DependencyView::Const { range: span, content: "true"@ }),
                    ..s1
                }, Ok::<Option<bool>, Seq<char>>(Some(true)))
            } else {
                (s1, r1)
            }
        }),
{
    let t = JavascriptParserPlugin::ExportsInfoApi(ExportsInfoApiPlugin);
    let a = NamedRange { span, for_name: EXPORTS_INFO@ };
    lemma_map_bail_tap_added::<IdentifierArgs, bool, C>(h.identifier, exports_info_apply(h).identifier, EXPORTS_INFO@, true, t, s, a);
}

} // verus!

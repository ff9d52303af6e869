//! A module's hashbang line is kept aside for rendering and removed from the source.
use vstd::prelude::*;
use vstd::utf8::encode_utf8;
use crate::parser_state::{ParserState, ParserStateView, Dependency, DependencyView, Span, option_view};
use crate::drive::{JavascriptParserHooks, HooksView};
use crate::hook::{bail_run, lemma_bail_run_push};
use crate::args::ProgramArgs;
use crate::plugin::{JavascriptParserPlugin, DefineCallback};

verus! {

pub struct HashbangParserPlugin;

/// The hashbang text already starts with `#!`.
pub open spec fn has_hashbang_prefix(h: Seq<char>) -> bool {
    h.len() >= 2 && h[0] == '#' && h[1] == '!'
}

/// The hashbang with its `#!`.
pub open spec fn normalized_hashbang(h: Seq<char>) -> Seq<char> {
    if has_hashbang_prefix(h) {
        h
    } else {
        "#!"@ + h
    }
}

/// `a + b` on `u32`, wrapping around at 2^32.
pub open spec fn wrapping_add_u32(a: u32, b: u32) -> u32 {
    if a + b <= u32::MAX {
        (a + b) as u32
    } else {
        (a + b - 0x1_0000_0000) as u32
    }
}

/// The length, in bytes of the source, that the hashbang line takes: its UTF-8 length
/// truncated to `u32`, plus the two bytes of `#!` where the hashbang text lacks them.
pub open spec fn hashbang_source_len(h: Seq<char>) -> u32 {
    let n = (encode_utf8(h).len() as usize) as u32;
    if has_hashbang_prefix(h) {
        n
    } else {
        wrapping_add_u32(n, 2)
    }
}

pub open spec fn hashbang_program(s: ParserStateView, shebang: Option<Seq<char>>) -> (ParserStateView, Option<bool>) {
    match shebang {
        None => (s, None),
        Some(h) => (
            ParserStateView { extras: s.extras.insert("hashbang"@, normalized_hashbang(h)), ..s }.with_presentational(
                DependencyView::Const { range: Span { start: 0, end: hashbang_source_len(h) }, content: Seq::empty() },
            ),
            None,
        ),
    }
}

fn starts_with_hashbang(h: &str) -> (b: bool)
    ensures
        b == has_hashbang_prefix(h@),
{
    h.unicode_len() >= 2 && h.get_char(0) == '#' && h.get_char(1) == '!'
}

impl HashbangParserPlugin {
    pub fn program(&self, state: &mut ParserState, shebang: Option<&String>) -> (r: Option<bool>)
        ensures
            (final(state)@, r) == hashbang_program(old(state)@, option_view(shebang)),
    {
        let hashbang = match shebang {
            Some(h) => h,
            None => return None,
        };
        let prefixed = starts_with_hashbang(hashbang.as_str());
        let normalized = if prefixed {
            hashbang.clone()
        } else {
            let mut n = "#!".to_owned();
            n.append(hashbang.as_str());
            n
        };
        state.insert_extra("hashbang".to_owned(), normalized);
        let byte_len = hashbang.as_str().len() as u32;
        let replace_len: u32 = if prefixed {
            byte_len
        } else if byte_len <= u32::MAX - 2 {
            byte_len + 2
        } else {
            byte_len - (u32::MAX - 1)
        };
        state.add_presentational_dependency(Dependency::Const { range: Span { start: 0, end: replace_len }, content: String::new() });
        None
    }
}

pub open spec fn hashbang_apply<C>(h: HooksView<JavascriptParserPlugin<C>>) -> HooksView<JavascriptParserPlugin<C>> {
    HooksView { program: h.program.push(JavascriptParserPlugin::Hashbang(HashbangParserPlugin)), ..h }
}

impl HashbangParserPlugin {
    pub fn apply<C: DefineCallback>(&self, hooks: &mut JavascriptParserHooks<C>)
        requires
            old(hooks).wf(),
        ensures
            final(hooks).wf(),
            final(hooks)@ == hashbang_apply(old(hooks)@),
    {
        hooks.program.tap(JavascriptParserPlugin::Hashbang(HashbangParserPlugin));
    }
}


/// The hashbang kept for rendering always starts with `#!`, and a hashbang that has it already
/// is kept as it is.
pub proof fn lemma_normalized_hashbang(h: Seq<char>)
    ensures
        has_hashbang_prefix(normalized_hashbang(h)),
        has_hashbang_prefix(h) ==> normalized_hashbang(h) == h,
{
    reveal_strlit("#!");
    if !has_hashbang_prefix(h) {
        assert(("#!"@ + h)[0] == '#');
        assert(("#!"@ + h)[1] == '!');
    }
}

/// Once the plugin registered, the `program` hook keeps a hashbang, with `#!` in front when it
/// lacks it, as the `hashbang` extra, and removes the hashbang line from the start of the source;
/// without a hashbang the module is left as it is.  The hook's answer stays a pass.  Taps
/// registered before run first.
pub proof fn lemma_hashbang_program_hook<C: DefineCallback>(h: HooksView<JavascriptParserPlugin<C>>, s: ParserStateView, shebang: Option<Seq<char>>)
    ensures
        ({
            let (s1, r1) = bail_run::<ParserState, ProgramArgs, bool, JavascriptParserPlugin<C>>(h.program, s, shebang);
            bail_run::<ParserState, ProgramArgs, bool, JavascriptParserPlugin<C>>(hashbang_apply(h).program, s, shebang)
                == if r1 == Ok::<Option<bool>, Seq<char>>(None) {
                match shebang {
                    None => (s1, Ok::<Option<bool>, Seq<char>>(None)),
                    Some(x) => (ParserStateView {
                        extras: s1.extras.insert(
                            "hashbang"@,
                            if x.len() >= 2 && x[0] == '#' && x[1] == '!' { x } else { seq!['#', '!'] + x },
                        ),
                        presentational_dependencies: s1.presentational_dependencies.push(
                            DependencyView::Const { range: Span { start: 0, end: hashbang_source_len(x) }, content: Seq::empty() },
                        ),
                        ..s1
                    }, Ok::<Option<bool>, Seq<char>>(None)),
                }
            } else {
                (s1, r1)
            }
        }),
{
    reveal_strlit("#!");
    assert("#!"@ =~= seq!['#', '!']);
    lemma_bail_run_push::<ParserState, ProgramArgs, bool, JavascriptParserPlugin<C>>(
        h.program,
        JavascriptParserPlugin::Hashbang(HashbangParserPlugin),
        s,
        shebang,
    );
}

/// The source range removed for a hashbang is its length in UTF-8 bytes, and two bytes more
/// when the hashbang text lacks its `#!`, as long as that fits in a `u32`.
pub proof fn lemma_hashbang_source_len(x: Seq<char>)
    requires
        encode_utf8(x).len() + 2 <= u32::MAX,
    ensures
        hashbang_source_len(x) == encode_utf8(x).len() + (if x.len() >= 2 && x[0] == '#' && x[1] == '!' { 0int } else { 2int }),
{
}

} // verus!

use rspack_parser_plugins::args::CallArgument;
use rspack_parser_plugins::common_js_plugin::CommonJsPlugin;
use rspack_parser_plugins::esm_lib_parser_plugin::EsmLibParserPlugin;
use rspack_parser_plugins::esm_top_level_this_plugin::ESMTopLevelThisParserPlugin;
use rspack_parser_plugins::exports_info_api_plugin::ExportsInfoApiPlugin;
use rspack_parser_plugins::hashbang_parser_plugin::HashbangParserPlugin;
use rspack_parser_plugins::is_included_plugin::IsIncludedPlugin;
use rspack_parser_plugins::override_strict_plugin::OverrideStrictPlugin;
use rspack_parser_plugins::parser_state::{
    Dependency, DependencyType, EvaluatedExpression, ExportsType, OverrideStrict, ParserState, RuntimeGlobal, Span,
};
use rspack_parser_plugins::rslib_parser_plugin::RslibParserPlugin;

fn state() -> ParserState {
    ParserState::new(true, false, None)
}

fn span(start: u32, end: u32) -> Span {
    Span { start, end }
}

#[test]
fn common_js_evaluates_module_hot_as_identifier() {
    let mut s = state();
    let r = CommonJsPlugin.evaluate_identifier(&mut s, "module.hot", 3, 13);
    assert_eq!(
        r,
        Some(EvaluatedExpression::Identifier {
            name: "module.hot".to_string(),
            root: "module".to_string(),
            truthy: None,
            range: span(3, 13),
        })
    );
    assert_eq!(CommonJsPlugin.evaluate_identifier(&mut s, "module", 3, 9), None);
    assert!(s.presentational_dependencies.is_empty());
}

#[test]
fn common_js_typeof_module_is_object() {
    let mut s = state();
    assert_eq!(CommonJsPlugin.type_of(&mut s, span(0, 13), "module"), Some(true));
    assert_eq!(
        s.presentational_dependencies,
        vec![Dependency::Const { range: span(0, 13), content: "'object'".to_string() }]
    );
    assert_eq!(CommonJsPlugin.type_of(&mut s, span(0, 13), "exports"), None);
    assert_eq!(s.presentational_dependencies.len(), 1);
}

#[test]
fn common_js_module_id_and_loaded_need_runtime() {
    let mut s = state();
    assert_eq!(CommonJsPlugin.member(&mut s, "module.id"), Some(true));
    assert_eq!(s.module_concatenation_bailout, Some("module.id".to_string()));
    assert_eq!(CommonJsPlugin.member(&mut s, "module.loaded"), Some(true));
    assert_eq!(s.module_concatenation_bailout, Some("module.loaded".to_string()));
    assert_eq!(
        s.presentational_dependencies,
        vec![
            Dependency::RuntimeRequirements { global: RuntimeGlobal::ModuleId },
            Dependency::RuntimeRequirements { global: RuntimeGlobal::ModuleLoaded },
        ]
    );
    assert_eq!(CommonJsPlugin.member(&mut s, "module.exports"), None);
    assert_eq!(s.presentational_dependencies.len(), 2);
}

#[test]
fn esm_lib_marks_plain_auto_module_as_namespace() {
    let mut s = state();
    assert_eq!(EsmLibParserPlugin.finish(&mut s), None);
    assert_eq!(s.exports_type, ExportsType::Namespace);
    assert_eq!(s.presentational_dependencies, vec![Dependency::EsmCompatibility]);
    // Finishing again changes nothing more.
    assert_eq!(EsmLibParserPlugin.finish(&mut s), None);
    assert_eq!(s.presentational_dependencies, vec![Dependency::EsmCompatibility]);
}

#[test]
fn esm_lib_leaves_common_js_modules_alone() {
    let mut s = state();
    s.dependencies.push(Dependency::Other { dependency_type: DependencyType::CjsRequire });
    assert_eq!(EsmLibParserPlugin.finish(&mut s), None);
    assert_eq!(s.exports_type, ExportsType::Unset);
    assert!(s.presentational_dependencies.is_empty());

    let mut s = ParserState::new(false, false, None);
    assert_eq!(EsmLibParserPlugin.finish(&mut s), None);
    assert_eq!(s.exports_type, ExportsType::Unset);

    let mut s = state();
    s.exports_type = ExportsType::Dynamic;
    assert_eq!(EsmLibParserPlugin.finish(&mut s), None);
    assert_eq!(s.exports_type, ExportsType::Dynamic);
    assert!(s.presentational_dependencies.is_empty());
}

#[test]
fn esm_top_level_this_is_undefined() {
    let mut s = ParserState::new(true, true, None);
    s.top_level_this = true;
    assert_eq!(ESMTopLevelThisParserPlugin.this(&mut s, span(5, 9), "this"), Some(true));
    assert_eq!(
        s.presentational_dependencies,
        vec![Dependency::Const { range: span(5, 9), content: "undefined".to_string() }]
    );

    let mut s = ParserState::new(true, false, None);
    s.top_level_this = true;
    assert_eq!(ESMTopLevelThisParserPlugin.this(&mut s, span(5, 9), "this"), None);
    let mut s = ParserState::new(true, true, None);
    assert_eq!(ESMTopLevelThisParserPlugin.this(&mut s, span(5, 9), "this"), None);
    assert!(s.presentational_dependencies.is_empty());
}

#[test]
fn exports_info_member_chain_splits_property() {
    let mut s = state();
    let members = vec!["a".to_string(), "b".to_string(), "used".to_string()];
    assert_eq!(
        ExportsInfoApiPlugin.member_chain(&mut s, span(1, 40), "__webpack_exports_info__", &members),
        Some(true)
    );
    assert_eq!(
        s.presentational_dependencies,
        vec![Dependency::ExportInfo {
            range: span(1, 40),
            export_name: vec!["a".to_string(), "b".to_string()],
            property: "used".to_string(),
        }]
    );
    assert_eq!(ExportsInfoApiPlugin.member_chain(&mut s, span(1, 40), "__webpack_exports_info__", &vec![]), None);
    assert_eq!(ExportsInfoApiPlugin.member_chain(&mut s, span(1, 40), "exports", &members), None);
    assert_eq!(s.presentational_dependencies.len(), 1);
}

#[test]
fn exports_info_identifier_is_true() {
    let mut s = state();
    assert_eq!(ExportsInfoApiPlugin.identifier(&mut s, span(0, 24), "__webpack_exports_info__"), Some(true));
    assert_eq!(
        s.presentational_dependencies,
        vec![Dependency::Const { range: span(0, 24), content: "true".to_string() }]
    );
    assert_eq!(ExportsInfoApiPlugin.identifier(&mut s, span(0, 3), "foo"), None);
}

fn string_arg(value: &str) -> CallArgument {
    CallArgument {
        spread: false,
        evaluated: EvaluatedExpression::Str { value: value.to_string(), range: span(24, 31) },
    }
}

#[test]
fn is_included_records_string_request() {
    let mut s = state();
    let args = vec![string_arg("./foo")];
    assert_eq!(IsIncludedPlugin.call(&mut s, span(0, 32), "__webpack_is_included__", &args), Some(true));
    assert_eq!(
        s.dependencies,
        vec![Dependency::IsInclude { range: span(0, 32), request: "./foo".to_string() }]
    );
    assert!(s.presentational_dependencies.is_empty());
}

#[test]
fn is_included_ignores_other_calls() {
    let mut s = state();
    assert_eq!(IsIncludedPlugin.call(&mut s, span(0, 5), "require", &vec![string_arg("./foo")]), None);
    assert_eq!(
        IsIncludedPlugin.call(&mut s, span(0, 5), "__webpack_is_included__", &vec![string_arg("a"), string_arg("b")]),
        None
    );
    assert_eq!(IsIncludedPlugin.call(&mut s, span(0, 5), "__webpack_is_included__", &vec![]), None);
    let spread = CallArgument { spread: true, evaluated: EvaluatedExpression::Str { value: "a".to_string(), range: span(1, 2) } };
    assert_eq!(IsIncludedPlugin.call(&mut s, span(0, 5), "__webpack_is_included__", &vec![spread]), None);
    let unknown = CallArgument { spread: false, evaluated: EvaluatedExpression::Other { range: span(1, 2) } };
    assert_eq!(IsIncludedPlugin.call(&mut s, span(0, 5), "__webpack_is_included__", &vec![unknown]), None);
    assert!(s.dependencies.is_empty());
}

#[test]
fn is_included_typeof_is_function() {
    let mut s = state();
    assert_eq!(IsIncludedPlugin.type_of(&mut s, span(0, 30), "__webpack_is_included__"), Some(true));
    assert_eq!(
        s.presentational_dependencies,
        vec![Dependency::Const { range: span(0, 30), content: "'function'".to_string() }]
    );
    assert_eq!(IsIncludedPlugin.type_of(&mut s, span(0, 30), "module"), None);
}

#[test]
fn override_strict_sets_strictness() {
    let mut s = ParserState::new(true, false, Some(OverrideStrict::Strict));
    assert_eq!(OverrideStrictPlugin.program(&mut s), None);
    assert!(s.strict);

    let mut s = ParserState::new(true, false, Some(OverrideStrict::NonStrict));
    s.strict = true;
    assert_eq!(OverrideStrictPlugin.program(&mut s), None);
    assert!(!s.strict);

    let mut s = ParserState::new(true, false, None);
    s.strict = true;
    assert_eq!(OverrideStrictPlugin.program(&mut s), None);
    assert!(s.strict);
}

#[test]
fn hashbang_with_prefix_is_kept_and_removed() {
    let mut s = state();
    let shebang = "#!/usr/bin/env node".to_string();
    assert_eq!(HashbangParserPlugin.program(&mut s, Some(&shebang)), None);
    assert_eq!(s.extras.get("hashbang"), Some(&"#!/usr/bin/env node".to_string()));
    assert_eq!(
        s.presentational_dependencies,
        vec![Dependency::Const { range: span(0, 19), content: String::new() }]
    );
}

#[test]
fn hashbang_without_prefix_gets_one() {
    let mut s = state();
    let shebang = "/usr/bin/env node".to_string();
    assert_eq!(HashbangParserPlugin.program(&mut s, Some(&shebang)), None);
    assert_eq!(s.extras.get("hashbang"), Some(&"#!/usr/bin/env node".to_string()));
    assert_eq!(
        s.presentational_dependencies,
        vec![Dependency::Const { range: span(0, 19), content: String::new() }]
    );
}

#[test]
fn hashbang_length_counts_bytes() {
    let mut s = state();
    let shebang = "/bin/é".to_string();
    assert_eq!(HashbangParserPlugin.program(&mut s, Some(&shebang)), None);
    assert_eq!(s.extras.get("hashbang"), Some(&"#!/bin/é".to_string()));
    assert_eq!(
        s.presentational_dependencies,
        vec![Dependency::Const { range: span(0, 9), content: String::new() }]
    );
}

#[test]
fn no_hashbang_changes_nothing() {
    let mut s = state();
    assert_eq!(HashbangParserPlugin.program(&mut s, None), None);
    assert!(s.extras.get("hashbang").is_none());
    assert!(s.presentational_dependencies.is_empty());
}

#[test]
fn rslib_keeps_require_extensions() {
    let p = RslibParserPlugin::new(true);
    assert!(p.intercept_api_plugin);
    let mut s = state();
    for name in ["require.cache", "require.extensions", "require.config", "require.version", "require.include", "require.onError"] {
        assert_eq!(p.member(&mut s, name), Some(true));
    }
    assert_eq!(p.member(&mut s, "require.resolve"), None);
    assert_eq!(p.type_of(&mut s, "module"), Some(false));
    assert_eq!(p.type_of(&mut s, "exports"), None);
    assert!(s.presentational_dependencies.is_empty());
    assert_eq!(RslibParserPlugin::new(false), RslibParserPlugin::default());
}

#[test]
fn override_strict_twice_is_once() {
    for strictness in [OverrideStrict::Strict, OverrideStrict::NonStrict] {
        let mut s = ParserState::new(true, false, Some(strictness));
        assert_eq!(OverrideStrictPlugin.program(&mut s), None);
        let once = s.strict;
        assert_eq!(OverrideStrictPlugin.program(&mut s), None);
        assert_eq!(s.strict, once);
    }
}

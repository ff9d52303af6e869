use rspack_parser_plugins::args::{
    CallArgs, CallArgument, CallMemberChainArgs, CanRenameArgs, DestructuringArgs, EvaluateCallExpressionMemberArgs,
    EvaluateIdentifierArgs, EvaluateTypeofArgs, IdentifierArgs, MemberArgs, MemberChainArgs, NamedNodeArgs, NodeArgs,
    ProgramArgs, ThisArgs, TypeofArgs,
};
use rspack_parser_plugins::common_js_plugin::CommonJsPlugin;
use rspack_parser_plugins::define_plugin::DefineCallback;
use rspack_parser_plugins::drive::JavascriptParserHooks;
use rspack_parser_plugins::esm_lib_parser_plugin::EsmLibParserPlugin;
use rspack_parser_plugins::esm_top_level_this_plugin::ESMTopLevelThisParserPlugin;
use rspack_parser_plugins::exports_info_api_plugin::ExportsInfoApiPlugin;
use rspack_parser_plugins::hashbang_parser_plugin::HashbangParserPlugin;
use rspack_parser_plugins::is_included_plugin::IsIncludedPlugin;
use rspack_parser_plugins::override_strict_plugin::OverrideStrictPlugin;
use rspack_parser_plugins::parser_state::{
    Dependency, EvaluatedExpression, ExportsType, OverrideStrict, ParserState, RuntimeGlobal, Span,
};
use rspack_parser_plugins::plugin::JavascriptParserPlugin;
use rspack_parser_plugins::rslib_parser_plugin::RslibParserPlugin;

/// No definitions are used in these tests.
struct NoCallback;

impl DefineCallback for NoCallback {
    fn evaluate_typeof(&self, _state: &mut ParserState, _span: Span) -> Option<EvaluatedExpression> {
        None
    }

    fn evaluate_identifier(&self, _state: &mut ParserState, _for_name: &str, _start: u32, _end: u32) -> Option<EvaluatedExpression> {
        None
    }

    fn on_typeof(&self, _state: &mut ParserState, _span: Span) -> Option<bool> {
        None
    }

    fn on_expression(&self, _state: &mut ParserState, _span: Span, _for_name: &str) -> Option<bool> {
        None
    }
}

type Plugin = JavascriptParserPlugin<NoCallback>;

fn span(start: u32, end: u32) -> Span {
    Span { start, end }
}

fn all_plugins() -> Vec<Plugin> {
    vec![
        JavascriptParserPlugin::EsmLib(EsmLibParserPlugin),
        JavascriptParserPlugin::CommonJs(CommonJsPlugin),
        JavascriptParserPlugin::EsmTopLevelThis(ESMTopLevelThisParserPlugin),
        JavascriptParserPlugin::ExportsInfoApi(ExportsInfoApiPlugin),
        JavascriptParserPlugin::IsIncluded(IsIncludedPlugin),
        JavascriptParserPlugin::OverrideStrict(OverrideStrictPlugin),
        JavascriptParserPlugin::Hashbang(HashbangParserPlugin),
        JavascriptParserPlugin::Rslib(RslibParserPlugin::new(false)),
    ]
}

#[test]
fn drive_typeof_module_answer_depends_on_order() {
    let hooks = JavascriptParserHooks::new(vec![
        JavascriptParserPlugin::<NoCallback>::CommonJs(CommonJsPlugin),
        JavascriptParserPlugin::Rslib(RslibParserPlugin::new(false)),
    ]);
    let mut s = ParserState::new(true, false, None);
    assert_eq!(hooks.type_of(&mut s, &TypeofArgs { span: span(0, 13), for_name: "module".to_string() }), Some(true));
    assert_eq!(
        s.presentational_dependencies,
        vec![Dependency::Const { range: span(0, 13), content: "'object'".to_string() }]
    );

    let hooks = JavascriptParserHooks::new(vec![
        JavascriptParserPlugin::<NoCallback>::Rslib(RslibParserPlugin::new(false)),
        JavascriptParserPlugin::CommonJs(CommonJsPlugin),
    ]);
    let mut s = ParserState::new(true, false, None);
    assert_eq!(hooks.type_of(&mut s, &TypeofArgs { span: span(0, 13), for_name: "module".to_string() }), Some(false));
    assert!(s.presentational_dependencies.is_empty());
}

#[test]
fn drive_member_runs_only_the_taps_of_the_name() {
    let hooks = JavascriptParserHooks::new(all_plugins());
    let mut s = ParserState::new(true, false, None);
    assert_eq!(hooks.member(&mut s, &MemberArgs { span: span(0, 9), for_name: "module.id".to_string() }), Some(true));
    assert_eq!(
        hooks.member(&mut s, &MemberArgs { span: span(0, 13), for_name: "require.cache".to_string() }),
        Some(true)
    );
    assert_eq!(
        hooks.member(&mut s, &MemberArgs { span: span(0, 15), for_name: "require.resolve".to_string() }),
        None
    );
    assert_eq!(s.presentational_dependencies, vec![Dependency::RuntimeRequirements { global: RuntimeGlobal::ModuleId }]);
    assert_eq!(s.module_concatenation_bailout, Some("module.id".to_string()));
}

#[test]
fn drive_program_runs_every_program_tap() {
    let hooks = JavascriptParserHooks::new(all_plugins());
    let mut s = ParserState::new(true, false, Some(OverrideStrict::Strict));
    let args = ProgramArgs { shebang: Some("node".to_string()) };
    assert_eq!(hooks.program(&mut s, &args), None);
    assert!(s.strict);
    assert_eq!(s.extras.get("hashbang"), Some(&"#!node".to_string()));
    assert_eq!(s.presentational_dependencies, vec![Dependency::Const { range: span(0, 6), content: String::new() }]);
}

#[test]
fn drive_finish_marks_esm() {
    let hooks = JavascriptParserHooks::new(all_plugins());
    let mut s = ParserState::new(true, false, None);
    assert_eq!(hooks.finish(&mut s), None);
    assert_eq!(s.exports_type, ExportsType::Namespace);
    assert_eq!(s.presentational_dependencies, vec![Dependency::EsmCompatibility]);
}

#[test]
fn drive_evaluate_hooks() {
    let hooks = JavascriptParserHooks::new(all_plugins());
    let mut s = ParserState::new(true, false, None);
    assert_eq!(
        hooks.evaluate_identifier(&mut s, &EvaluateIdentifierArgs { for_name: "module.hot".to_string(), start: 1, end: 11 }),
        Some(EvaluatedExpression::Identifier {
            name: "module.hot".to_string(),
            root: "module".to_string(),
            truthy: None,
            range: span(1, 11),
        })
    );
    // No plugin here evaluates `typeof`, for a name or for any name.
    assert_eq!(
        hooks.evaluate_typeof(&mut s, &EvaluateTypeofArgs { span: span(0, 13), for_name: "module".to_string() }),
        None
    );
    assert_eq!(hooks.can_rename(&mut s, &CanRenameArgs { for_name: "module".to_string() }), None);
    assert_eq!(
        hooks.can_collect_destructuring_assignment_properties(&mut s, &DestructuringArgs { member_expression_name: Some("a".to_string()) }),
        None
    );
}

#[test]
fn drive_other_hooks_reach_their_plugins() {
    let hooks = JavascriptParserHooks::new(all_plugins());
    let mut s = ParserState::new(true, true, None);
    s.top_level_this = true;
    assert_eq!(hooks.this(&mut s, &ThisArgs { span: span(3, 7), for_name: "this".to_string() }), Some(true));
    assert_eq!(
        hooks.identifier(&mut s, &IdentifierArgs { span: span(0, 24), for_name: "__webpack_exports_info__".to_string() }),
        Some(true)
    );
    let chain = MemberChainArgs {
        span: span(0, 30),
        for_name: "__webpack_exports_info__".to_string(),
        members: vec!["x".to_string(), "used".to_string()],
    };
    assert_eq!(hooks.member_chain(&mut s, &chain), Some(true));
    let call = CallArgs {
        span: span(0, 32),
        for_name: "__webpack_is_included__".to_string(),
        arguments: vec![CallArgument {
            spread: false,
            evaluated: EvaluatedExpression::Str { value: "./a".to_string(), range: span(24, 29) },
        }],
    };
    assert_eq!(hooks.call(&mut s, &call), Some(true));
    assert_eq!(s.dependencies, vec![Dependency::IsInclude { range: span(0, 32), request: "./a".to_string() }]);
    let call_chain = CallMemberChainArgs {
        callee_is_expression: true,
        span: span(0, 10),
        for_name: "a".to_string(),
        members: vec!["b".to_string()],
    };
    assert_eq!(hooks.call_member_chain_from_call_expr(&mut s, &call_chain), None);
    assert_eq!(
        s.presentational_dependencies,
        vec![
            Dependency::Const { range: span(3, 7), content: "undefined".to_string() },
            Dependency::Const { range: span(0, 24), content: "true".to_string() },
            Dependency::ExportInfo { range: span(0, 30), export_name: vec!["x".to_string()], property: "used".to_string() },
        ]
    );
}

#[test]
fn drive_empty_hooks_answer_nothing() {
    let hooks = JavascriptParserHooks::<NoCallback>::new_empty();
    let mut s = ParserState::new(true, false, None);
    assert_eq!(hooks.type_of(&mut s, &TypeofArgs { span: span(0, 13), for_name: "module".to_string() }), None);
    assert_eq!(hooks.program(&mut s, &ProgramArgs { shebang: Some("#!node".to_string()) }), None);
    assert!(s.presentational_dependencies.is_empty());
    assert!(s.extras.get("hashbang").is_none());
}

#[test]
fn drive_hooks_without_taps_pass() {
    let hooks = JavascriptParserHooks::new(all_plugins());
    let mut s = ParserState::new(true, true, Some(OverrideStrict::Strict));
    let node = NodeArgs { span: span(0, 4) };
    let named = NamedNodeArgs { span: span(0, 4), for_name: "module".to_string() };
    hooks.top_level_await_expr(&mut s, &node);
    hooks.top_level_for_of_await_stmt(&mut s, &node);
    assert_eq!(hooks.pre_statement(&mut s, &node), None);
    assert_eq!(hooks.statement(&mut s, &node), None);
    assert_eq!(hooks.export_expression(&mut s, &node), None);
    assert_eq!(hooks.is_pure(&mut s, &node), None);
    assert_eq!(hooks.evaluate(&mut s, &node), None);
    assert_eq!(hooks.import_meta_property_in_destructuring(&mut s, &node), None);
    assert_eq!(hooks.rename(&mut s, &named), None);
    assert_eq!(hooks.assign(&mut s, &named), None);
    assert_eq!(hooks.new_expression(&mut s, &named), None);
    assert_eq!(hooks.evaluate_call_expression(&mut s, &named), None);
    let member = EvaluateCallExpressionMemberArgs {
        property: "concat".to_string(),
        span: span(0, 20),
        param: EvaluatedExpression::Str { value: "a".to_string(), range: span(0, 3) },
    };
    assert_eq!(hooks.evaluate_call_expression_member(&mut s, &member), None);
    assert!(s.presentational_dependencies.is_empty());
    assert!(s.dependencies.is_empty());
    assert!(!s.strict);
    assert_eq!(hooks.rename.len(), 0);
}

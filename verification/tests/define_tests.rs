use std::sync::Arc;

use rspack_parser_plugins::args::{EvaluateIdentifierArgs, MemberArgs, TypeofArgs};
use rspack_parser_plugins::define_plugin::{DefineCallback, DefineParserPlugin, DefineRecord, WalkData, VALUE_DEP_PREFIX};
use rspack_parser_plugins::drive::JavascriptParserHooks;
use rspack_parser_plugins::parser_state::{Dependency, EvaluatedExpression, ParserState, Span};
use rspack_parser_plugins::plugin::JavascriptParserPlugin;

/// A definition with the given source text; it reports whether some plugin's guard was up.
struct Code(String);

impl DefineCallback for Code {
    fn evaluate_typeof(&self, state: &mut ParserState, span: Span) -> Option<EvaluatedExpression> {
        let value = if state.define_typeof_recursion.is_empty() { "open" } else { "guarded" };
        Some(EvaluatedExpression::Str { value: value.to_string(), range: span })
    }

    fn evaluate_identifier(&self, state: &mut ParserState, for_name: &str, start: u32, end: u32) -> Option<EvaluatedExpression> {
        Some(EvaluatedExpression::Identifier {
            name: for_name.to_string(),
            root: self.0.clone(),
            truthy: Some(!state.define_recursion.is_empty()),
            range: Span { start, end },
        })
    }

    fn on_typeof(&self, state: &mut ParserState, span: Span) -> Option<bool> {
        state.add_presentational_dependency(Dependency::Const { range: span, content: "\"number\"".to_string() });
        Some(true)
    }

    fn on_expression(&self, state: &mut ParserState, span: Span, for_name: &str) -> Option<bool> {
        state.add_presentational_dependency(Dependency::DefineConst {
            range: span,
            code: self.0.clone(),
            for_name: for_name.to_string(),
        });
        Some(true)
    }
}

fn code(s: &str) -> Option<Code> {
    Some(Code(s.to_string()))
}

fn full(s: &str) -> DefineRecord<Code> {
    DefineRecord { on_evaluate_typeof: code(s), on_evaluate_identifier: code(s), on_typeof: code(s), on_expression: code(s) }
}

fn empty() -> DefineRecord<Code> {
    DefineRecord { on_evaluate_typeof: None, on_evaluate_identifier: None, on_typeof: None, on_expression: None }
}

fn span(start: u32, end: u32) -> Span {
    Span { start, end }
}

fn state() -> ParserState {
    ParserState::new(true, false, None)
}

/// `a` and `x` are plain definitions, `t` and `x` typeof definitions, `obj` an object definition.
fn plugin() -> DefineParserPlugin<Code> {
    let mut d = WalkData::new();
    d.add_define_record("a".to_string(), full("1"));
    d.add_tiling_definition("a".to_string(), "1".to_string());
    d.add_typeof_define_record("t".to_string(), full("2"));
    d.add_define_record("x".to_string(), DefineRecord { on_expression: code("3"), ..empty() });
    d.add_typeof_define_record("x".to_string(), full("4"));
    d.add_object_define_record("obj".to_string(), DefineRecord { on_expression: code("{}"), ..empty() });
    d.add_tiling_definition("obj".to_string(), "{}".to_string());
    d.add_can_rename("DEBUG".to_string(), Some("process".to_string()));
    d.add_tiling_definition("DEBUG".to_string(), "process.env.DEBUG".to_string());
    d.add_can_rename("VERSION".to_string(), None);
    DefineParserPlugin::new(Arc::new(d))
}

#[test]
fn define_value_dependency_key_has_prefix() {
    assert_eq!(VALUE_DEP_PREFIX, "webpack/DefinePlugin ");
    let p = plugin();
    let mut s = state();
    p.add_value_dependency(&mut s, "a");
    assert_eq!(s.value_dependencies.get("webpack/DefinePlugin a"), Some(&"1".to_string()));
    p.add_value_dependency(&mut s, "t");
    assert!(s.value_dependencies.get("webpack/DefinePlugin t").is_none());
}

#[test]
fn define_can_rename_depends_on_binding() {
    let p = plugin();
    let mut s = state();
    assert_eq!(p.can_rename(&mut s, "DEBUG"), Some(true));
    assert_eq!(
        s.value_dependencies.get("webpack/DefinePlugin DEBUG"),
        Some(&"process.env.DEBUG".to_string())
    );
    s.variables.insert("process".to_string(), true);
    assert_eq!(p.can_rename(&mut s, "DEBUG"), Some(true));
    s.variables.insert("process".to_string(), false);
    assert_eq!(p.can_rename(&mut s, "DEBUG"), Some(false));
    assert_eq!(p.can_rename(&mut s, "VERSION"), Some(true));
    assert_eq!(p.can_rename(&mut s, "a"), None);
}

#[test]
fn define_get_define_record_prefers_plain_record() {
    let p = plugin();
    assert!(p.get_define_record("a").is_some());
    assert!(p.get_define_record("t").is_some());
    let x = p.get_define_record("x").unwrap();
    assert!(x.on_evaluate_identifier.is_none());
    assert!(x.on_expression.is_some());
    assert!(p.get_define_record("obj").is_none());
    assert!(p.get_define_record("b").is_none());
}

#[test]
fn define_evaluate_identifier_raises_and_lowers_guard() {
    let p = plugin();
    let mut s = state();
    assert_eq!(
        p.evaluate_identifier(&mut s, "a", 4, 5),
        Some(EvaluatedExpression::Identifier {
            name: "a".to_string(),
            root: "1".to_string(),
            truthy: Some(true),
            range: span(4, 5),
        })
    );
    assert!(s.define_recursion.is_empty());
    assert_eq!(s.value_dependencies.get("webpack/DefinePlugin a"), Some(&"1".to_string()));

    // A nested evaluation of a definition answers nothing and records nothing.
    let mut s = state();
    s.define_recursion.insert(p.guard_id());
    assert_eq!(p.evaluate_identifier(&mut s, "a", 4, 5), None);
    assert!(s.define_recursion.contains(&p.guard_id()));
    assert!(s.value_dependencies.get("webpack/DefinePlugin a").is_none());

    // The plain record of `x` has no identifier callback, and `x` is no object definition.
    let mut s = state();
    assert_eq!(p.evaluate_identifier(&mut s, "x", 0, 1), None);
    assert_eq!(p.evaluate_identifier(&mut s, "obj", 0, 3), None);
    assert_eq!(p.evaluate_identifier(&mut s, "b", 0, 1), None);
}

#[test]
fn define_evaluate_typeof_of_object_is_object() {
    let p = plugin();
    let mut s = state();
    assert_eq!(
        p.evaluate_typeof(&mut s, span(0, 10), "obj"),
        Some(EvaluatedExpression::Str { value: "object".to_string(), range: span(0, 10) })
    );
    assert_eq!(s.value_dependencies.get("webpack/DefinePlugin obj"), Some(&"{}".to_string()));
    assert_eq!(
        p.evaluate_typeof(&mut s, span(0, 8), "t"),
        Some(EvaluatedExpression::Str { value: "guarded".to_string(), range: span(0, 8) })
    );
    assert!(s.define_typeof_recursion.is_empty());
    s.define_typeof_recursion.insert(p.guard_id());
    assert_eq!(p.evaluate_typeof(&mut s, span(0, 8), "t"), None);
    assert_eq!(p.evaluate_typeof(&mut s, span(0, 8), "b"), None);
}

#[test]
fn define_typeof_object_adds_const() {
    let p = plugin();
    let mut s = state();
    assert_eq!(p.type_of(&mut s, span(2, 12), "obj"), Some(true));
    assert_eq!(
        s.presentational_dependencies,
        vec![Dependency::DefineConst { range: span(2, 12), code: "\"object\"".to_string(), for_name: "obj".to_string() }]
    );
    assert_eq!(p.type_of(&mut s, span(0, 8), "t"), Some(true));
    assert_eq!(s.presentational_dependencies.len(), 2);
    assert_eq!(p.type_of(&mut s, span(0, 8), "x"), None);
    assert_eq!(p.type_of(&mut s, span(0, 8), "b"), None);
    assert_eq!(s.presentational_dependencies.len(), 2);
}

#[test]
fn define_expression_uses_plain_then_object_record() {
    let p = plugin();
    let mut s = state();
    assert_eq!(p.identifier(&mut s, span(0, 1), "x"), Some(true));
    assert_eq!(p.member(&mut s, span(0, 7), "obj"), Some(true));
    assert_eq!(p.member(&mut s, span(0, 7), "b"), None);
    assert_eq!(
        s.presentational_dependencies,
        vec![
            Dependency::DefineConst { range: span(0, 1), code: "3".to_string(), for_name: "x".to_string() },
            Dependency::DefineConst { range: span(0, 7), code: "{}".to_string(), for_name: "obj".to_string() },
        ]
    );
}

#[test]
fn define_destructuring_of_defined_names() {
    let p = plugin();
    assert_eq!(p.can_collect_destructuring_assignment_properties(Some(&"a".to_string())), Some(true));
    assert_eq!(p.can_collect_destructuring_assignment_properties(Some(&"obj".to_string())), Some(true));
    assert_eq!(p.can_collect_destructuring_assignment_properties(Some(&"t".to_string())), None);
    assert_eq!(p.can_collect_destructuring_assignment_properties(None), None);
}

#[test]
fn define_apply_registers_each_name_once() {
    let hooks = JavascriptParserHooks::new(vec![JavascriptParserPlugin::Define(plugin())]);
    assert_eq!(hooks.can_rename.len(), 2);
    assert!(hooks.can_rename.get("DEBUG").is_some());
    assert!(hooks.can_rename.get("a").is_none());
    for m in [&hooks.evaluate_typeof, &hooks.evaluate_identifier, &hooks.type_of, &hooks.member, &hooks.identifier] {
        assert_eq!(m.len(), 4);
        for name in ["a", "t", "x", "obj"] {
            assert!(m.get(name).is_some());
        }
    }

    let mut s = state();
    let r = hooks.evaluate_identifier(&mut s, &EvaluateIdentifierArgs { for_name: "a".to_string(), start: 0, end: 1 });
    assert_eq!(
        r,
        Some(EvaluatedExpression::Identifier { name: "a".to_string(), root: "1".to_string(), truthy: Some(true), range: span(0, 1) })
    );
    assert_eq!(hooks.type_of(&mut s, &TypeofArgs { span: span(0, 10), for_name: "obj".to_string() }), Some(true));
    assert_eq!(hooks.member(&mut s, &MemberArgs { span: span(0, 3), for_name: "b".to_string() }), None);
}

#[test]
fn define_guards_are_kept_per_plugin() {
    // Two plugins built on the same definitions still guard their evaluations separately.
    let mut d = WalkData::new();
    d.add_define_record("a".to_string(), full("1"));
    d.add_typeof_define_record("t".to_string(), full("2"));
    let data = Arc::new(d);
    let p = DefineParserPlugin::new(data.clone());
    let other = DefineParserPlugin::new(data);
    assert_ne!(p.guard_id(), other.guard_id());

    // While the other plugin evaluates, this plugin still evaluates its own definitions.
    let mut s = state();
    s.define_recursion.insert(other.guard_id());
    s.define_typeof_recursion.insert(other.guard_id());
    assert_eq!(
        p.evaluate_identifier(&mut s, "a", 0, 1),
        Some(EvaluatedExpression::Identifier { name: "a".to_string(), root: "1".to_string(), truthy: Some(true), range: span(0, 1) })
    );
    assert_eq!(
        p.evaluate_typeof(&mut s, span(0, 8), "t"),
        Some(EvaluatedExpression::Str { value: "guarded".to_string(), range: span(0, 8) })
    );
    assert!(s.define_recursion.contains(&other.guard_id()));
    assert!(!s.define_recursion.contains(&p.guard_id()));
    assert!(!s.define_typeof_recursion.contains(&p.guard_id()));

    // The other plugin's own guard stops it.
    assert_eq!(other.evaluate_identifier(&mut s, "a", 0, 1), None);

    // A handle on the same plugin shares its guard.
    let q = p.duplicate();
    assert_eq!(q.guard_id(), p.guard_id());
    let mut s = state();
    s.define_recursion.insert(p.guard_id());
    assert_eq!(q.evaluate_identifier(&mut s, "a", 0, 1), None);
}

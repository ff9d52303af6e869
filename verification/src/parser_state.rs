//! What the parser plugins read and change while a module is parsed: the module's
//! flags, its dependencies, its build information and the values that a tap
//! receives from the parser.
use vstd::prelude::*;
use vstd::hash_map::StringHashMap;
use vstd::hash_set::HashSetWithView;

verus! {

/// A source range, as positions into the module's source text.
#[derive(Clone, Copy, PartialEq, Eq, Debug, Structural)]
pub struct Span {
    pub start: u32,
    pub end: u32,
}

/// How a module's exports are shaped, as far as the parser has decided.
#[derive(Clone, Copy, PartialEq, Eq, Debug, Structural)]
pub enum ExportsType {
    Unset,
    Default,
    Namespace,
    Flagged,
    Dynamic,
}

/// The strictness that the parser options force on every module.
#[derive(Clone, Copy, PartialEq, Eq, Debug, Structural)]
pub enum OverrideStrict {
    Strict,
    NonStrict,
}

/// Runtime globals that a module may need.
#[derive(Clone, Copy, PartialEq, Eq, Debug, Structural)]
pub enum RuntimeGlobal {
    ModuleId,
    ModuleLoaded,
}

/// The kind of a dependency.
#[derive(Clone, Copy, PartialEq, Eq, Debug, Structural)]
pub enum DependencyType {
    CjsExportRequire,
    CjsExports,
    CjsFullRequire,
    CjsRequire,
    CjsSelfReference,
    CommonJSRequireContext,
    ModuleDecorator,
    IsInclude,
    Const,
    RuntimeRequirements,
    EsmCompatibility,
    ExportInfo,
    Other,
}

/// A dependency recorded while parsing.
#[derive(Debug, PartialEq, Eq)]
pub enum Dependency {
    /// The source range is replaced by `content`.
    Const { range: Span, content: String },
    /// The source range is replaced by the definition `code` given for `for_name`.
    DefineConst { range: Span, code: String, for_name: String },
    /// The module needs a runtime global.
    RuntimeRequirements { global: RuntimeGlobal },
    /// The module is marked as an ECMAScript module.
    EsmCompatibility,
    /// The source range asks for a property of the export `export_name`.
    ExportInfo { range: Span, export_name: Vec<String>, property: String },
    /// The source range asks whether the module `request` is included.
    IsInclude { range: Span, request: String },
    /// A dependency of the given kind added by another part of the parser.
    Other { dependency_type: DependencyType },
}

/// A dependency, seen through the characters of its strings.
pub enum DependencyView {
    Const { range: Span, content: Seq<char> },
    DefineConst { range: Span, code: Seq<char>, for_name: Seq<char> },
    RuntimeRequirements { global: RuntimeGlobal },
    EsmCompatibility,
    ExportInfo { range: Span, export_name: Seq<Seq<char>>, property: Seq<char> },
    IsInclude { range: Span, request: Seq<char> },
    Other { dependency_type: DependencyType },
}

/// The characters of each string of a sequence.
pub open spec fn strings_view(v: Seq<String>) -> Seq<Seq<char>> {
    v.map_values(|s: String| s@)
}

impl View for Dependency {
    type V = DependencyView;

    open spec fn view(&self) -> DependencyView {
        match self {
            Dependency::Const { range, content } => DependencyView::Const { range: *range, content: content@ },
            Dependency::DefineConst { range, code, for_name } => DependencyView::DefineConst {
                range: *range,
                code: code@,
                for_name: for_name@,
            },
            Dependency::RuntimeRequirements { global } => DependencyView::RuntimeRequirements { global: *global },
            Dependency::EsmCompatibility => DependencyView::EsmCompatibility,
            Dependency::ExportInfo { range, export_name, property } => DependencyView::ExportInfo {
                range: *range,
                export_name: strings_view(export_name@),
                property: property@,
            },
            Dependency::IsInclude { range, request } => DependencyView::IsInclude { range: *range, request: request@ },
            Dependency::Other { dependency_type } => DependencyView::Other { dependency_type: *dependency_type },
        }
    }
}

impl DependencyView {
    pub open spec fn dependency_type(self) -> DependencyType {
        match self {
            DependencyView::Const { .. } => DependencyType::Const,
            DependencyView::DefineConst { .. } => DependencyType::Const,
            DependencyView::RuntimeRequirements { .. } => DependencyType::RuntimeRequirements,
            DependencyView::EsmCompatibility => DependencyType::EsmCompatibility,
            DependencyView::ExportInfo { .. } => DependencyType::ExportInfo,
            DependencyView::IsInclude { .. } => DependencyType::IsInclude,
            DependencyView::Other { dependency_type } => dependency_type,
        }
    }
}

impl Dependency {
    /// The kind of this dependency.
    pub fn dependency_type(&self) -> (t: DependencyType)
        ensures
            t == self@.dependency_type(),
    {
        match self {
            Dependency::Const { .. } => DependencyType::Const,
            Dependency::DefineConst { .. } => DependencyType::Const,
            Dependency::RuntimeRequirements { .. } => DependencyType::RuntimeRequirements,
            Dependency::EsmCompatibility => DependencyType::EsmCompatibility,
            Dependency::ExportInfo { .. } => DependencyType::ExportInfo,
            Dependency::IsInclude { .. } => DependencyType::IsInclude,
            Dependency::Other { dependency_type } => *dependency_type,
        }
    }
}

/// What evaluating an expression at parse time gave.
#[derive(Debug, PartialEq, Eq)]
pub enum EvaluatedExpression {
    /// The expression is the free identifier `name`, whose root variable is `root`.
    Identifier { name: String, root: String, truthy: Option<bool>, range: Span },
    /// The expression is the string `value`.
    Str { value: String, range: Span },
    /// Any other result.
    Other { range: Span },
}

pub enum EvaluatedView {
    Identifier { name: Seq<char>, root: Seq<char>, truthy: Option<bool>, range: Span },
    Str { value: Seq<char>, range: Span },
    Other { range: Span },
}

impl View for EvaluatedExpression {
    type V = EvaluatedView;

    open spec fn view(&self) -> EvaluatedView {
        match self {
            EvaluatedExpression::Identifier { name, root, truthy, range } => EvaluatedView::Identifier {
                name: name@,
                root: root@,
                truthy: *truthy,
                range: *range,
            },
            EvaluatedExpression::Str { value, range } => EvaluatedView::Str { value: value@, range: *range },
            EvaluatedExpression::Other { range } => EvaluatedView::Other { range: *range },
        }
    }
}

/// An optional value, seen through its view.
pub open spec fn option_view<T: View>(o: Option<T>) -> Option<T::V> {
    match o {
        Some(v) => Some(v@),
        None => None,
    }
}

/// The evaluation of an identifier with a root variable.
pub fn evaluate_to_identifier(name: String, root: String, truthy: Option<bool>, start: u32, end: u32) -> (e: EvaluatedExpression)
    ensures
        e@ == (EvaluatedView::Identifier { name: name@, root: root@, truthy, range: Span { start, end } }),
{
    EvaluatedExpression::Identifier { name, root, truthy, range: Span { start, end } }
}

/// The evaluation of a string.
pub fn evaluate_to_string(value: String, start: u32, end: u32) -> (e: EvaluatedExpression)
    ensures
        e@ == (EvaluatedView::Str { value: value@, range: Span { start, end } }),
{
    EvaluatedExpression::Str { value, range: Span { start, end } }
}

/// The parser's state as the plugins see it.
pub struct ParserState {
    /// The module's type is `javascript/auto`.
    pub module_type_is_js_auto: bool,
    pub exports_type: ExportsType,
    pub is_esm: bool,
    /// The expression being walked is a `this` at the top level of the module.
    pub top_level_this: bool,
    pub override_strict: Option<OverrideStrict>,
    /// The variables in scope, each with whether it is free.
    pub variables: StringHashMap<bool>,
    pub dependencies: Vec<Dependency>,
    pub presentational_dependencies: Vec<Dependency>,
    pub strict: bool,
    pub module_concatenation_bailout: Option<String>,
    pub value_dependencies: StringHashMap<String>,
    pub extras: StringHashMap<String>,
    /// The define plugins, by their ids, that are evaluating a definition as an identifier right now.
    pub define_recursion: HashSetWithView<u64>,
    /// The define plugins, by their ids, that are evaluating a definition under `typeof` right now.
    pub define_typeof_recursion: HashSetWithView<u64>,
}

pub struct ParserStateView {
    pub module_type_is_js_auto: bool,
    pub exports_type: ExportsType,
    pub is_esm: bool,
    pub top_level_this: bool,
    pub override_strict: Option<OverrideStrict>,
    pub variables: Map<Seq<char>, bool>,
    pub dependencies: Seq<DependencyView>,
    pub presentational_dependencies: Seq<DependencyView>,
    pub strict: bool,
    pub module_concatenation_bailout: Option<Seq<char>>,
    pub value_dependencies: Map<Seq<char>, Seq<char>>,
    pub extras: Map<Seq<char>, Seq<char>>,
    pub define_recursion: Set<u64>,
    pub define_typeof_recursion: Set<u64>,
}

pub open spec fn dependencies_view(v: Seq<Dependency>) -> Seq<DependencyView> {
    v.map_values(|d: Dependency| d@)
}

pub open spec fn string_map_view(m: Map<Seq<char>, String>) -> Map<Seq<char>, Seq<char>> {
    m.map_values(|s: String| s@)
}

impl View for ParserState {
    type V = ParserStateView;

    open spec fn view(&self) -> ParserStateView {
        ParserStateView {
            module_type_is_js_auto: self.module_type_is_js_auto,
            exports_type: self.exports_type,
            is_esm: self.is_esm,
            top_level_this: self.top_level_this,
            override_strict: self.override_strict,
            variables: self.variables@,
            dependencies: dependencies_view(self.dependencies@),
            presentational_dependencies: dependencies_view(self.presentational_dependencies@),
            strict: self.strict,
            module_concatenation_bailout: option_view(self.module_concatenation_bailout),
            value_dependencies: string_map_view(self.value_dependencies@),
            extras: string_map_view(self.extras@),
            define_recursion: self.define_recursion@,
            define_typeof_recursion: self.define_typeof_recursion@,
        }
    }
}

impl ParserStateView {
    pub open spec fn with_presentational(self, d: DependencyView) -> ParserStateView {
        ParserStateView { presentational_dependencies: self.presentational_dependencies.push(d), ..self }
    }

    pub open spec fn with_dependency(self, d: DependencyView) -> ParserStateView {
        ParserStateView { dependencies: self.dependencies.push(d), ..self }
    }
}

impl ParserState {
    /// A state for a module with no dependencies, no variables and nothing recorded yet.
    pub fn new(module_type_is_js_auto: bool, is_esm: bool, override_strict: Option<OverrideStrict>) -> (s: Self)
        ensures
            s@ == (ParserStateView {
                module_type_is_js_auto,
                exports_type: ExportsType::Unset,
                is_esm,
                top_level_this: false,
                override_strict,
                variables: Map::empty(),
                dependencies: Seq::empty(),
                presentational_dependencies: Seq::empty(),
                strict: false,
                module_concatenation_bailout: None,
                value_dependencies: Map::empty(),
                extras: Map::empty(),
                define_recursion: Set::empty(),
                define_typeof_recursion: Set::empty(),
            }),
    {
        broadcast use vstd::std_specs::hash::axiom_u64_obeys_hash_table_key_model;
        let s = ParserState {
            module_type_is_js_auto,
            exports_type: ExportsType::Unset,
            is_esm,
            top_level_this: false,
            override_strict,
            variables: StringHashMap::new(),
            dependencies: Vec::new(),
            presentational_dependencies: Vec::new(),
            strict: false,
            module_concatenation_bailout: None,
            value_dependencies: StringHashMap::new(),
            extras: StringHashMap::new(),
            define_recursion: HashSetWithView::new(),
            define_typeof_recursion: HashSetWithView::new(),
        };
        assert(dependencies_view(s.dependencies@) =~= Seq::empty());
        assert(string_map_view(s.value_dependencies@) =~= Map::empty());
        assert(string_map_view(s.extras@) =~= Map::empty());
        s
    }

    /// Records a dependency that only changes how the source is presented.
    pub fn add_presentational_dependency(&mut self, d: Dependency)
        ensures
            final(self)@ == old(self)@.with_presentational(d@),
    {
        let ghost dv = d@;
        self.presentational_dependencies.push(d);
        assert(dependencies_view(self.presentational_dependencies@) =~= dependencies_view(
            old(self).presentational_dependencies@,
        ).push(dv));
    }

    /// Records a dependency on another module.
    pub fn add_dependency(&mut self, d: Dependency)
        ensures
            final(self)@ == old(self)@.with_dependency(d@),
    {
        let ghost dv = d@;
        self.dependencies.push(d);
        assert(dependencies_view(self.dependencies@) =~= dependencies_view(old(self).dependencies@).push(dv));
    }

    /// Stores a value dependency under `key`.
    pub fn insert_value_dependency(&mut self, key: String, value: String)
        ensures
            final(self)@ == (ParserStateView {
                value_dependencies: old(self)@.value_dependencies.insert(key@, value@),
                ..old(self)@
            }),
    {
        let ghost (k, v) = (key@, value);
        self.value_dependencies.insert(key, value);
        assert(string_map_view(self.value_dependencies@) =~= string_map_view(old(self).value_dependencies@).insert(k, v@));
    }

    /// Stores an extra build value under `key`.
    pub fn insert_extra(&mut self, key: String, value: String)
        ensures
            final(self)@ == (ParserStateView { extras: old(self)@.extras.insert(key@, value@), ..old(self)@ }),
    {
        let ghost (k, v) = (key@, value);
        self.extras.insert(key, value);
        assert(string_map_view(self.extras@) =~= string_map_view(old(self).extras@).insert(k, v@));
    }

    /// Whether the variable `name` is known and not free.
    pub fn is_bound_variable(&self, name: &str) -> (b: bool)
        ensures
            b == (self@.variables.contains_key(name@) && !self@.variables[name@]),
    {
        match self.variables.get(name) {
            Some(free) => !*free,
            None => false,
        }
    }
}

/// Whether two strings hold the same characters.
pub fn str_eq(a: &str, b: &str) -> (r: bool)
    ensures
        r == (a@ == b@),
{
    a.to_owned() == b.to_owned()
}

} // verus!

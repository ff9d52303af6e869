//! What each parser hook hands to its taps, besides the parser's state.
use vstd::prelude::*;
use crate::parser_state::{EvaluatedExpression, EvaluatedView, Span, strings_view};

verus! {

/// A name together with the source range it was found at.
pub struct NamedRange {
    pub span: Span,
    pub for_name: Seq<char>,
}

/// `program`: the hashbang line of the module or script, without or with its `#!`.
pub struct ProgramArgs {
    pub shebang: Option<String>,
}

impl View for ProgramArgs {
    type V = Option<Seq<char>>;

    open spec fn view(&self) -> Option<Seq<char>> {
        match &self.shebang {
            Some(s) => Some(s@),
            None => None,
        }
    }
}

/// `finish`: nothing besides the state.
pub struct FinishArgs;

impl View for FinishArgs {
    type V = ();

    open spec fn view(&self) -> () {
        ()
    }
}

/// `can_rename`: the name that would be renamed.
pub struct CanRenameArgs {
    pub for_name: String,
}

impl View for CanRenameArgs {
    type V = Seq<char>;

    open spec fn view(&self) -> Seq<char> {
        self.for_name@
    }
}

/// `evaluate_typeof` and `evaluate_typeof_any`: the `typeof` expression and the name it applies to.
pub struct EvaluateTypeofArgs {
    pub span: Span,
    pub for_name: String,
}

impl View for EvaluateTypeofArgs {
    type V = NamedRange;

    open spec fn view(&self) -> NamedRange {
        NamedRange { span: self.span, for_name: self.for_name@ }
    }
}

/// `evaluate_identifier`: the name and the range of the identifier.
pub struct EvaluateIdentifierArgs {
    pub for_name: String,
    pub start: u32,
    pub end: u32,
}

impl View for EvaluateIdentifierArgs {
    type V = NamedRange;

    open spec fn view(&self) -> NamedRange {
        NamedRange { span: Span { start: self.start, end: self.end }, for_name: self.for_name@ }
    }
}

/// `typeof`: the `typeof` expression and the name it applies to.
pub struct TypeofArgs {
    pub span: Span,
    pub for_name: String,
}

impl View for TypeofArgs {
    type V = NamedRange;

    open spec fn view(&self) -> NamedRange {
        NamedRange { span: self.span, for_name: self.for_name@ }
    }
}

/// `member`: a member expression and the name of the whole chain.
pub struct MemberArgs {
    pub span: Span,
    pub for_name: String,
}

impl View for MemberArgs {
    type V = NamedRange;

    open spec fn view(&self) -> NamedRange {
        NamedRange { span: self.span, for_name: self.for_name@ }
    }
}

/// `identifier`: an identifier and its name.
pub struct IdentifierArgs {
    pub span: Span,
    pub for_name: String,
}

impl View for IdentifierArgs {
    type V = NamedRange;

    open spec fn view(&self) -> NamedRange {
        NamedRange { span: self.span, for_name: self.for_name@ }
    }
}

/// `this`: a `this` expression and the name it stands for.
pub struct ThisArgs {
    pub span: Span,
    pub for_name: String,
}

impl View for ThisArgs {
    type V = NamedRange;

    open spec fn view(&self) -> NamedRange {
        NamedRange { span: self.span, for_name: self.for_name@ }
    }
}

/// A member chain: the root name and the members read from it, in order.
pub struct ChainView {
    pub span: Span,
    pub for_name: Seq<char>,
    pub members: Seq<Seq<char>>,
}

/// `member_chain`: a member expression, its root name and the members read from it.
pub struct MemberChainArgs {
    pub span: Span,
    pub for_name: String,
    pub members: Vec<String>,
}

impl View for MemberChainArgs {
    type V = ChainView;

    open spec fn view(&self) -> ChainView {
        ChainView { span: self.span, for_name: self.for_name@, members: strings_view(self.members@) }
    }
}

/// `call_member_chain`: a call whose callee is a member chain.
pub struct CallMemberChainArgs {
    /// The callee of the call is an expression (not `super` or `import`).
    pub callee_is_expression: bool,
    pub span: Span,
    pub for_name: String,
    pub members: Vec<String>,
}

pub struct CallChainView {
    pub callee_is_expression: bool,
    pub chain: ChainView,
}

impl View for CallMemberChainArgs {
    type V = CallChainView;

    open spec fn view(&self) -> CallChainView {
        CallChainView {
            callee_is_expression: self.callee_is_expression,
            chain: ChainView { span: self.span, for_name: self.for_name@, members: strings_view(self.members@) },
        }
    }
}

/// One argument of a call: whether it is spread, and what the parser evaluated it to.
pub struct CallArgument {
    pub spread: bool,
    pub evaluated: EvaluatedExpression,
}

pub struct CallArgumentView {
    pub spread: bool,
    pub evaluated: EvaluatedView,
}

impl View for CallArgument {
    type V = CallArgumentView;

    open spec fn view(&self) -> CallArgumentView {
        CallArgumentView { spread: self.spread, evaluated: self.evaluated@ }
    }
}

/// `call`: a call expression, the name of its callee and its arguments.
pub struct CallArgs {
    pub span: Span,
    pub for_name: String,
    pub arguments: Vec<CallArgument>,
}

pub struct CallView {
    pub span: Span,
    pub for_name: Seq<char>,
    pub arguments: Seq<CallArgumentView>,
}

impl View for CallArgs {
    type V = CallView;

    open spec fn view(&self) -> CallView {
        CallView {
            span: self.span,
            for_name: self.for_name@,
            arguments: self.arguments@.map_values(|a: CallArgument| a@),
        }
    }
}

/// `can_collect_destructuring_assignment_properties`: the name of the expression being
/// destructured, when the parser sees it as a plain member expression.
pub struct DestructuringArgs {
    pub member_expression_name: Option<String>,
}

impl View for DestructuringArgs {
    type V = Option<Seq<char>>;

    open spec fn view(&self) -> Option<Seq<char>> {
        match &self.member_expression_name {
            Some(s) => Some(s@),
            None => None,
        }
    }
}

/// A hook's syntax node, by its source range: what the hooks that no plugin of this crate
/// taps receive (statements, declarations, class members, imports and exports, ...).
pub struct NodeArgs {
    pub span: Span,
}

impl View for NodeArgs {
    type V = Span;

    open spec fn view(&self) -> Span {
        self.span
    }
}

/// A syntax node and the name the parser found for it, for the hook maps that no plugin of
/// this crate taps (and for `evaluate_call_expression`, whose name is the callee's).
pub struct NamedNodeArgs {
    pub span: Span,
    pub for_name: String,
}

impl View for NamedNodeArgs {
    type V = NamedRange;

    open spec fn view(&self) -> NamedRange {
        NamedRange { span: self.span, for_name: self.for_name@ }
    }
}

/// `evaluate_call_expression_member`: the property called, the call, and what the object
/// the property is read from evaluated to.
pub struct EvaluateCallExpressionMemberArgs {
    pub property: String,
    pub span: Span,
    pub param: EvaluatedExpression,
}

pub struct CallMemberView {
    pub property: Seq<char>,
    pub span: Span,
    pub param: EvaluatedView,
}

impl View for EvaluateCallExpressionMemberArgs {
    type V = CallMemberView;

    open spec fn view(&self) -> CallMemberView {
        CallMemberView { property: self.property@, span: self.span, param: self.param@ }
    }
}

} // verus!

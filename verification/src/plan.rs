//! The items of an expansion, described piece by piece: match arms with their
//! patterns and bodies, and conversions.

use vstd::prelude::*;
use vstd::string::StringExecFns;
use crate::syntax::{lemma_pushed, Expression, ExpressionView, TypeExpr, TypeExprView};
use crate::text::copy;

verus! {

/// How an arm's pattern treats one field of a variant.
#[derive(Debug, PartialEq, Eq)]
pub enum Binding {
    /// `ref name`: the field is bound under this name. In a struct pattern the
    /// name is the field's own.
    Ref(String),
    /// `field: ref name`: the field is bound under another name.
    Renamed(String, String),
    /// `_`: the field is not bound.
    Skip,
}

pub enum BindingView {
    Ref(Seq<char>),
    Renamed(Seq<char>, Seq<char>),
    Skip,
}

impl DeepView for Binding {
    type V = BindingView;

    open spec fn deep_view(&self) -> BindingView {
        match self {
            Binding::Ref(name) => BindingView::Ref(name@),
            Binding::Renamed(field, name) => BindingView::Renamed(field@, name@),
            Binding::Skip => BindingView::Skip,
        }
    }
}

impl Binding {
    /// A copy of the binding.
    pub fn duplicate(&self) -> (r: Binding)
        ensures
            r.deep_view() == self.deep_view(),
    {
        match self {
            Binding::Ref(name) => Binding::Ref(copy(name)),
            Binding::Renamed(field, name) => Binding::Renamed(copy(field), copy(name)),
            Binding::Skip => Binding::Skip,
        }
    }
}

/// Copies of the bindings.
pub fn copy_bindings(bindings: &Vec<Binding>) -> (r: Vec<Binding>)
    ensures
        r.deep_view() == bindings.deep_view(),
{
    let mut out: Vec<Binding> = Vec::new();
    let mut i: usize = 0;
    assert(out.deep_view() =~= bindings.deep_view().take(0));
    while i < bindings.len()
        invariant
            i <= bindings.len(),
            out.deep_view() == bindings.deep_view().take(i as int),
        decreases bindings.len() - i,
    {
        let ghost before = out;
        let binding = bindings[i].duplicate();
        out.push(binding);
        proof {
            lemma_pushed(before, out, binding);
        }
        i += 1;
        assert(out.deep_view() =~= bindings.deep_view().take(i as int));
    }
    assert(out.deep_view() =~= bindings.deep_view());
    out
}

/// What follows the variant's name in an arm's pattern.
#[derive(Debug, PartialEq, Eq)]
pub enum Pattern {
    /// Nothing: the variant has no fields.
    Unit,
    /// `(..)`
    TupleRest,
    /// `{ .. }`
    StructRest,
    /// `(binding, ..)`, one binding for each field.
    Tuple(Vec<Binding>),
    /// `{ binding, .. }`, one binding for each field.
    Struct(Vec<Binding>),
}

pub enum PatternView {
    Unit,
    TupleRest,
    StructRest,
    Tuple(Seq<BindingView>),
    Struct(Seq<BindingView>),
}

impl DeepView for Pattern {
    type V = PatternView;

    open spec fn deep_view(&self) -> PatternView {
        match self {
            Pattern::Unit => PatternView::Unit,
            Pattern::TupleRest => PatternView::TupleRest,
            Pattern::StructRest => PatternView::StructRest,
            Pattern::Tuple(bindings) => PatternView::Tuple(bindings.deep_view()),
            Pattern::Struct(bindings) => PatternView::Struct(bindings.deep_view()),
        }
    }
}

impl Pattern {
    /// A copy of the pattern.
    pub fn duplicate(&self) -> (r: Pattern)
        ensures
            r.deep_view() == self.deep_view(),
    {
        match self {
            Pattern::Unit => Pattern::Unit,
            Pattern::TupleRest => Pattern::TupleRest,
            Pattern::StructRest => Pattern::StructRest,
            Pattern::Tuple(bindings) => Pattern::Tuple(copy_bindings(bindings)),
            Pattern::Struct(bindings) => Pattern::Struct(copy_bindings(bindings)),
        }
    }

    /// The pattern over a tuple of one element that binds it under `name`.
    pub fn one(name: &str) -> (r: Pattern)
        ensures
            r.deep_view() == PatternView::Tuple(seq![BindingView::Ref(name@)]),
    {
        let mut bindings: Vec<Binding> = Vec::new();
        bindings.push(Binding::Ref(String::from_str(name)));
        assert(bindings.deep_view() =~= seq![BindingView::Ref(name@)]);
        Pattern::Tuple(bindings)
    }

    /// The pattern over a tuple of one element that does not bind it.
    pub fn skip_one() -> (r: Pattern)
        ensures
            r.deep_view() == PatternView::Tuple(seq![BindingView::Skip]),
    {
        let mut bindings: Vec<Binding> = Vec::new();
        bindings.push(Binding::Skip);
        assert(bindings.deep_view() =~= seq![BindingView::Skip]);
        Pattern::Tuple(bindings)
    }
}

/// One argument handed to a formatting call.
#[derive(Debug, PartialEq, Eq)]
pub enum Argument {
    /// `name,`
    Positional(String),
    /// `name = value,`
    Named(String, String),
}

pub enum ArgumentView {
    Positional(Seq<char>),
    Named(Seq<char>, Seq<char>),
}

impl DeepView for Argument {
    type V = ArgumentView;

    open spec fn deep_view(&self) -> ArgumentView {
        match self {
            Argument::Positional(name) => ArgumentView::Positional(name@),
            Argument::Named(name, value) => ArgumentView::Named(name@, value@),
        }
    }
}

impl Argument {
    /// A copy of the argument.
    pub fn duplicate(&self) -> (r: Argument)
        ensures
            r.deep_view() == self.deep_view(),
    {
        match self {
            Argument::Positional(name) => Argument::Positional(copy(name)),
            Argument::Named(name, value) => Argument::Named(copy(name), copy(value)),
        }
    }
}

/// Copies of the arguments.
pub fn copy_arguments(arguments: &Vec<Argument>) -> (r: Vec<Argument>)
    ensures
        r.deep_view() == arguments.deep_view(),
{
    let mut out: Vec<Argument> = Vec::new();
    let mut i: usize = 0;
    assert(out.deep_view() =~= arguments.deep_view().take(0));
    while i < arguments.len()
        invariant
            i <= arguments.len(),
            out.deep_view() == arguments.deep_view().take(i as int),
        decreases arguments.len() - i,
    {
        let ghost before = out;
        let argument = arguments[i].duplicate();
        out.push(argument);
        proof {
            lemma_pushed(before, out, argument);
        }
        i += 1;
        assert(out.deep_view() =~= arguments.deep_view().take(i as int));
    }
    assert(out.deep_view() =~= arguments.deep_view());
    out
}

/// A call of an expression that the declaration supplied.
#[derive(Debug, PartialEq, Eq)]
pub struct Call {
    pub callee: Expression,
    /// The names handed over, in order: those of bound fields, and `f` for the
    /// formatter.
    pub args: Vec<String>,
}

pub struct CallView {
    pub callee: ExpressionView,
    pub args: Seq<Seq<char>>,
}

impl DeepView for Call {
    type V = CallView;

    open spec fn deep_view(&self) -> CallView {
        CallView { callee: self.callee.deep_view(), args: self.args.deep_view() }
    }
}

/// What an arm evaluates to.
#[derive(Debug, PartialEq, Eq)]
pub enum Body {
    /// The bound value itself: the text that a message variant holds.
    Held(String),
    /// A string literal with this content.
    Literal(String),
    /// The supplied closure, called on the bound fields. In an arm that formats
    /// the closure captures the formatter `f`.
    Closure(Call),
    /// The supplied function, called on what the call lists: the bound fields,
    /// after the formatter `f` in an arm that formats. In an arm of `cause` the
    /// outcome of either call is the cause.
    Function(Call),
    /// `description()` of the bound sibling kind.
    KindDescription(String),
    /// The standard description of the bound foreign error.
    ErrorDescription(String),
    /// The variant's own name as a string.
    VariantName,
    /// The bound value, formatted by its own `Display`.
    Display(String),
    /// The template, formatted with these arguments.
    Write(String, Vec<Argument>),
    /// The kind's own description, formatted.
    DisplayDescription,
    /// The standard cause of the bound foreign error.
    ErrorCause(String),
}

pub enum BodyView {
    Held(Seq<char>),
    Literal(Seq<char>),
    Closure(CallView),
    Function(CallView),
    KindDescription(Seq<char>),
    ErrorDescription(Seq<char>),
    VariantName,
    Display(Seq<char>),
    Write(Seq<char>, Seq<ArgumentView>),
    DisplayDescription,
    ErrorCause(Seq<char>),
}

impl DeepView for Body {
    type V = BodyView;

    open spec fn deep_view(&self) -> BodyView {
        match self {
            Body::Held(name) => BodyView::Held(name@),
            Body::Literal(text) => BodyView::Literal(text@),
            Body::Closure(call) => BodyView::Closure(call.deep_view()),
            Body::Function(call) => BodyView::Function(call.deep_view()),
            Body::KindDescription(name) => BodyView::KindDescription(name@),
            Body::ErrorDescription(name) => BodyView::ErrorDescription(name@),
            Body::VariantName => BodyView::VariantName,
            Body::Display(name) => BodyView::Display(name@),
            Body::Write(template, args) => BodyView::Write(template@, args.deep_view()),
            Body::DisplayDescription => BodyView::DisplayDescription,
            Body::ErrorCause(name) => BodyView::ErrorCause(name@),
        }
    }
}

/// One arm of a `match` over the kind.
#[derive(Debug, PartialEq, Eq)]
pub struct Case {
    /// The variant that the arm is for.
    pub variant: String,
    pub pattern: Pattern,
    pub body: Body,
}

pub struct CaseView {
    pub variant: Seq<char>,
    pub pattern: PatternView,
    pub body: BodyView,
}

impl DeepView for Case {
    type V = CaseView;

    open spec fn deep_view(&self) -> CaseView {
        CaseView {
            variant: self.variant@,
            pattern: self.pattern.deep_view(),
            body: self.body.deep_view(),
        }
    }
}

/// A conversion into the kind or into the error.
#[derive(Debug, PartialEq, Eq)]
pub enum FromImpl {
    /// From `&str` and from `String`, through the message variant.
    Message(String),
    /// Into the kind, from the kind of a sibling hierarchy: the variant wraps it.
    Kind(String, TypeExpr),
    /// Into the error, from the error of a sibling hierarchy: the variant wraps
    /// the sibling's kind, and the sibling's state is taken over as it is.
    Sibling(String, TypeExpr),
    /// Into the error, from a foreign error: the variant wraps it, and the state
    /// is a fresh one.
    Foreign(String, TypeExpr),
}

pub enum FromImplView {
    Message(Seq<char>),
    Kind(Seq<char>, TypeExprView),
    Sibling(Seq<char>, TypeExprView),
    Foreign(Seq<char>, TypeExprView),
}

impl DeepView for FromImpl {
    type V = FromImplView;

    open spec fn deep_view(&self) -> FromImplView {
        match self {
            FromImpl::Message(variant) => FromImplView::Message(variant@),
            FromImpl::Kind(variant, ty) => FromImplView::Kind(variant@, ty.deep_view()),
            FromImpl::Sibling(variant, ty) => FromImplView::Sibling(variant@, ty.deep_view()),
            FromImpl::Foreign(variant, ty) => FromImplView::Foreign(variant@, ty.deep_view()),
        }
    }
}

} // verus!

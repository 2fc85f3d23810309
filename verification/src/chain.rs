//! What the declared items do when they run, told over plain values: a kind
//! value, the error that wraps it, and the chain of errors below it.
//!
//! An override calls code that the declaration supplied; here such a call is
//! reported, not made.

use vstd::prelude::*;
use vstd::string::StringExecFns;
use crate::expand::{Expansion, ExpansionView};
use crate::plan::{Body, BodyView, Case, CaseView, FromImpl, FromImplView};
use crate::syntax::{TypeExpr, TypeExprView};
use crate::syntax::lemma_pushed;
use crate::text::{copy, same};

verus! {

/// A captured backtrace, told apart from others by its number.
#[derive(Clone, Copy, PartialEq, Eq, Structural, Debug)]
pub struct Backtrace {
    pub id: u64,
}

/// The error at the end of a foreign error's chain: it has no cause itself.
#[derive(Debug, PartialEq, Eq)]
pub struct ForeignErrorCause {
    pub description: String,
    pub display: String,
}

pub struct ForeignErrorCauseView {
    pub description: Seq<char>,
    pub display: Seq<char>,
}

impl DeepView for ForeignErrorCause {
    type V = ForeignErrorCauseView;

    open spec fn deep_view(&self) -> ForeignErrorCauseView {
        ForeignErrorCauseView { description: self.description@, display: self.display@ }
    }
}

/// An error from elsewhere, as a foreign link sees it: what it describes itself
/// as, what it displays, and its cause.
#[derive(Debug, PartialEq, Eq)]
pub struct ForeignError {
    pub description: String,
    pub display: String,
    pub cause: Option<ForeignErrorCause>,
}

pub struct ForeignErrorView {
    pub description: Seq<char>,
    pub display: Seq<char>,
    pub cause: Option<ForeignErrorCauseView>,
}

impl DeepView for ForeignError {
    type V = ForeignErrorView;

    open spec fn deep_view(&self) -> ForeignErrorView {
        ForeignErrorView {
            description: self.description@,
            display: self.display@,
            cause: self.cause.deep_view(),
        }
    }
}

/// A value of the kind: which variant it is, and what it holds as far as the
/// declared items read it.
#[derive(Debug, PartialEq, Eq)]
pub enum ErrorKind {
    /// The message variant and its text.
    Msg(String),
    /// A chainable link; the sibling kind that it holds is given by its own
    /// description and display.
    Chained { variant: String, description: String, display: String },
    /// A foreign link and the error that it holds.
    Foreign { variant: String, error: ForeignError },
    /// A custom link. Its fields are read by overrides only.
    Custom { variant: String },
}

pub enum ErrorKindView {
    Msg(Seq<char>),
    Chained { variant: Seq<char>, description: Seq<char>, display: Seq<char> },
    Foreign { variant: Seq<char>, error: ForeignErrorView },
    Custom { variant: Seq<char> },
}

impl DeepView for ErrorKind {
    type V = ErrorKindView;

    open spec fn deep_view(&self) -> ErrorKindView {
        match self {
            ErrorKind::Msg(text) => ErrorKindView::Msg(text@),
            ErrorKind::Chained { variant, description, display } => ErrorKindView::Chained {
                variant: variant@,
                description: description@,
                display: display@,
            },
            ErrorKind::Foreign { variant, error } => ErrorKindView::Foreign {
                variant: variant@,
                error: error.deep_view(),
            },
            ErrorKind::Custom { variant } => ErrorKindView::Custom { variant: variant@ },
        }
    }
}

impl ErrorKindView {
    /// The name of the value's variant.
    pub open spec fn variant(self) -> Seq<char> {
        match self {
            ErrorKindView::Msg(_) => "Msg"@,
            ErrorKindView::Chained { variant, .. } => variant,
            ErrorKindView::Foreign { variant, .. } => variant,
            ErrorKindView::Custom { variant } => variant,
        }
    }
}

/// What a description or a display comes to.
#[derive(Debug, PartialEq, Eq)]
pub enum Shown {
    /// This text.
    Text(String),
    /// This template, filled in with the variant's fields.
    Template(String),
    /// Whatever the supplied expression with this source text makes of the
    /// variant's fields.
    Call(String),
}

pub enum ShownView {
    Text(Seq<char>),
    Template(Seq<char>),
    Call(Seq<char>),
}

impl DeepView for Shown {
    type V = ShownView;

    open spec fn deep_view(&self) -> ShownView {
        match self {
            Shown::Text(text) => ShownView::Text(text@),
            Shown::Template(template) => ShownView::Template(template@),
            Shown::Call(callee) => ShownView::Call(callee@),
        }
    }
}

/// An error in a chain below the top one.
#[derive(Debug, PartialEq, Eq)]
pub enum Source {
    /// An error of this same hierarchy: its kind and its backtrace.
    Wrapped(ErrorKind, Option<Backtrace>),
    /// An error from elsewhere.
    Foreign(ForeignError),
    /// An error from elsewhere that has no cause.
    Leaf(ForeignErrorCause),
    /// The error of a sibling hierarchy: the source text of its type, what it
    /// displays, and its backtrace.
    Sibling(String, String, Option<Backtrace>),
    /// Whatever the supplied expression with this source text gives.
    Computed(String),
}

pub enum SourceView {
    Wrapped(ErrorKindView, Option<Backtrace>),
    Foreign(ForeignErrorView),
    Leaf(ForeignErrorCauseView),
    Sibling(Seq<char>, Seq<char>, Option<Backtrace>),
    Computed(Seq<char>),
}

impl DeepView for Source {
    type V = SourceView;

    open spec fn deep_view(&self) -> SourceView {
        match self {
            Source::Wrapped(kind, backtrace) => SourceView::Wrapped(kind.deep_view(), *backtrace),
            Source::Foreign(error) => SourceView::Foreign(error.deep_view()),
            Source::Leaf(cause) => SourceView::Leaf(cause.deep_view()),
            Source::Sibling(error, display, backtrace) => SourceView::Sibling(
                error@,
                display@,
                *backtrace,
            ),
            Source::Computed(callee) => SourceView::Computed(callee@),
        }
    }
}

/// The chain state of an error: the errors that led to it, the nearest first,
/// and the backtrace, where one was captured.
#[derive(Debug, PartialEq, Eq)]
pub struct State {
    pub next_errors: Vec<Source>,
    pub backtrace: Option<Backtrace>,
}

pub struct StateView {
    pub next_errors: Seq<SourceView>,
    pub backtrace: Option<Backtrace>,
}

impl DeepView for State {
    type V = StateView;

    open spec fn deep_view(&self) -> StateView {
        StateView { next_errors: self.next_errors.deep_view(), backtrace: self.backtrace }
    }
}

/// The error: a kind and its chain state.
#[derive(Debug, PartialEq, Eq)]
pub struct Error {
    pub kind: ErrorKind,
    pub state: State,
}

pub struct ErrorView {
    pub kind: ErrorKindView,
    pub state: StateView,
}

impl DeepView for Error {
    type V = ErrorView;

    open spec fn deep_view(&self) -> ErrorView {
        ErrorView { kind: self.kind.deep_view(), state: self.state.deep_view() }
    }
}

/// The first arm from index `from` on that is for the variant.
pub open spec fn arm_for(cases: Seq<CaseView>, variant: Seq<char>, from: int) -> Option<CaseView>
    decreases cases.len() - from,
{
    if 0 <= from < cases.len() {
        if cases[from].variant == variant {
            Some(cases[from])
        } else {
            arm_for(cases, variant, from + 1)
        }
    } else {
        None
    }
}

/// What an arm's body comes to for a kind value; nothing where the body reads
/// what the value does not hold.
pub open spec fn shown_by(body: BodyView, kind: ErrorKindView) -> Option<ShownView> {
    match body {
        BodyView::Held(_) => match kind {
            ErrorKindView::Msg(text) => Some(ShownView::Text(text)),
            _ => None,
        },
        BodyView::Literal(text) => Some(ShownView::Text(text)),
        BodyView::Closure(call) => Some(ShownView::Call(call.callee.tokens)),
        BodyView::Function(call) => Some(ShownView::Call(call.callee.tokens)),
        BodyView::KindDescription(_) => match kind {
            ErrorKindView::Chained { description, .. } => Some(ShownView::Text(description)),
            _ => None,
        },
        BodyView::ErrorDescription(_) => match kind {
            ErrorKindView::Foreign { error, .. } => Some(ShownView::Text(error.description)),
            _ => None,
        },
        BodyView::VariantName => Some(ShownView::Text(kind.variant())),
        BodyView::Display(_) => match kind {
            ErrorKindView::Msg(text) => Some(ShownView::Text(text)),
            ErrorKindView::Chained { display, .. } => Some(ShownView::Text(display)),
            ErrorKindView::Foreign { error, .. } => Some(ShownView::Text(error.display)),
            ErrorKindView::Custom { .. } => None,
        },
        BodyView::Write(template, _) => Some(ShownView::Template(template)),
        BodyView::DisplayDescription => None,
        BodyView::ErrorCause(_) => None,
    }
}

/// What `description()` gives for a kind value.
pub open spec fn description_of(plan: ExpansionView, kind: ErrorKindView) -> Option<ShownView> {
    match arm_for(plan.error_kind_description_cases, kind.variant(), 0) {
        Some(case) => shown_by(case.body, kind),
        None => None,
    }
}

/// What a kind value displays. The error that wraps it displays the same.
pub open spec fn display_of(plan: ExpansionView, kind: ErrorKindView) -> Option<ShownView> {
    match arm_for(plan.error_kind_display_cases, kind.variant(), 0) {
        Some(case) => if case.body is DisplayDescription {
            description_of(plan, kind)
        } else {
            shown_by(case.body, kind)
        },
        None => None,
    }
}

/// The cause that the arms of `cause` give for a kind value.
pub open spec fn own_cause(plan: ExpansionView, kind: ErrorKindView) -> Option<SourceView> {
    match arm_for(plan.error_cause_cases, kind.variant(), 0) {
        Some(case) => match case.body {
            BodyView::Closure(call) => Some(SourceView::Computed(call.callee.tokens)),
            BodyView::Function(call) => Some(SourceView::Computed(call.callee.tokens)),
            BodyView::ErrorCause(_) => match kind {
                ErrorKindView::Foreign { error, .. } => match error.cause {
                    Some(cause) => Some(SourceView::Leaf(cause)),
                    None => None,
                },
                _ => None,
            },
            _ => None,
        },
        None => None,
    }
}

/// The cause of an error: the nearest error below it where there is one, else
/// what the arms of `cause` give for its kind.
pub open spec fn cause_of(plan: ExpansionView, error: ErrorView) -> Option<SourceView> {
    if error.state.next_errors.len() > 0 {
        Some(error.state.next_errors[0])
    } else {
        own_cause(plan, error.kind)
    }
}

/// What an error below the top one displays.
pub open spec fn source_display(plan: ExpansionView, source: SourceView) -> Option<ShownView> {
    match source {
        SourceView::Wrapped(kind, _) => display_of(plan, kind),
        SourceView::Foreign(error) => Some(ShownView::Text(error.display)),
        SourceView::Leaf(cause) => Some(ShownView::Text(cause.display)),
        SourceView::Sibling(_, display, _) => Some(ShownView::Text(display)),
        SourceView::Computed(callee) => Some(ShownView::Call(callee)),
    }
}

/// The displays of an error that is nobody's wrapper and of the errors that it
/// names as its causes, as far as they are known.
pub open spec fn tail_displays(plan: ExpansionView, source: Option<SourceView>) -> Seq<
    Option<ShownView>,
> {
    match source {
        None => Seq::empty(),
        Some(SourceView::Foreign(error)) => match error.cause {
            Some(cause) => seq![
                Some(ShownView::Text(error.display)),
                Some(ShownView::Text(cause.display)),
            ],
            None => seq![Some(ShownView::Text(error.display))],
        },
        Some(source) => seq![source_display(plan, source)],
    }
}

/// The displays of the errors from index `from` of `below` on, down to the end
/// of the chain. `kind` is the kind of the wrapper just above.
pub open spec fn displays_below(
    plan: ExpansionView,
    kind: ErrorKindView,
    below: Seq<SourceView>,
    from: int,
) -> Seq<Option<ShownView>>
    decreases below.len() - from,
{
    if 0 <= from < below.len() {
        match below[from] {
            SourceView::Wrapped(next, _) => seq![display_of(plan, next)] + displays_below(
                plan,
                next,
                below,
                from + 1,
            ),
            source => tail_displays(plan, Some(source)),
        }
    } else {
        tail_displays(plan, own_cause(plan, kind))
    }
}

/// What walking an error's chain displays: the error itself, then cause after
/// cause.
pub open spec fn chain_displays(plan: ExpansionView, error: ErrorView) -> Seq<Option<ShownView>> {
    seq![display_of(plan, error.kind)] + displays_below(
        plan,
        error.kind,
        error.state.next_errors,
        0,
    )
}

/// The error made of a kind alone: nothing led to it.
pub open spec fn error_of_kind(kind: ErrorKindView, backtrace: Option<Backtrace>) -> ErrorView {
    ErrorView { kind, state: StateView { next_errors: Seq::empty(), backtrace } }
}

/// The error of kind `kind` that `error` led to.
pub open spec fn chained(error: ErrorView, kind: ErrorKindView, backtrace: Option<Backtrace>)
    -> ErrorView {
    ErrorView {
        kind,
        state: StateView {
            next_errors: seq![SourceView::Wrapped(error.kind, error.state.backtrace)]
                + error.state.next_errors,
            backtrace,
        },
    }
}

/// The error of kind `kind` that an error from elsewhere led to.
pub open spec fn chained_over(source: SourceView, kind: ErrorKindView, backtrace: Option<Backtrace>)
    -> ErrorView {
    ErrorView { kind, state: StateView { next_errors: seq![source], backtrace } }
}

/// Whether the conversions hold the one from texts.
pub open spec fn converts_texts(conversions: Seq<FromImplView>) -> bool {
    exists|i: int| 0 <= i < conversions.len() && #[trigger] conversions[i] is Message
}

/// Whether the conversions hold one from a sibling's error into the variant.
pub open spec fn converts_sibling(conversions: Seq<FromImplView>, variant: Seq<char>) -> bool {
    exists|i: int|
        0 <= i < conversions.len() && (#[trigger] conversions[i] matches FromImplView::Sibling(
            name,
            _,
        ) && name == variant)
}

/// Whether the conversions hold one from a foreign error into the variant.
pub open spec fn converts_foreign(conversions: Seq<FromImplView>, variant: Seq<char>) -> bool {
    exists|i: int|
        0 <= i < conversions.len() && (#[trigger] conversions[i] matches FromImplView::Foreign(
            name,
            _,
        ) && name == variant)
}

/// The kind that a text converts into, where the kind has a message variant.
pub open spec fn kind_of_text(plan: ExpansionView, text: Seq<char>) -> Option<ErrorKindView> {
    if converts_texts(plan.error_kind_from_impls) {
        Some(ErrorKindView::Msg(text))
    } else {
        None
    }
}

/// The error of a sibling hierarchy, as a chainable link sees it: what its kind
/// describes itself as and displays, and its chain state.
#[derive(Debug, PartialEq, Eq)]
pub struct SiblingError {
    pub description: String,
    pub display: String,
    pub state: State,
}

pub struct SiblingErrorView {
    pub description: Seq<char>,
    pub display: Seq<char>,
    pub state: StateView,
}

impl DeepView for SiblingError {
    type V = SiblingErrorView;

    open spec fn deep_view(&self) -> SiblingErrorView {
        SiblingErrorView {
            description: self.description@,
            display: self.display@,
            state: self.state.deep_view(),
        }
    }
}

/// The error that a sibling's error converts into through the chainable link
/// `variant`: the variant wraps the sibling's kind, and the state is the
/// sibling's.
pub open spec fn error_of_sibling(plan: ExpansionView, variant: Seq<char>, sibling: SiblingErrorView)
    -> Option<ErrorView> {
    if converts_sibling(plan.error_from_impls, variant) {
        Some(
            ErrorView {
                kind: ErrorKindView::Chained {
                    variant,
                    description: sibling.description,
                    display: sibling.display,
                },
                state: sibling.state,
            },
        )
    } else {
        None
    }
}

/// The error that a foreign error converts into through the foreign link
/// `variant`: the variant wraps it, and nothing led to it.
pub open spec fn error_of_foreign(
    plan: ExpansionView,
    variant: Seq<char>,
    error: ForeignErrorView,
    backtrace: Option<Backtrace>,
) -> Option<ErrorView> {
    if converts_foreign(plan.error_from_impls, variant) {
        Some(error_of_kind(ErrorKindView::Foreign { variant, error }, backtrace))
    } else {
        None
    }
}

/// Whether a type with this source text is among the types.
pub open spec fn names_type(types: Seq<TypeExprView>, error: Seq<char>) -> bool {
    exists|i: int| 0 <= i < types.len() && (#[trigger] types[i]).tokens == error
}

/// The backtrace that a new error takes over from the error that led to it: the
/// backtrace of an error of this same hierarchy, or of the error of a sibling
/// hierarchy that a chainable link names. Any other error hands none on, and so
/// does every error where backtraces are switched off.
pub open spec fn extracted_backtrace(plan: ExpansionView, source: SourceView) -> Option<
    Backtrace,
> {
    match plan.extract_backtrace {
        None => None,
        Some(types) => match source {
            SourceView::Wrapped(_, backtrace) => backtrace,
            SourceView::Sibling(error, _, backtrace) => if names_type(types, error) {
                backtrace
            } else {
                None
            },
            _ => None,
        },
    }
}

/// Whether backtraces are captured, going by the value of the environment's
/// switch: they are unless it is unset or `0`.
pub open spec fn captures(switch: Option<Seq<char>>) -> bool {
    switch matches Some(value) && value != "0"@
}

/// The backtrace of an error that the expanded code makes now. Where the
/// declaration switches backtraces off there is none, whatever the environment
/// says; else the captured one where the environment's switch asks for
/// backtraces.
pub open spec fn fresh_backtrace(
    plan: ExpansionView,
    switch: Option<Seq<char>>,
    captured: Backtrace,
) -> Option<Backtrace> {
    if plan.properties.support_backtrace && captures(switch) {
        Some(captured)
    } else {
        None
    }
}

/// The value of the environment's switch, as text.
pub open spec fn switch_text(switch: Option<&str>) -> Option<Seq<char>> {
    match switch {
        Some(value) => Some(value@),
        None => None,
    }
}

/// Tells whether backtraces are captured, going by the value of the
/// environment's switch.
pub fn backtrace_enabled(switch: Option<&str>) -> (r: bool)
    ensures
        r == captures(switch_text(switch)),
{
    match switch {
        Some(value) => !same(value, "0"),
        None => false,
    }
}

/// The backtrace of an error that is made now: the one that was captured where
/// the environment's switch asks for backtraces, none where it is unset or `0`.
pub fn make_backtrace(switch: Option<&str>, captured: Backtrace) -> (r: Option<Backtrace>)
    ensures
        r == if captures(switch_text(switch)) {
            Some(captured)
        } else {
            None::<Backtrace>
        },
{
    if backtrace_enabled(switch) {
        Some(captured)
    } else {
        None
    }
}

impl ForeignErrorCause {
    /// A copy of the error.
    pub fn duplicate(&self) -> (r: ForeignErrorCause)
        ensures
            r.deep_view() == self.deep_view(),
    {
        ForeignErrorCause { description: copy(&self.description), display: copy(&self.display) }
    }
}

impl ForeignError {
    /// A copy of the error.
    pub fn duplicate(&self) -> (r: ForeignError)
        ensures
            r.deep_view() == self.deep_view(),
    {
        ForeignError {
            description: copy(&self.description),
            display: copy(&self.display),
            cause: match &self.cause {
                Some(cause) => Some(cause.duplicate()),
                None => None,
            },
        }
    }
}

impl ErrorKind {
    /// The name of the value's variant.
    pub fn variant(&self) -> (r: &str)
        ensures
            r@ == self.deep_view().variant(),
    {
        match self {
            ErrorKind::Msg(_) => "Msg",
            ErrorKind::Chained { variant, .. } => variant.as_str(),
            ErrorKind::Foreign { variant, .. } => variant.as_str(),
            ErrorKind::Custom { variant } => variant.as_str(),
        }
    }

    /// A copy of the value.
    pub fn duplicate(&self) -> (r: ErrorKind)
        ensures
            r.deep_view() == self.deep_view(),
    {
        match self {
            ErrorKind::Msg(text) => ErrorKind::Msg(copy(text)),
            ErrorKind::Chained { variant, description, display } => ErrorKind::Chained {
                variant: copy(variant),
                description: copy(description),
                display: copy(display),
            },
            ErrorKind::Foreign { variant, error } => ErrorKind::Foreign {
                variant: copy(variant),
                error: error.duplicate(),
            },
            ErrorKind::Custom { variant } => ErrorKind::Custom { variant: copy(variant) },
        }
    }
}

impl Source {
    /// A copy of the error.
    pub fn duplicate(&self) -> (r: Source)
        ensures
            r.deep_view() == self.deep_view(),
    {
        match self {
            Source::Wrapped(kind, backtrace) => Source::Wrapped(kind.duplicate(), *backtrace),
            Source::Foreign(error) => Source::Foreign(error.duplicate()),
            Source::Leaf(cause) => Source::Leaf(cause.duplicate()),
            Source::Sibling(error, display, backtrace) => Source::Sibling(
                copy(error),
                copy(display),
                *backtrace,
            ),
            Source::Computed(callee) => Source::Computed(copy(callee)),
        }
    }
}

/// Tells whether a type with this source text is among the types.
pub fn type_named(types: &Vec<TypeExpr>, error: &str) -> (r: bool)
    ensures
        r == names_type(types.deep_view(), error@),
{
    let mut i: usize = 0;
    while i < types.len()
        invariant
            i <= types.len(),
            forall|j: int| 0 <= j < i ==> (#[trigger] types.deep_view()[j]).tokens != error@,
        decreases types.len() - i,
    {
        assert(types.deep_view()[i as int] == types@[i as int].deep_view());
        if same(types[i].tokens.as_str(), error) {
            return true;
        }
        i += 1;
    }
    false
}

/// Finds the first arm that is for the variant.
pub fn find_arm<'a>(cases: &'a Vec<Case>, variant: &str) -> (r: Option<&'a Case>)
    ensures
        r.deep_view() == arm_for(cases.deep_view(), variant@, 0),
{
    let mut i: usize = 0;
    while i < cases.len()
        invariant
            i <= cases.len(),
            arm_for(cases.deep_view(), variant@, i as int) == arm_for(
                cases.deep_view(),
                variant@,
                0,
            ),
        decreases cases.len() - i,
    {
        assert(cases.deep_view()[i as int] == cases@[i as int].deep_view());
        if same(cases[i].variant.as_str(), variant) {
            return Some(&cases[i]);
        }
        i += 1;
    }
    None
}

/// Works out what an arm's body comes to for a kind value.
pub fn show(body: &Body, kind: &ErrorKind) -> (r: Option<Shown>)
    ensures
        r.deep_view() == shown_by(body.deep_view(), kind.deep_view()),
{
    match body {
        Body::Held(_) => match kind {
            ErrorKind::Msg(text) => Some(Shown::Text(copy(text))),
            _ => None,
        },
        Body::Literal(text) => Some(Shown::Text(copy(text))),
        Body::Closure(call) => Some(Shown::Call(copy(&call.callee.tokens))),
        Body::Function(call) => Some(Shown::Call(copy(&call.callee.tokens))),
        Body::KindDescription(_) => match kind {
            ErrorKind::Chained { description, .. } => Some(Shown::Text(copy(description))),
            _ => None,
        },
        Body::ErrorDescription(_) => match kind {
            ErrorKind::Foreign { error, .. } => Some(Shown::Text(copy(&error.description))),
            _ => None,
        },
        Body::VariantName => {
            let name = kind.variant();
            Some(Shown::Text(String::from_str(name)))
        },
        Body::Display(_) => match kind {
            ErrorKind::Msg(text) => Some(Shown::Text(copy(text))),
            ErrorKind::Chained { display, .. } => Some(Shown::Text(copy(display))),
            ErrorKind::Foreign { error, .. } => Some(Shown::Text(copy(&error.display))),
            ErrorKind::Custom { .. } => None,
        },
        Body::Write(template, _) => Some(Shown::Template(copy(template))),
        Body::DisplayDescription => None,
        Body::ErrorCause(_) => None,
    }
}

impl State {
    /// The state of an error that nothing led to.
    pub fn new(backtrace: Option<Backtrace>) -> (r: State)
        ensures
            r.deep_view() == (StateView { next_errors: Seq::empty(), backtrace }),
    {
        let next_errors: Vec<Source> = Vec::new();
        assert(next_errors.deep_view() =~= Seq::empty());
        State { next_errors, backtrace }
    }
}

impl Error {
    /// The error made of a kind alone: nothing led to it. `backtrace` is the
    /// backtrace captured for it, if any was.
    pub fn from_kind(kind: ErrorKind, backtrace: Option<Backtrace>) -> (r: Error)
        ensures
            r.deep_view() == error_of_kind(kind.deep_view(), backtrace),
    {
        Error { kind, state: State::new(backtrace) }
    }

    /// The kind of the error.
    pub fn kind(&self) -> (r: &ErrorKind)
        ensures
            r == &self.kind,
    {
        &self.kind
    }

    /// The backtrace of the error, where it has one.
    pub fn backtrace(&self) -> (r: Option<Backtrace>)
        ensures
            r == self.state.backtrace,
    {
        self.state.backtrace
    }

    /// The error of kind `kind` that this error led to: this error becomes the
    /// nearest one below it. `backtrace` is the backtrace that the new error
    /// settles on.
    pub fn chain_err(self, kind: ErrorKind, backtrace: Option<Backtrace>) -> (r: Error)
        ensures
            r.deep_view() == chained(self.deep_view(), kind.deep_view(), backtrace),
    {
        let Error { kind: below, state } = self;
        let State { next_errors, backtrace: captured } = state;
        let mut chain: Vec<Source> = Vec::new();
        let first = Source::Wrapped(below, captured);
        chain.push(first);
        assert(chain.deep_view() =~= seq![first.deep_view()]);
        let ghost head = chain;
        let mut rest = next_errors;
        chain.append(&mut rest);
        assert(chain.deep_view() =~= head.deep_view() + next_errors.deep_view());
        Error { kind, state: State { next_errors: chain, backtrace } }
    }
}

impl Expansion {
    /// The backtrace of an error that is made now: none where the declaration
    /// switches backtraces off, else as the environment's switch has it.
    pub fn new_backtrace(&self, switch: Option<&str>, captured: Backtrace) -> (r: Option<
        Backtrace,
    >)
        ensures
            r == fresh_backtrace(self.deep_view(), switch_text(switch), captured),
    {
        if self.properties.support_backtrace {
            make_backtrace(switch, captured)
        } else {
            None
        }
    }

    /// The error that a kind converts into: nothing led to it, and its backtrace
    /// is the one of an error that is made now.
    pub fn error_from_kind(&self, kind: ErrorKind, switch: Option<&str>, captured: Backtrace) -> (r:
        Error)
        ensures
            r.deep_view() == error_of_kind(
                kind.deep_view(),
                fresh_backtrace(self.deep_view(), switch_text(switch), captured),
            ),
    {
        Error::from_kind(kind, self.new_backtrace(switch, captured))
    }

    /// What `description()` gives for a kind value; nothing for a value that
    /// the kind does not have.
    pub fn description(&self, kind: &ErrorKind) -> (r: Option<Shown>)
        ensures
            r.deep_view() == description_of(self.deep_view(), kind.deep_view()),
    {
        match find_arm(&self.error_kind_description_cases, kind.variant()) {
            Some(case) => show(&case.body, kind),
            None => None,
        }
    }

    /// What a kind value displays, and with it the error that wraps it; nothing
    /// for a value that the kind does not have.
    pub fn display(&self, kind: &ErrorKind) -> (r: Option<Shown>)
        ensures
            r.deep_view() == display_of(self.deep_view(), kind.deep_view()),
    {
        match find_arm(&self.error_kind_display_cases, kind.variant()) {
            Some(case) => match &case.body {
                Body::DisplayDescription => self.description(kind),
                body => show(body, kind),
            },
            None => None,
        }
    }

    /// The cause that the arms of `cause` give for a kind value.
    pub fn own_cause(&self, kind: &ErrorKind) -> (r: Option<Source>)
        ensures
            r.deep_view() == own_cause(self.deep_view(), kind.deep_view()),
    {
        match find_arm(&self.error_cause_cases, kind.variant()) {
            Some(case) => match &case.body {
                Body::Closure(call) => Some(Source::Computed(copy(&call.callee.tokens))),
                Body::Function(call) => Some(Source::Computed(copy(&call.callee.tokens))),
                Body::ErrorCause(_) => match kind {
                    ErrorKind::Foreign { error, .. } => match &error.cause {
                        Some(cause) => Some(Source::Leaf(cause.duplicate())),
                        None => None,
                    },
                    _ => None,
                },
                _ => None,
            },
            None => None,
        }
    }

    /// The cause of an error: the nearest error below it where there is one,
    /// else what the arms of `cause` give for its kind.
    pub fn cause(&self, error: &Error) -> (r: Option<Source>)
        ensures
            r.deep_view() == cause_of(self.deep_view(), error.deep_view()),
    {
        if error.state.next_errors.len() > 0 {
            assert(error.state.next_errors.deep_view()[0] == error.state.next_errors@[0].deep_view());
            Some(error.state.next_errors[0].duplicate())
        } else {
            self.own_cause(&error.kind)
        }
    }

    fn tail(&self, source: Option<Source>, out: &mut Vec<Option<Shown>>)
        ensures
            final(out).deep_view() == old(out).deep_view() + tail_displays(
                self.deep_view(),
                source.deep_view(),
            ),
    {
        let ghost before = *out;
        match source {
            None => {
                assert(out.deep_view() =~= before.deep_view() + Seq::empty());
            },
            Some(Source::Foreign(error)) => {
                let first = Some(Shown::Text(copy(&error.display)));
                out.push(first);
                proof {
                    lemma_pushed(before, *out, first);
                }
                match &error.cause {
                    Some(cause) => {
                        let ghost middle = *out;
                        let second = Some(Shown::Text(copy(&cause.display)));
                        out.push(second);
                        proof {
                            lemma_pushed(middle, *out, second);
                        }
                        assert(out.deep_view() =~= before.deep_view() + seq![
                            first.deep_view(),
                            second.deep_view(),
                        ]);
                    },
                    None => {
                        assert(out.deep_view() =~= before.deep_view() + seq![first.deep_view()]);
                    },
                }
            },
            Some(Source::Wrapped(kind, _)) => {
                let shown = self.display(&kind);
                out.push(shown);
                proof {
                    lemma_pushed(before, *out, shown);
                }
                assert(out.deep_view() =~= before.deep_view() + seq![shown.deep_view()]);
            },
            Some(Source::Leaf(cause)) => {
                let shown = Some(Shown::Text(copy(&cause.display)));
                out.push(shown);
                proof {
                    lemma_pushed(before, *out, shown);
                }
                assert(out.deep_view() =~= before.deep_view() + seq![shown.deep_view()]);
            },
            Some(Source::Sibling(_, display, _)) => {
                let shown = Some(Shown::Text(display));
                out.push(shown);
                proof {
                    lemma_pushed(before, *out, shown);
                }
                assert(out.deep_view() =~= before.deep_view() + seq![shown.deep_view()]);
            },
            Some(Source::Computed(callee)) => {
                let shown = Some(Shown::Call(callee));
                out.push(shown);
                proof {
                    lemma_pushed(before, *out, shown);
                }
                assert(out.deep_view() =~= before.deep_view() + seq![shown.deep_view()]);
            },
        }
    }

    /// Walks the chain of an error and collects what each error in it displays:
    /// the error itself first, then cause after cause.
    pub fn iter(&self, error: &Error) -> (r: Vec<Option<Shown>>)
        ensures
            r.deep_view() == chain_displays(self.deep_view(), error.deep_view()),
    {
        let mut out: Vec<Option<Shown>> = Vec::new();
        let first = self.display(&error.kind);
        out.push(first);
        assert(out.deep_view() =~= seq![first.deep_view()]);
        let below = &error.state.next_errors;
        let mut kind = &error.kind;
        let mut i: usize = 0;
        assert(out.deep_view() + displays_below(self.deep_view(), kind.deep_view(), below.deep_view(), 0)
            =~= chain_displays(self.deep_view(), error.deep_view()));
        while i < below.len()
            invariant
                i <= below.len(),
                below == &error.state.next_errors,
                out.deep_view() + displays_below(
                    self.deep_view(),
                    kind.deep_view(),
                    below.deep_view(),
                    i as int,
                ) == chain_displays(self.deep_view(), error.deep_view()),
            decreases below.len() - i,
        {
            assert(below.deep_view()[i as int] == below@[i as int].deep_view());
            match &below[i] {
                Source::Wrapped(next, _) => {
                    let ghost before = out;
                    let ghost above = kind.deep_view();
                    let shown = self.display(next);
                    out.push(shown);
                    proof {
                        lemma_pushed(before, out, shown);
                        assert(before.deep_view() + (seq![shown.deep_view()] + displays_below(
                            self.deep_view(),
                            next.deep_view(),
                            below.deep_view(),
                            i + 1,
                        )) =~= out.deep_view() + displays_below(
                            self.deep_view(),
                            next.deep_view(),
                            below.deep_view(),
                            i + 1,
                        ));
                    }
                    kind = next;
                },
                source => {
                    self.tail(Some(source.duplicate()), &mut out);
                    return out;
                },
            }
            i += 1;
        }
        let last = self.own_cause(kind);
        self.tail(last, &mut out);
        out
    }

    /// The backtrace that a new error takes over from the error that led to it.
    pub fn extract_backtrace(&self, source: &Source) -> (r: Option<Backtrace>)
        ensures
            r == extracted_backtrace(self.deep_view(), source.deep_view()),
    {
        match &self.extract_backtrace {
            None => None,
            Some(types) => match source {
                Source::Wrapped(_, backtrace) => *backtrace,
                Source::Sibling(error, _, backtrace) => {
                    if type_named(types, error.as_str()) {
                        *backtrace
                    } else {
                        None
                    }
                },
                _ => None,
            },
        }
    }

    /// The kind that a text converts into: the message variant with the text,
    /// where the kind has one. Without it nothing converts.
    pub fn kind_from_text(&self, text: String) -> (r: Option<ErrorKind>)
        ensures
            r.deep_view() == kind_of_text(self.deep_view(), text@),
    {
        let conversions = &self.error_kind_from_impls;
        let mut i: usize = 0;
        while i < conversions.len()
            invariant
                i <= conversions.len(),
                conversions == &self.error_kind_from_impls,
                forall|j: int| 0 <= j < i ==> !(#[trigger] conversions.deep_view()[j] is Message),
            decreases conversions.len() - i,
        {
            assert(conversions.deep_view()[i as int] == conversions@[i as int].deep_view());
            match &conversions[i] {
                FromImpl::Message(_) => {
                    return Some(ErrorKind::Msg(text));
                },
                _ => {},
            }
            i += 1;
        }
        None
    }

    /// The error that a sibling's error converts into through the chainable
    /// link `variant`; nothing where the kind has no such link.
    pub fn error_from_sibling(&self, variant: &str, sibling: SiblingError) -> (r: Option<Error>)
        ensures
            r.deep_view() == error_of_sibling(self.deep_view(), variant@, sibling.deep_view()),
    {
        let conversions = &self.error_from_impls;
        let mut i: usize = 0;
        while i < conversions.len()
            invariant
                i <= conversions.len(),
                conversions == &self.error_from_impls,
                forall|j: int|
                    0 <= j < i ==> !(#[trigger] conversions.deep_view()[j] matches FromImplView::Sibling(
                        name,
                        _,
                    ) && name == variant@),
            decreases conversions.len() - i,
        {
            assert(conversions.deep_view()[i as int] == conversions@[i as int].deep_view());
            match &conversions[i] {
                FromImpl::Sibling(name, _) => {
                    if same(name.as_str(), variant) {
                        let SiblingError { description, display, state } = sibling;
                        return Some(
                            Error {
                                kind: ErrorKind::Chained {
                                    variant: String::from_str(variant),
                                    description,
                                    display,
                                },
                                state,
                            },
                        );
                    }
                },
                _ => {},
            }
            i += 1;
        }
        None
    }

    /// The error that a foreign error converts into through the foreign link
    /// `variant`; nothing where the kind has no such link, or where the link
    /// brings no conversion. `backtrace` is the backtrace captured for the new
    /// error, if any was.
    pub fn error_from_foreign(
        &self,
        variant: &str,
        error: ForeignError,
        backtrace: Option<Backtrace>,
    ) -> (r: Option<Error>)
        ensures
            r.deep_view() == error_of_foreign(
                self.deep_view(),
                variant@,
                error.deep_view(),
                backtrace,
            ),
    {
        let conversions = &self.error_from_impls;
        let mut i: usize = 0;
        while i < conversions.len()
            invariant
                i <= conversions.len(),
                conversions == &self.error_from_impls,
                forall|j: int|
                    0 <= j < i ==> !(#[trigger] conversions.deep_view()[j] matches FromImplView::Foreign(
                        name,
                        _,
                    ) && name == variant@),
            decreases conversions.len() - i,
        {
            assert(conversions.deep_view()[i as int] == conversions@[i as int].deep_view());
            match &conversions[i] {
                FromImpl::Foreign(name, _) => {
                    if same(name.as_str(), variant) {
                        return Some(
                            Error::from_kind(
                                ErrorKind::Foreign { variant: String::from_str(variant), error },
                                backtrace,
                            ),
                        );
                    }
                },
                _ => {},
            }
            i += 1;
        }
        None
    }
}

/// What `chain_err` of the extension trait makes of a result whose error is of
/// this same hierarchy: a success passes through, and a failure becomes the error
/// of kind `kind` that the failure led to. `backtrace` is the backtrace that the
/// new error settles on.
pub fn own_result_chain_err<T>(
    result: Result<T, Error>,
    kind: ErrorKind,
    backtrace: Option<Backtrace>,
) -> (r: Result<T, Error>)
    ensures
        match result {
            Ok(value) => r == Ok::<T, Error>(value),
            Err(error) => r matches Err(chain) && chain.deep_view() == chained(
                error.deep_view(),
                kind.deep_view(),
                backtrace,
            ),
        },
{
    match result {
        Ok(value) => Ok(value),
        Err(error) => Err(error.chain_err(kind, backtrace)),
    }
}

/// What `chain_err` of the extension trait makes of a result whose error comes
/// from elsewhere: a success passes through, and a failure becomes the error of
/// kind `kind` with the failure as its nearest cause. `backtrace` is the
/// backtrace that the new error settles on.
pub fn result_chain_err<T>(result: Result<T, Source>, kind: ErrorKind, backtrace: Option<Backtrace>)
    -> (r: Result<T, Error>)
    ensures
        match result {
            Ok(value) => r == Ok::<T, Error>(value),
            Err(source) => r matches Err(chain) && chain.deep_view() == chained_over(
                source.deep_view(),
                kind.deep_view(),
                backtrace,
            ),
        },
{
    match result {
        Ok(value) => Ok(value),
        Err(source) => {
            let mut next_errors: Vec<Source> = Vec::new();
            next_errors.push(source);
            assert(next_errors.deep_view() =~= seq![source.deep_view()]);
            Err(Error { kind, state: State { next_errors, backtrace } })
        },
    }
}

/// What `chain_err` of the extension trait makes of an option: a value passes
/// through, and its absence becomes the error of kind `kind` that nothing led
/// to. `backtrace` is the backtrace captured for the new error, if any was.
pub fn option_chain_err<T>(option: Option<T>, kind: ErrorKind, backtrace: Option<Backtrace>) -> (r:
    Result<T, Error>)
    ensures
        match option {
            Some(value) => r == Ok::<T, Error>(value),
            None => r matches Err(error) && error.deep_view() == error_of_kind(
                kind.deep_view(),
                backtrace,
            ),
        },
{
    match option {
        Some(value) => Ok(value),
        None => Err(Error::from_kind(kind, backtrace)),
    }
}

/// What the error displays that wraps a foreign error through the foreign link
/// `variant`: without an override, what the foreign error displays itself.
pub fn display_underlying_error(plan: &Expansion, variant: &str, error: ForeignError) -> (r: Option<
    Shown,
>)
    ensures
        r.deep_view() == display_of(
            plan.deep_view(),
            ErrorKindView::Foreign { variant: variant@, error: error.deep_view() },
        ),
{
    plan.display(&ErrorKind::Foreign { variant: String::from_str(variant), error })
}

/// The cause of the error that wraps a foreign error through the foreign link
/// `variant` and that nothing led to: without an override, the foreign error's
/// own cause.
pub fn finds_cause(plan: &Expansion, variant: &str, error: ForeignError) -> (r: Option<Source>)
    ensures
        r.deep_view() == own_cause(
            plan.deep_view(),
            ErrorKindView::Foreign { variant: variant@, error: error.deep_view() },
        ),
{
    plan.own_cause(&ErrorKind::Foreign { variant: String::from_str(variant), error })
}

/// What walking the chain displays for the error that wraps a foreign error
/// through the foreign link `variant` and that nothing led to.
pub fn iterates(plan: &Expansion, variant: &str, error: ForeignError) -> (r: Vec<Option<Shown>>)
    ensures
        r.deep_view() == chain_displays(
            plan.deep_view(),
            error_of_kind(
                ErrorKindView::Foreign { variant: variant@, error: error.deep_view() },
                None,
            ),
        ),
{
    let wrapper = Error::from_kind(
        ErrorKind::Foreign { variant: String::from_str(variant), error },
        None,
    );
    plan.iter(&wrapper)
}

} // verus!

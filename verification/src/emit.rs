//! What each link contributes to the expansion: its arms in `description`, in
//! `Display` and in `cause`, and its conversions.

use vstd::prelude::*;
use vstd::string::StringExecFns;
use crate::formatter::{CustomFormatter, CustomFormatterView};
use crate::link::{Link, LinkType, LinkTypeView, LinkView};
use crate::pattern::{all_bound, all_names, args, fields_pattern, fields_pattern_ignore, none_bound};
use crate::plan::{
    copy_arguments, BindingView, Body, BodyView, Call, CallView, Case, CaseView, FromImpl,
    FromImplView, Pattern, PatternView,
};
use crate::syntax::{Expression, ExpressionView, TypeExpr, TypeExprView};
use crate::text::{contains, copy};

verus! {

/// The pattern over a tuple of one element that binds it under `name`.
pub open spec fn one(name: Seq<char>) -> PatternView {
    PatternView::Tuple(seq![BindingView::Ref(name)])
}

/// The call of a supplied expression: a closure is called as it stands, a
/// function by its path.
pub open spec fn call_of(callee: ExpressionView, args: Seq<Seq<char>>) -> BodyView {
    if callee.is_closure {
        BodyView::Closure(CallView { callee, args })
    } else {
        BodyView::Function(CallView { callee, args })
    }
}

/// The call of a supplied expression in an arm that formats: a closure is called
/// on the bound fields and captures the formatter `f`, a function is handed the
/// formatter `f` first and the bound fields after it.
pub open spec fn display_call_of(callee: ExpressionView, args: Seq<Seq<char>>) -> BodyView {
    if callee.is_closure {
        BodyView::Closure(CallView { callee, args })
    } else {
        BodyView::Function(CallView { callee, args: seq!["f"@] + args })
    }
}

/// The arm of `description` for a link. Without an override, a message is the
/// text it holds, a chainable link hands on its sibling's description, a foreign
/// link the foreign error's, and a custom link is described by its variant's
/// name.
pub open spec fn description_case(link: LinkView) -> CaseView {
    let variant = link.variant_ident;
    match link.link_type {
        LinkTypeView::Msg => CaseView { variant, pattern: one("s"@), body: BodyView::Held("s"@) },
        LinkTypeView::Custom => match link.custom_description {
            Some(CustomFormatterView::FormatString { format_string, .. }) => CaseView {
                variant,
                pattern: none_bound(link.variant_fields),
                body: BodyView::Literal(format_string),
            },
            Some(CustomFormatterView::Expr(callee)) => CaseView {
                variant,
                pattern: all_bound(link.variant_fields),
                body: call_of(callee, all_names(link.variant_fields)),
            },
            None => CaseView {
                variant,
                pattern: none_bound(link.variant_fields),
                body: BodyView::VariantName,
            },
        },
        _ => match link.custom_description {
            Some(CustomFormatterView::FormatString { format_string, .. }) => CaseView {
                variant,
                pattern: PatternView::Tuple(seq![BindingView::Skip]),
                body: BodyView::Literal(format_string),
            },
            Some(CustomFormatterView::Expr(callee)) => CaseView {
                variant,
                pattern: one("err"@),
                body: call_of(callee, seq!["err"@]),
            },
            None => if link.link_type is Chainable {
                CaseView {
                    variant,
                    pattern: one("kind"@),
                    body: BodyView::KindDescription("kind"@),
                }
            } else {
                CaseView {
                    variant,
                    pattern: one("err"@),
                    body: BodyView::ErrorDescription("err"@),
                }
            },
        },
    }
}

/// The name under which an arm of `Display` binds what a link holds.
pub open spec fn held_name(link_type: LinkTypeView) -> Seq<char> {
    match link_type {
        LinkTypeView::Msg => "s"@,
        LinkTypeView::Chainable(_, _) => "kind"@,
        _ => "err"@,
    }
}

/// The arm of `Display` for a link. Without an override, a message, a sibling
/// kind and a foreign error are displayed as they display themselves, and a
/// custom link displays its description.
pub open spec fn display_case(link: LinkView) -> CaseView {
    let variant = link.variant_ident;
    let name = held_name(link.link_type);
    match link.link_type {
        LinkTypeView::Msg => CaseView { variant, pattern: one(name), body: BodyView::Display(name) },
        _ => match link.custom_display {
            Some(CustomFormatterView::FormatString { format_string, pattern, args }) => CaseView {
                variant,
                pattern,
                body: BodyView::Write(format_string, args),
            },
            Some(CustomFormatterView::Expr(callee)) => if link.link_type is Custom {
                CaseView {
                    variant,
                    pattern: all_bound(link.variant_fields),
                    body: display_call_of(callee, all_names(link.variant_fields)),
                }
            } else {
                CaseView { variant, pattern: one(name), body: display_call_of(callee, seq![name]) }
            },
            None => if link.link_type is Custom {
                CaseView {
                    variant,
                    pattern: none_bound(link.variant_fields),
                    body: BodyView::DisplayDescription,
                }
            } else {
                CaseView { variant, pattern: one(name), body: BodyView::Display(name) }
            },
        },
    }
}

/// The arm of `cause` for a link, where it has one. A message has none. With an
/// override the cause is what the supplied expression gives for the fields.
/// Without one, a foreign link hands on the foreign error's own cause, and the
/// other links have no arm: their cause is nothing.
pub open spec fn cause_case(link: LinkView) -> Option<CaseView> {
    let variant = link.variant_ident;
    match link.link_type {
        LinkTypeView::Msg => None,
        _ => match link.custom_cause {
            Some(callee) => Some(
                CaseView {
                    variant,
                    pattern: all_bound(link.variant_fields),
                    body: call_of(callee, all_names(link.variant_fields)),
                },
            ),
            None => if link.link_type is Foreign {
                Some(CaseView { variant, pattern: one("err"@), body: BodyView::ErrorCause("err"@) })
            } else {
                None
            },
        },
    }
}

/// The conversion into the kind that a link brings: from texts for the message
/// variant, from the sibling's kind for a chainable link.
pub open spec fn kind_from_impl(link: LinkView) -> Option<FromImplView> {
    match link.link_type {
        LinkTypeView::Msg => Some(FromImplView::Message(link.variant_ident)),
        LinkTypeView::Chainable(_, kind) => Some(FromImplView::Kind(link.variant_ident, kind)),
        _ => None,
    }
}

/// Whether a type is written as the bare name of one of the enum's own type
/// parameters.
pub open spec fn is_own_parameter(ty: TypeExprView, generics: Seq<Seq<char>>) -> bool {
    ty.path matches Some(path) && !path.global && path.segments.len() == 1 && generics.contains(
        path.segments[0].ident,
    )
}

/// The conversion into the error that a link brings: from texts for the message
/// variant, from the sibling's error for a chainable link, from the foreign error
/// for a foreign link. A foreign link whose type is one of the enum's own type
/// parameters brings none: it would clash with the other conversions once the
/// parameter is filled in.
pub open spec fn error_from_impl(link: LinkView, generics: Seq<Seq<char>>) -> Option<
    FromImplView,
> {
    match link.link_type {
        LinkTypeView::Msg => Some(FromImplView::Message(link.variant_ident)),
        LinkTypeView::Chainable(error, _) => Some(FromImplView::Sibling(link.variant_ident, error)),
        LinkTypeView::Foreign(ty) => if is_own_parameter(ty, generics) {
            None
        } else {
            Some(FromImplView::Foreign(link.variant_ident, ty))
        },
        LinkTypeView::Custom => None,
    }
}

/// The error type in which a backtrace is looked for on behalf of a link: the
/// sibling's error, for a chainable link.
pub open spec fn backtrace_case(link: LinkView) -> Option<TypeExprView> {
    match link.link_type {
        LinkTypeView::Chainable(error, _) => Some(error),
        _ => None,
    }
}

fn call(callee: &Expression, args: Vec<String>) -> (r: Body)
    ensures
        r.deep_view() == call_of(callee.deep_view(), args.deep_view()),
{
    if callee.is_closure {
        Body::Closure(Call { callee: callee.duplicate(), args })
    } else {
        Body::Function(Call { callee: callee.duplicate(), args })
    }
}

fn display_call(callee: &Expression, args: Vec<String>) -> (r: Body)
    ensures
        r.deep_view() == display_call_of(callee.deep_view(), args.deep_view()),
{
    if callee.is_closure {
        Body::Closure(Call { callee: callee.duplicate(), args })
    } else {
        let mut all: Vec<String> = Vec::new();
        all.push(String::from_str("f"));
        assert(all.deep_view() =~= seq!["f"@]);
        let ghost first = all;
        let mut rest = args;
        all.append(&mut rest);
        assert(all.deep_view() =~= first.deep_view() + args.deep_view());
        Body::Function(Call { callee: callee.duplicate(), args: all })
    }
}

fn display_call_one(callee: &Expression, name: &str) -> (r: Body)
    ensures
        r.deep_view() == display_call_of(callee.deep_view(), seq![name@]),
{
    let mut args: Vec<String> = Vec::new();
    args.push(String::from_str(name));
    assert(args.deep_view() =~= seq![name@]);
    display_call(callee, args)
}

fn call_one(callee: &Expression, name: &str) -> (r: Body)
    ensures
        r.deep_view() == call_of(callee.deep_view(), seq![name@]),
{
    let mut args: Vec<String> = Vec::new();
    args.push(String::from_str(name));
    assert(args.deep_view() =~= seq![name@]);
    call(callee, args)
}

/// Tells whether a type is written as the bare name of one of the enum's own
/// type parameters.
pub fn own_parameter(ty: &TypeExpr, generics: &Vec<String>) -> (r: bool)
    ensures
        r == is_own_parameter(ty.deep_view(), generics.deep_view()),
{
    match &ty.path {
        Some(path) => {
            if path.global || path.segments.len() != 1 {
                return false;
            }
            assert(path.segments.deep_view()[0] == path.segments@[0].deep_view());
            contains(generics, path.segments[0].ident.as_str())
        },
        None => false,
    }
}

impl Link {
    /// The arm of `description` for this link.
    pub fn error_kind_description(&self) -> (r: Case)
        ensures
            r.deep_view() == description_case(self.deep_view()),
    {
        let variant = copy(&self.variant_ident);
        match &self.link_type {
            LinkType::Msg => Case {
                variant,
                pattern: Pattern::one("s"),
                body: Body::Held(String::from_str("s")),
            },
            LinkType::Custom => match &self.custom_description {
                Some(CustomFormatter::FormatString { format_string, .. }) => Case {
                    variant,
                    pattern: fields_pattern_ignore(&self.variant_fields),
                    body: Body::Literal(copy(format_string)),
                },
                Some(CustomFormatter::Expr(callee)) => Case {
                    variant,
                    pattern: fields_pattern(&self.variant_fields),
                    body: call(callee, args(&self.variant_fields)),
                },
                None => Case {
                    variant,
                    pattern: fields_pattern_ignore(&self.variant_fields),
                    body: Body::VariantName,
                },
            },
            _ => match &self.custom_description {
                Some(CustomFormatter::FormatString { format_string, .. }) => Case {
                    variant,
                    pattern: Pattern::skip_one(),
                    body: Body::Literal(copy(format_string)),
                },
                Some(CustomFormatter::Expr(callee)) => Case {
                    variant,
                    pattern: Pattern::one("err"),
                    body: call_one(callee, "err"),
                },
                None => match &self.link_type {
                    LinkType::Chainable(_, _) => Case {
                        variant,
                        pattern: Pattern::one("kind"),
                        body: Body::KindDescription(String::from_str("kind")),
                    },
                    _ => Case {
                        variant,
                        pattern: Pattern::one("err"),
                        body: Body::ErrorDescription(String::from_str("err")),
                    },
                },
            },
        }
    }

    fn held(&self) -> (r: &'static str)
        ensures
            r@ == held_name(self.link_type.deep_view()),
    {
        match &self.link_type {
            LinkType::Msg => "s",
            LinkType::Chainable(_, _) => "kind",
            _ => "err",
        }
    }

    /// The arm of `Display` for this link.
    pub fn error_kind_display_case(&self) -> (r: Case)
        ensures
            r.deep_view() == display_case(self.deep_view()),
    {
        let variant = copy(&self.variant_ident);
        let name = self.held();
        let custom = match &self.link_type {
            LinkType::Custom => true,
            _ => false,
        };
        match &self.link_type {
            LinkType::Msg => Case {
                variant,
                pattern: Pattern::one(name),
                body: Body::Display(String::from_str(name)),
            },
            _ => match &self.custom_display {
                Some(CustomFormatter::FormatString { format_string, pattern, args }) => Case {
                    variant,
                    pattern: pattern.duplicate(),
                    body: Body::Write(copy(format_string), copy_arguments(args)),
                },
                Some(CustomFormatter::Expr(callee)) => if custom {
                    Case {
                        variant,
                        pattern: fields_pattern(&self.variant_fields),
                        body: display_call(callee, args(&self.variant_fields)),
                    }
                } else {
                    Case { variant, pattern: Pattern::one(name), body: display_call_one(callee, name) }
                },
                None => if custom {
                    Case {
                        variant,
                        pattern: fields_pattern_ignore(&self.variant_fields),
                        body: Body::DisplayDescription,
                    }
                } else {
                    Case {
                        variant,
                        pattern: Pattern::one(name),
                        body: Body::Display(String::from_str(name)),
                    }
                },
            },
        }
    }

    /// The conversion into the kind that this link brings.
    pub fn error_kind_from_impl(&self) -> (r: Option<FromImpl>)
        ensures
            r.deep_view() == kind_from_impl(self.deep_view()),
    {
        match &self.link_type {
            LinkType::Msg => Some(FromImpl::Message(copy(&self.variant_ident))),
            LinkType::Chainable(_, kind) => Some(
                FromImpl::Kind(copy(&self.variant_ident), kind.duplicate()),
            ),
            _ => None,
        }
    }

    /// The arm of `cause` for this link, where it has one.
    pub fn error_cause_case(&self) -> (r: Option<Case>)
        ensures
            r.deep_view() == cause_case(self.deep_view()),
    {
        let variant = copy(&self.variant_ident);
        match &self.link_type {
            LinkType::Msg => None,
            _ => match &self.custom_cause {
                Some(callee) => Some(
                    Case {
                        variant,
                        pattern: fields_pattern(&self.variant_fields),
                        body: call(callee, args(&self.variant_fields)),
                    },
                ),
                None => match &self.link_type {
                    LinkType::Foreign(_) => Some(
                        Case {
                            variant,
                            pattern: Pattern::one("err"),
                            body: Body::ErrorCause(String::from_str("err")),
                        },
                    ),
                    _ => None,
                },
            },
        }
    }

    /// The conversion into the error that this link brings. `generics` are the
    /// names of the enum's type parameters.
    pub fn error_from_impl(&self, generics: &Vec<String>) -> (r: Option<FromImpl>)
        ensures
            r.deep_view() == error_from_impl(self.deep_view(), generics.deep_view()),
    {
        match &self.link_type {
            LinkType::Msg => Some(FromImpl::Message(copy(&self.variant_ident))),
            LinkType::Chainable(error, _) => Some(
                FromImpl::Sibling(copy(&self.variant_ident), error.duplicate()),
            ),
            LinkType::Foreign(ty) => {
                if own_parameter(ty, generics) {
                    None
                } else {
                    Some(FromImpl::Foreign(copy(&self.variant_ident), ty.duplicate()))
                }
            },
            LinkType::Custom => None,
        }
    }

    /// The error type in which a backtrace is looked for on behalf of this link.
    pub fn chained_error_extract_backtrace_case(&self) -> (r: Option<TypeExpr>)
        ensures
            r.deep_view() == backtrace_case(self.deep_view()),
    {
        match &self.link_type {
            LinkType::Chainable(error, _) => Some(error.duplicate()),
            _ => None,
        }
    }
}

} // verus!

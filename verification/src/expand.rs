//! The expansion as a whole: every item that the derive declares beside the
//! enum, described by what varies from one enum to the next.

use vstd::prelude::*;
use vstd::string::StringExecFns;
use crate::annotation::{top_level, TopLevelProperties, TopLevelPropertiesView};
use crate::emit::{
    backtrace_case, cause_case, description_case, display_case, error_from_impl, kind_from_impl,
};
use crate::error::ExpansionError;
use crate::link::{classify, Link, LinkView};
use crate::plan::{Case, CaseView, FromImpl, FromImplView};
use crate::syntax::{
    lemma_pushed, result_view, Body, Declaration, GenericParam, GenericParamView, Generics,
    ParamKind, TypeExpr, TypeExprView, Variant,
};
use crate::text::{added, contains, copy, lemma_added};

verus! {

/// The lifetime that the conversions from `&str` bring with them.
pub open spec fn text_lifetime() -> GenericParamView {
    GenericParamView { kind: ParamKind::Lifetime, ident: "'__a"@, tokens: "'__a"@ }
}

/// The type parameter that stands for the success value of a result.
pub open spec fn value_parameter() -> GenericParamView {
    GenericParamView { kind: ParamKind::Type, ident: "__T"@, tokens: "__T"@ }
}

/// The type parameter that stands for the error of a result that is chained: a
/// standard error that can be sent to another thread and borrows nothing.
pub open spec fn error_parameter() -> GenericParamView {
    GenericParamView {
        kind: ParamKind::Type,
        ident: "__E"@,
        tokens: "__E: ::std::error::Error + ::std::marker::Send + 'static"@,
    }
}

/// The names of the type parameters among the first `count` parameters, each
/// once.
pub open spec fn type_names(params: Seq<GenericParamView>, count: nat) -> Seq<Seq<char>>
    decreases count,
{
    if count == 0 || count > params.len() {
        Seq::empty()
    } else {
        let before = type_names(params, (count - 1) as nat);
        if params[count - 1].kind == ParamKind::Type {
            added(before, params[count - 1].ident)
        } else {
            before
        }
    }
}

/// The conversions into the kind that the first `count` links bring.
pub open spec fn kind_from_impls(links: Seq<LinkView>, count: nat) -> Seq<FromImplView>
    decreases count,
{
    if count == 0 || count > links.len() {
        Seq::empty()
    } else {
        let before = kind_from_impls(links, (count - 1) as nat);
        match kind_from_impl(links[count - 1]) {
            Some(conversion) => before.push(conversion),
            None => before,
        }
    }
}

/// The arms of `cause` that the first `count` links bring.
pub open spec fn cause_cases(links: Seq<LinkView>, count: nat) -> Seq<CaseView>
    decreases count,
{
    if count == 0 || count > links.len() {
        Seq::empty()
    } else {
        let before = cause_cases(links, (count - 1) as nat);
        match cause_case(links[count - 1]) {
            Some(case) => before.push(case),
            None => before,
        }
    }
}

/// The conversions into the error that the first `count` links bring.
pub open spec fn error_from_impls(links: Seq<LinkView>, generics: Seq<Seq<char>>, count: nat)
    -> Seq<FromImplView>
    decreases count,
{
    if count == 0 || count > links.len() {
        Seq::empty()
    } else {
        let before = error_from_impls(links, generics, (count - 1) as nat);
        match error_from_impl(links[count - 1], generics) {
            Some(conversion) => before.push(conversion),
            None => before,
        }
    }
}

/// The error types in which a backtrace is looked for on behalf of the first
/// `count` links.
pub open spec fn backtrace_cases(links: Seq<LinkView>, count: nat) -> Seq<TypeExprView>
    decreases count,
{
    if count == 0 || count > links.len() {
        Seq::empty()
    } else {
        let before = backtrace_cases(links, (count - 1) as nat);
        match backtrace_case(links[count - 1]) {
            Some(error) => before.push(error),
            None => before,
        }
    }
}

/// The documentation of the error type.
pub open spec fn error_doc(error_kind_name: Seq<char>) -> Seq<char> {
    "The Error type.\n\nThis struct is made of three things:\n\n- `"@ + error_kind_name
        + "` which is used to determine the type of the error.\n- a backtrace, generated when the error is created.\n- an error chain, used for the implementation of `Error::cause()`."@
}

/// The documentation of `chain_err`.
pub open spec fn chain_err_doc(error_kind_name: Seq<char>) -> Seq<char> {
    "If the `Result` is an `Err` then `chain_err` evaluates the closure, which returns *some type that can be converted to `"@
        + error_kind_name
        + "`*, boxes the original error to store as the cause, then returns a new error containing the original error."@
}

/// Everything that varies in what the derive declares.
///
/// Declared in any case: `description` on the kind and its `Display`; the
/// conversion from the error back into its kind; the error, a tuple of the kind
/// and the chain state, with its constructors, its accessors and `chain_err`;
/// the error's standard-error impl, whose `description` is the kind's and whose
/// `cause` is the state's next error where there is one and else what the arms
/// say; the error's `Display`, which is the kind's; the conversion from the kind
/// into the error; the chained-error impl; the extension trait with its impls
/// for results and options.
#[derive(Debug, PartialEq, Eq)]
pub struct Expansion {
    pub properties: TopLevelProperties,
    /// The enum's own generic parameters, which every item carries.
    pub params: Vec<GenericParam>,
    pub where_clause: Option<String>,
    /// The parameters of the conversions from `&str`: a lifetime first.
    pub lifetime_params: Vec<GenericParam>,
    /// The parameters of the result alias and of the extension trait: the type
    /// of the success value last.
    pub result_params: Vec<GenericParam>,
    /// The parameters of the extension trait's impl for results: the types of
    /// the success value and of the error last.
    pub result_ext_params: Vec<GenericParam>,
    pub error_kind_description_cases: Vec<Case>,
    pub error_kind_display_cases: Vec<Case>,
    pub error_kind_from_impls: Vec<FromImpl>,
    pub error_cause_cases: Vec<Case>,
    pub error_from_impls: Vec<FromImpl>,
    /// The error types, beside the error itself, in which a backtrace is looked
    /// for; `None` where backtraces are switched off.
    pub extract_backtrace: Option<Vec<TypeExpr>>,
    pub error_doc_comment: String,
    pub result_ext_chain_err_doc_comment: String,
}

pub struct ExpansionView {
    pub properties: TopLevelPropertiesView,
    pub params: Seq<GenericParamView>,
    pub where_clause: Option<Seq<char>>,
    pub lifetime_params: Seq<GenericParamView>,
    pub result_params: Seq<GenericParamView>,
    pub result_ext_params: Seq<GenericParamView>,
    pub error_kind_description_cases: Seq<CaseView>,
    pub error_kind_display_cases: Seq<CaseView>,
    pub error_kind_from_impls: Seq<FromImplView>,
    pub error_cause_cases: Seq<CaseView>,
    pub error_from_impls: Seq<FromImplView>,
    pub extract_backtrace: Option<Seq<TypeExprView>>,
    pub error_doc_comment: Seq<char>,
    pub result_ext_chain_err_doc_comment: Seq<char>,
}

impl DeepView for Expansion {
    type V = ExpansionView;

    open spec fn deep_view(&self) -> ExpansionView {
        ExpansionView {
            properties: self.properties.deep_view(),
            params: self.params.deep_view(),
            where_clause: self.where_clause.deep_view(),
            lifetime_params: self.lifetime_params.deep_view(),
            result_params: self.result_params.deep_view(),
            result_ext_params: self.result_ext_params.deep_view(),
            error_kind_description_cases: self.error_kind_description_cases.deep_view(),
            error_kind_display_cases: self.error_kind_display_cases.deep_view(),
            error_kind_from_impls: self.error_kind_from_impls.deep_view(),
            error_cause_cases: self.error_cause_cases.deep_view(),
            error_from_impls: self.error_from_impls.deep_view(),
            extract_backtrace: self.extract_backtrace.deep_view(),
            error_doc_comment: self.error_doc_comment@,
            result_ext_chain_err_doc_comment: self.result_ext_chain_err_doc_comment@,
        }
    }
}

/// The expansion for given properties, generics and links. Every link has its
/// arm in `description` and in `Display`, in the order of the variants.
pub open spec fn assembled(
    properties: TopLevelPropertiesView,
    params: Seq<GenericParamView>,
    where_clause: Option<Seq<char>>,
    links: Seq<LinkView>,
) -> ExpansionView {
    ExpansionView {
        properties,
        params,
        where_clause,
        lifetime_params: seq![text_lifetime()] + params,
        result_params: params.push(value_parameter()),
        result_ext_params: params.push(value_parameter()).push(error_parameter()),
        error_kind_description_cases: Seq::new(links.len(), |i: int| description_case(links[i])),
        error_kind_display_cases: Seq::new(links.len(), |i: int| display_case(links[i])),
        error_kind_from_impls: kind_from_impls(links, links.len()),
        error_cause_cases: cause_cases(links, links.len()),
        error_from_impls: error_from_impls(links, type_names(params, params.len()), links.len()),
        extract_backtrace: if properties.support_backtrace {
            Some(backtrace_cases(links, links.len()))
        } else {
            None
        },
        error_doc_comment: error_doc(properties.error_kind_name),
        result_ext_chain_err_doc_comment: chain_err_doc(properties.error_kind_name),
    }
}

/// The links of the variants from index `from` on, after those in `links`; the
/// first variant that cannot be classified ends it with its complaint.
pub open spec fn links_of(variants: Seq<Variant>, from: int, links: Seq<LinkView>) -> Result<
    Seq<LinkView>,
    Seq<char>,
>
    decreases variants.len() - from,
{
    if 0 <= from < variants.len() {
        match classify(variants[from]) {
            Ok(link) => links_of(variants, from + 1, links.push(link)),
            Err(complaint) => Err(complaint),
        }
    } else {
        Ok(links)
    }
}

/// The complaint about a derive on something that is no enum.
pub open spec fn not_an_enum() -> Seq<char> {
    "#[derive(ErrorChain] can only be used with enums."@
}

/// The expansion of a declaration, or why there is none. The enum's attributes
/// are read first, then the variants in order.
pub open spec fn expansion(ast: Declaration) -> Result<ExpansionView, Seq<char>> {
    match top_level(ast) {
        Err(complaint) => Err(complaint),
        Ok(properties) => match ast.body {
            Body::Enum(variants) => match links_of(variants@, 0, Seq::empty()) {
                Err(complaint) => Err(complaint),
                Ok(links) => Ok(
                    assembled(
                        properties,
                        ast.generics.params.deep_view(),
                        ast.generics.where_clause.deep_view(),
                        links,
                    ),
                ),
            },
            _ => Err(not_an_enum()),
        },
    }
}

impl GenericParam {
    /// A copy of the parameter.
    pub fn duplicate(&self) -> (r: GenericParam)
        ensures
            r.deep_view() == self.deep_view(),
    {
        GenericParam { kind: self.kind, ident: copy(&self.ident), tokens: copy(&self.tokens) }
    }
}

/// The parameters, with those of `first` before them and those of `last` after
/// them.
pub fn extended(first: Vec<GenericParam>, params: &Vec<GenericParam>, last: Vec<GenericParam>) -> (r:
    Vec<GenericParam>)
    ensures
        r.deep_view() == first.deep_view() + params.deep_view() + last.deep_view(),
{
    let mut out = first;
    let mut i: usize = 0;
    assert(out.deep_view() =~= first.deep_view() + params.deep_view().take(0));
    while i < params.len()
        invariant
            i <= params.len(),
            out.deep_view() == first.deep_view() + params.deep_view().take(i as int),
        decreases params.len() - i,
    {
        let ghost before = out;
        let param = params[i].duplicate();
        out.push(param);
        proof {
            lemma_pushed(before, out, param);
        }
        i += 1;
        assert(out.deep_view() =~= first.deep_view() + params.deep_view().take(i as int));
    }
    assert(params.deep_view().take(params.len() as int) =~= params.deep_view());
    let ghost middle = out;
    let mut last = last;
    let ghost tail = last;
    out.append(&mut last);
    assert(out.deep_view() =~= middle.deep_view() + tail.deep_view());
    out
}

/// The names of the type parameters among the parameters, each once.
pub fn type_parameters(params: &Vec<GenericParam>) -> (r: Vec<String>)
    ensures
        r.deep_view() == type_names(params.deep_view(), params.deep_view().len()),
        r.deep_view().no_duplicates(),
{
    let mut names: Vec<String> = Vec::new();
    let mut i: usize = 0;
    assert(names.deep_view() =~= Seq::empty());
    while i < params.len()
        invariant
            i <= params.len(),
            names.deep_view().no_duplicates(),
            names.deep_view() == type_names(params.deep_view(), i as nat),
        decreases params.len() - i,
    {
        match params[i].kind {
            ParamKind::Type => {
                proof {
                    lemma_added(names.deep_view(), params[i as int].ident@);
                }
                if !contains(&names, params[i].ident.as_str()) {
                    let ghost before = names;
                    let name = copy(&params[i].ident);
                    names.push(name);
                    proof {
                        lemma_pushed(before, names, name);
                    }
                }
            },
            _ => {},
        }
        i += 1;
    }
    names
}

fn lifetime_parameter() -> (r: Vec<GenericParam>)
    ensures
        r.deep_view() == seq![text_lifetime()],
{
    let mut out: Vec<GenericParam> = Vec::new();
    out.push(
        GenericParam {
            kind: ParamKind::Lifetime,
            ident: String::from_str("'__a"),
            tokens: String::from_str("'__a"),
        },
    );
    assert(out.deep_view() =~= seq![text_lifetime()]);
    out
}

fn result_parameters(with_error: bool) -> (r: Vec<GenericParam>)
    ensures
        r.deep_view() == if with_error {
            seq![value_parameter(), error_parameter()]
        } else {
            seq![value_parameter()]
        },
{
    let mut out: Vec<GenericParam> = Vec::new();
    out.push(
        GenericParam {
            kind: ParamKind::Type,
            ident: String::from_str("__T"),
            tokens: String::from_str("__T"),
        },
    );
    assert(out.deep_view() =~= seq![value_parameter()]);
    if with_error {
        out.push(
            GenericParam {
                kind: ParamKind::Type,
                ident: String::from_str("__E"),
                tokens: String::from_str(
                    "__E: ::std::error::Error + ::std::marker::Send + 'static",
                ),
            },
        );
        assert(out.deep_view() =~= seq![value_parameter(), error_parameter()]);
    }
    out
}

/// Puts the expansion together from the properties, the generics and the links.
pub fn assemble(properties: TopLevelProperties, generics: Generics, links: &Vec<Link>) -> (r:
    Expansion)
    ensures
        r.deep_view() == assembled(
            properties.deep_view(),
            generics.params.deep_view(),
            generics.where_clause.deep_view(),
            links.deep_view(),
        ),
{
    let names = type_parameters(&generics.params);
    let mut description_cases: Vec<Case> = Vec::new();
    let mut display_cases: Vec<Case> = Vec::new();
    let mut kind_conversions: Vec<FromImpl> = Vec::new();
    let mut causes: Vec<Case> = Vec::new();
    let mut error_conversions: Vec<FromImpl> = Vec::new();
    let mut backtraces: Vec<TypeExpr> = Vec::new();
    let mut i: usize = 0;
    assert(description_cases.deep_view() =~= Seq::new(
        0,
        |j: int| description_case(links.deep_view()[j]),
    ));
    assert(display_cases.deep_view() =~= Seq::new(0, |j: int| display_case(links.deep_view()[j])));
    assert(kind_conversions.deep_view() =~= Seq::empty());
    assert(causes.deep_view() =~= Seq::empty());
    assert(error_conversions.deep_view() =~= Seq::empty());
    assert(backtraces.deep_view() =~= Seq::empty());
    while i < links.len()
        invariant
            i <= links.len(),
            description_cases.deep_view() == Seq::new(
                i as nat,
                |j: int| description_case(links.deep_view()[j]),
            ),
            display_cases.deep_view() == Seq::new(
                i as nat,
                |j: int| display_case(links.deep_view()[j]),
            ),
            kind_conversions.deep_view() == kind_from_impls(links.deep_view(), i as nat),
            causes.deep_view() == cause_cases(links.deep_view(), i as nat),
            error_conversions.deep_view() == error_from_impls(
                links.deep_view(),
                names.deep_view(),
                i as nat,
            ),
            backtraces.deep_view() == backtrace_cases(links.deep_view(), i as nat),
        decreases links.len() - i,
    {
        let link = &links[i];
        assert(links.deep_view()[i as int] == link.deep_view());
        let ghost described = description_cases;
        let ghost displayed = display_cases;
        let description = link.error_kind_description();
        let display = link.error_kind_display_case();
        description_cases.push(description);
        display_cases.push(display);
        proof {
            lemma_pushed(described, description_cases, description);
            lemma_pushed(displayed, display_cases, display);
        }
        match link.error_kind_from_impl() {
            Some(conversion) => {
                let ghost before = kind_conversions;
                kind_conversions.push(conversion);
                proof {
                    lemma_pushed(before, kind_conversions, conversion);
                }
            },
            None => {},
        }
        match link.error_cause_case() {
            Some(case) => {
                let ghost before = causes;
                causes.push(case);
                proof {
                    lemma_pushed(before, causes, case);
                }
            },
            None => {},
        }
        match link.error_from_impl(&names) {
            Some(conversion) => {
                let ghost before = error_conversions;
                error_conversions.push(conversion);
                proof {
                    lemma_pushed(before, error_conversions, conversion);
                }
            },
            None => {},
        }
        match link.chained_error_extract_backtrace_case() {
            Some(error) => {
                let ghost before = backtraces;
                backtraces.push(error);
                proof {
                    lemma_pushed(before, backtraces, error);
                }
            },
            None => {},
        }
        i += 1;
        assert(description_cases.deep_view() =~= Seq::new(
            i as nat,
            |j: int| description_case(links.deep_view()[j]),
        ));
        assert(display_cases.deep_view() =~= Seq::new(
            i as nat,
            |j: int| display_case(links.deep_view()[j]),
        ));
    }
    let lifetime_params = extended(lifetime_parameter(), &generics.params, Vec::new());
    let result_params = extended(Vec::new(), &generics.params, result_parameters(false));
    let result_ext_params = extended(Vec::new(), &generics.params, result_parameters(true));
    let error_doc_comment = String::from_str(
        "The Error type.\n\nThis struct is made of three things:\n\n- `",
    ).concat(properties.error_kind_name.as_str()).concat(
        "` which is used to determine the type of the error.\n- a backtrace, generated when the error is created.\n- an error chain, used for the implementation of `Error::cause()`.",
    );
    let result_ext_chain_err_doc_comment = String::from_str(
        "If the `Result` is an `Err` then `chain_err` evaluates the closure, which returns *some type that can be converted to `",
    ).concat(properties.error_kind_name.as_str()).concat(
        "`*, boxes the original error to store as the cause, then returns a new error containing the original error.",
    );
    let extract_backtrace = if properties.support_backtrace {
        Some(backtraces)
    } else {
        None
    };
    proof {
        let params = generics.params.deep_view();
        assert(lifetime_params.deep_view() =~= seq![text_lifetime()] + params);
        assert(result_params.deep_view() =~= params.push(value_parameter()));
        assert(result_ext_params.deep_view() =~= params.push(value_parameter()).push(
            error_parameter(),
        ));
    }
    let Generics { params, where_clause } = generics;
    Expansion {
        properties,
        params,
        where_clause,
        lifetime_params,
        result_params,
        result_ext_params,
        error_kind_description_cases: description_cases,
        error_kind_display_cases: display_cases,
        error_kind_from_impls: kind_conversions,
        error_cause_cases: causes,
        error_from_impls: error_conversions,
        extract_backtrace,
        error_doc_comment,
        result_ext_chain_err_doc_comment,
    }
}

/// Classifies the variants in order.
pub fn links(variants: Vec<Variant>) -> (r: Result<Vec<Link>, ExpansionError>)
    ensures
        result_view(r) == links_of(variants@, 0, Seq::empty()),
{
    let mut rest = variants;
    let mut out: Vec<Link> = Vec::new();
    let ghost mut done: int = 0;
    assert(out.deep_view() =~= Seq::empty());
    assert(rest@ =~= variants@.skip(0));
    while rest.len() > 0
        invariant
            0 <= done <= variants.len(),
            rest@ == variants@.skip(done),
            links_of(variants@, done, out.deep_view()) == links_of(variants@, 0, Seq::empty()),
        decreases rest.len(),
    {
        let ghost remaining = rest@;
        let variant = rest.remove(0);
        assert(variant == variants@[done]);
        assert(rest@ =~= variants@.skip(done + 1));
        match Link::from(variant) {
            Ok(link) => {
                let ghost before = out;
                out.push(link);
                proof {
                    lemma_pushed(before, out, link);
                    done = done + 1;
                }
            },
            Err(complaint) => {
                return Err(complaint);
            },
        }
    }
    Ok(out)
}

/// Expands the declaration of an error kind: for an enum whose attributes and
/// variants can all be read, the description of every item to declare beside it;
/// else the complaint about the first thing that cannot be read. Nothing is
/// expanded in part.
pub fn derive_error_chain(ast: Declaration) -> (r: Result<Expansion, ExpansionError>)
    ensures
        result_view(r) == expansion(ast),
{
    let properties = match TopLevelProperties::from(&ast) {
        Ok(properties) => properties,
        Err(complaint) => {
            return Err(complaint);
        },
    };
    let Declaration { ident, vis, generics, attrs, body } = ast;
    match body {
        Body::Enum(variants) => match links(variants) {
            Ok(links) => Ok(assemble(properties, generics, &links)),
            Err(complaint) => Err(complaint),
        },
        _ => Err(
            ExpansionError::new(
                String::from_str("#[derive(ErrorChain] can only be used with enums."),
            ),
        ),
    }
}

} // verus!

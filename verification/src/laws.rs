//! What holds of every expansion: how the declared items behave for the links
//! of any enum that expands.

use vstd::prelude::*;
use crate::annotation::{is_error_chain, top_level};
use crate::chain::{
    arm_for, cause_of, chain_displays, chained, converts_sibling, converts_texts, description_of,
    display_of, displays_below, error_of_kind, error_of_sibling, extracted_backtrace,
    fresh_backtrace, kind_of_text, names_type, Backtrace,
    ErrorKindView, ErrorView, ForeignErrorView, ShownView, SiblingErrorView, SourceView,
};
use crate::emit::{cause_case, description_case, display_case};
use crate::escape::sound_escapes;
use crate::expand::{
    assembled, backtrace_cases, cause_cases, error_from_impls, expansion, kind_from_impls,
    links_of, type_names, ExpansionView,
};
use crate::format::{
    is_digit, names_in, no_parameters, nothing_in, numbers_fit, numbers_fit_from, parameter_names,
    parameter_positions, positions_in, starts_number, PieceView,
};
use crate::formatter::{format_binding, formatter_of, CustomFormatterView};
use crate::link::{
    classify, mark_attribute, mark_attributes, mark_item, mark_items, LinkTypeView, LinkView,
    MarksView,
};
use crate::outside::{expr_parse, format_parse, ident_parse, literal_parse};
use crate::plan::{CaseView, FromImplView, PatternView};
use crate::text::added;
use crate::syntax::{
    stream_text, Attribute, Body, Declaration, FieldsView, LiteralView, MetaItem, NamedFieldView,
    TokenTree, TypeExprView, Variant,
};

verus! {

/// No two variants share a name.
pub open spec fn distinct_names(variants: Seq<Variant>) -> bool {
    forall|i: int, j: int|
        0 <= i < j < variants.len() ==> (#[trigger] variants[i]).ident@ != (
        #[trigger] variants[j]).ident@
}

/// The variants of a declaration; none for what is no enum.
pub open spec fn variants_of(ast: Declaration) -> Seq<Variant> {
    match ast.body {
        Body::Enum(variants) => variants@,
        _ => Seq::empty(),
    }
}

spec fn unmarked_message(marks: MarksView) -> bool {
    !(marks.link_type matches Some(LinkTypeView::Msg))
}

proof fn lemma_mark_items(
    marks: MarksView,
    items: Seq<MetaItem>,
    from: int,
    variant: Seq<char>,
    fields: FieldsView,
)
    requires
        unmarked_message(marks),
        0 <= from,
    ensures
        mark_items(marks, items, from, variant, fields) matches Ok(after) ==> unmarked_message(
            after,
        ),
    decreases items.len() - from,
{
    if from < items.len() {
        match mark_item(marks, items[from], variant, fields) {
            Ok(next) => {
                lemma_mark_items(next, items, from + 1, variant, fields);
            },
            Err(_) => {},
        }
    }
}

proof fn lemma_mark_attributes(
    marks: MarksView,
    attrs: Seq<Attribute>,
    from: int,
    variant: Seq<char>,
    fields: FieldsView,
)
    requires
        unmarked_message(marks),
        0 <= from,
    ensures
        mark_attributes(marks, attrs, from, variant, fields) matches Ok(after)
            ==> unmarked_message(after),
    decreases attrs.len() - from,
{
    if from < attrs.len() {
        let attr = attrs[from];
        if is_error_chain(attr) {
            match attr.meta {
                Some(items) => {
                    lemma_mark_items(marks, items@, 0, variant, fields);
                },
                None => {},
            }
        }
        match mark_attribute(marks, attr, variant, fields) {
            Ok(next) => {
                lemma_mark_attributes(next, attrs, from + 1, variant, fields);
            },
            Err(_) => {},
        }
    }
}

/// A link carries its variant's name, and it is the message link exactly where
/// the variant is called `Msg`.
pub proof fn lemma_classified(variant: Variant)
    ensures
        classify(variant) matches Ok(link) ==> link.variant_ident == variant.ident@ && (
        link.link_type is Msg <==> variant.ident@ == "Msg"@),
{
    if variant.ident@ != "Msg"@ {
        lemma_mark_attributes(
            MarksView::none(),
            variant.attrs@,
            0,
            variant.ident@,
            variant.fields.deep_view(),
        );
    }
}

/// The kinds of link, told apart.
pub enum Marker {
    Chainable,
    Foreign,
    Custom,
}

/// The kind that a link is of; none for the message link.
pub open spec fn marker_of(link_type: LinkTypeView) -> Option<Marker> {
    match link_type {
        LinkTypeView::Msg => None,
        LinkTypeView::Chainable(_, _) => Some(Marker::Chainable),
        LinkTypeView::Foreign(_) => Some(Marker::Foreign),
        LinkTypeView::Custom => Some(Marker::Custom),
    }
}

/// The kind that an item of an attribute marks a variant as, where it marks it.
pub open spec fn item_marks(item: MetaItem) -> Option<Marker> {
    match item {
        MetaItem::Word(word) => if word@ == "foreign"@ {
            Some(Marker::Foreign)
        } else if word@ == "custom"@ {
            Some(Marker::Custom)
        } else {
            None
        },
        MetaItem::NameStr(key, _) => if key@ == "link"@ {
            Some(Marker::Chainable)
        } else {
            None
        },
        _ => None,
    }
}

/// Whether an attribute of this derive marks a variant as being of a kind: by an
/// item of its list, or by `link = ..` written as tokens.
pub open spec fn attribute_marks(attr: Attribute, marker: Marker) -> bool {
    is_error_chain(attr) && match attr.meta {
        Some(items) => exists|i: int|
            0 <= i < items@.len() && item_marks(#[trigger] items@[i]) == Some(marker),
        None => marker is Chainable && attr.tts@.len() > 0 && attr.tts@[0].inner().len() > 0
            && attr.tts@[0].inner()[0].text@ == "link"@,
    }
}

spec fn agree(before: MarksView, after: MarksView) -> bool {
    before.link_type matches Some(kind) ==> after.link_type matches Some(later) && marker_of(later)
        == marker_of(kind)
}

spec fn marked_as(marks: MarksView, marker: Marker) -> bool {
    marks.link_type matches Some(kind) && marker_of(kind) == Some(marker)
}

proof fn lemma_items_agree(
    marks: MarksView,
    items: Seq<MetaItem>,
    from: int,
    variant: Seq<char>,
    fields: FieldsView,
)
    requires
        0 <= from,
    ensures
        mark_items(marks, items, from, variant, fields) matches Ok(after) ==> agree(marks, after)
            && forall|i: int, marker: Marker|
            from <= i < items.len() && item_marks(#[trigger] items[i]) == Some(marker)
                ==> #[trigger] marked_as(after, marker),
    decreases items.len() - from,
{
    if from < items.len() {
        match mark_item(marks, items[from], variant, fields) {
            Ok(next) => {
                lemma_items_agree(next, items, from + 1, variant, fields);
            },
            Err(_) => {},
        }
    }
}

proof fn lemma_attributes_agree(
    marks: MarksView,
    attrs: Seq<Attribute>,
    from: int,
    variant: Seq<char>,
    fields: FieldsView,
)
    requires
        0 <= from,
    ensures
        mark_attributes(marks, attrs, from, variant, fields) matches Ok(after) ==> agree(
            marks,
            after,
        ) && forall|i: int, marker: Marker|
            from <= i < attrs.len() && #[trigger] attribute_marks(attrs[i], marker)
                ==> marked_as(after, marker),
    decreases attrs.len() - from,
{
    if from < attrs.len() {
        let attr = attrs[from];
        if is_error_chain(attr) {
            match attr.meta {
                Some(items) => {
                    lemma_items_agree(marks, items@, 0, variant, fields);
                },
                None => {},
            }
        }
        match mark_attribute(marks, attr, variant, fields) {
            Ok(next) => {
                lemma_attributes_agree(next, attrs, from + 1, variant, fields);
                assert forall|marker: Marker| #[trigger]
                    attribute_marks(attr, marker) implies marked_as(next, marker) by {
                    match attr.meta {
                        Some(items) => {
                            let i = choose|i: int|
                                0 <= i < items@.len() && item_marks(#[trigger] items@[i]) == Some(
                                    marker,
                                );
                            assert(marked_as(next, marker));
                        },
                        None => {},
                    }
                }
            },
            Err(_) => {},
        }
    }
}

/// A variant is of the one kind that its attributes mark it as: where an
/// attribute marks it as chainable, foreign or custom, its link is of that kind.
/// So a variant that is marked as two kinds has no link, and the expansion fails.
pub proof fn law_one_kind_of_mark(variant: Variant, at: int, marker: Marker)
    requires
        variant.ident@ != "Msg"@,
        0 <= at < variant.attrs@.len(),
        attribute_marks(variant.attrs@[at], marker),
    ensures
        classify(variant) matches Ok(link) ==> marker_of(link.link_type) == Some(marker),
{
    lemma_attributes_agree(
        MarksView::none(),
        variant.attrs@,
        0,
        variant.ident@,
        variant.fields.deep_view(),
    );
    if classify(variant) is Ok {
        let after = mark_attributes(
            MarksView::none(),
            variant.attrs@,
            0,
            variant.ident@,
            variant.fields.deep_view(),
        )->Ok_0;
        assert(marked_as(after, marker));
    }
}

/// A variant that two of its attributes mark as links of different kinds is
/// refused.
pub proof fn law_marks_exclude_each_other(
    variant: Variant,
    first: int,
    second: int,
    one: Marker,
    other: Marker,
)
    requires
        variant.ident@ != "Msg"@,
        0 <= first < variant.attrs@.len(),
        0 <= second < variant.attrs@.len(),
        attribute_marks(variant.attrs@[first], one),
        attribute_marks(variant.attrs@[second], other),
        one != other,
    ensures
        classify(variant) is Err,
{
    law_one_kind_of_mark(variant, first, one);
    law_one_kind_of_mark(variant, second, other);
}

/// Where the variants classify, there is one link for each, in their order.
pub proof fn lemma_links(
    variants: Seq<Variant>,
    from: int,
    before: Seq<LinkView>,
    links: Seq<LinkView>,
)
    requires
        0 <= from <= variants.len(),
        links_of(variants, from, before) == Ok::<Seq<LinkView>, Seq<char>>(links),
    ensures
        links.len() == before.len() + variants.len() - from,
        forall|j: int| 0 <= j < before.len() ==> links[j] == before[j],
        forall|k: int|
            from <= k < variants.len() ==> classify(#[trigger] variants[k]) == Ok::<
                LinkView,
                Seq<char>,
            >(links[before.len() + k - from]),
    decreases variants.len() - from,
{
    if from < variants.len() {
        let link = classify(variants[from])->Ok_0;
        lemma_links(variants, from + 1, before.push(link), links);
        assert(links[before.len() as int] == before.push(link)[before.len() as int]);
    }
}

/// What an expansion is made of.
pub proof fn lemma_expansion(ast: Declaration, plan: ExpansionView) -> (links: Seq<LinkView>)
    requires
        expansion(ast) == Ok::<ExpansionView, Seq<char>>(plan),
    ensures
        links.len() == variants_of(ast).len(),
        forall|k: int|
            0 <= k < links.len() ==> classify(#[trigger] variants_of(ast)[k]) == Ok::<
                LinkView,
                Seq<char>,
            >(links[k]),
        forall|k: int|
            0 <= k < links.len() ==> (#[trigger] links[k]).variant_ident == variants_of(
                ast,
            )[k].ident@,
        plan == assembled(
            plan.properties,
            ast.generics.params.deep_view(),
            ast.generics.where_clause.deep_view(),
            links,
        ),
{
    let variants = variants_of(ast);
    let links = links_of(variants, 0, Seq::empty())->Ok_0;
    lemma_links(variants, 0, Seq::empty(), links);
    assert forall|k: int| 0 <= k < links.len() implies (#[trigger] links[k]).variant_ident
        == variants[k].ident@ by {
        lemma_classified(variants[k]);
    }
    links
}

proof fn lemma_arm_found(cases: Seq<CaseView>, variant: Seq<char>, from: int, at: int)
    requires
        0 <= from <= at < cases.len(),
        cases[at].variant == variant,
        forall|k: int| from <= k < at ==> (#[trigger] cases[k]).variant != variant,
    ensures
        arm_for(cases, variant, from) == Some(cases[at]),
    decreases at - from,
{
    if from < at {
        lemma_arm_found(cases, variant, from + 1, at);
    }
}

proof fn lemma_arm_pushed(cases: Seq<CaseView>, last: CaseView, variant: Seq<char>, from: int)
    requires
        0 <= from <= cases.len(),
    ensures
        arm_for(cases.push(last), variant, from) == match arm_for(cases, variant, from) {
            Some(case) => Some(case),
            None => if last.variant == variant {
                Some(last)
            } else {
                None
            },
        },
    decreases cases.len() - from,
{
    if from < cases.len() {
        assert(cases.push(last)[from] == cases[from]);
        if cases[from].variant != variant {
            lemma_arm_pushed(cases, last, variant, from + 1);
        }
    } else {
        assert(cases.push(last)[from] == last);
        assert(arm_for(cases.push(last), variant, from + 1) is None);
        assert(arm_for(cases, variant, from) is None);
    }
}

proof fn lemma_cause_arm(links: Seq<LinkView>, count: nat, variant: Seq<char>, at: int)
    requires
        count <= links.len(),
        0 <= at < links.len(),
        links[at].variant_ident == variant,
        forall|k: int|
            0 <= k < links.len() && k != at ==> (#[trigger] links[k]).variant_ident != variant,
    ensures
        arm_for(cause_cases(links, count), variant, 0) == if at < count {
            cause_case(links[at])
        } else {
            None
        },
    decreases count,
{
    if count > 0 {
        lemma_cause_arm(links, (count - 1) as nat, variant, at);
        let before = cause_cases(links, (count - 1) as nat);
        match cause_case(links[count - 1]) {
            Some(case) => {
                lemma_arm_pushed(before, case, variant, 0);
            },
            None => {},
        }
    }
}

proof fn lemma_texts_convert(links: Seq<LinkView>, count: nat, at: int)
    requires
        0 <= at < count <= links.len(),
        links[at].link_type is Msg,
    ensures
        converts_texts(kind_from_impls(links, count)),
    decreases count,
{
    let before = kind_from_impls(links, (count - 1) as nat);
    let all = kind_from_impls(links, count);
    if at == count - 1 {
        assert(all[before.len() as int] is Message);
    } else {
        lemma_texts_convert(links, (count - 1) as nat, at);
        let i = choose|i: int| 0 <= i < before.len() && #[trigger] before[i] is Message;
        assert(all[i] == before[i]);
    }
}

proof fn lemma_sibling_converts(
    links: Seq<LinkView>,
    generics: Seq<Seq<char>>,
    count: nat,
    at: int,
)
    requires
        0 <= at < count <= links.len(),
        links[at].link_type is Chainable,
    ensures
        converts_sibling(error_from_impls(links, generics, count), links[at].variant_ident),
    decreases count,
{
    let before = error_from_impls(links, generics, (count - 1) as nat);
    let all = error_from_impls(links, generics, count);
    let variant = links[at].variant_ident;
    if at == count - 1 {
        assert(all[before.len() as int] matches FromImplView::Sibling(name, _) && name == variant);
    } else {
        lemma_sibling_converts(links, generics, (count - 1) as nat, at);
        let i = choose|i: int|
            0 <= i < before.len() && (#[trigger] before[i] matches FromImplView::Sibling(name, _)
                && name == variant);
        assert(all[i] == before[i]);
    }
}

/// The arms of a variant are those that its link gives: in `description`, in
/// `Display` and in `cause`, the first arm for the variant's name is the one of
/// its link. What a link of each kind does by default, and with each override,
/// can so be read off `description_case`, `display_case` and `cause_case`.
pub proof fn law_variant_arms(ast: Declaration, plan: ExpansionView, at: int) -> (link: LinkView)
    requires
        expansion(ast) == Ok::<ExpansionView, Seq<char>>(plan),
        distinct_names(variants_of(ast)),
        0 <= at < variants_of(ast).len(),
    ensures
        classify(variants_of(ast)[at]) == Ok::<LinkView, Seq<char>>(link),
        link.variant_ident == variants_of(ast)[at].ident@,
        arm_for(plan.error_kind_description_cases, link.variant_ident, 0) == Some(
            description_case(link),
        ),
        arm_for(plan.error_kind_display_cases, link.variant_ident, 0) == Some(display_case(link)),
        arm_for(plan.error_cause_cases, link.variant_ident, 0) == cause_case(link),
{
    let links = lemma_expansion(ast, plan);
    let variants = variants_of(ast);
    let link = links[at];
    let variant = link.variant_ident;
    assert forall|k: int| 0 <= k < links.len() && k != at implies (
    #[trigger] links[k]).variant_ident != variant by {
        if k < at {
            assert(variants[k].ident@ != variants[at].ident@);
        } else {
            assert(variants[at].ident@ != variants[k].ident@);
        }
    }
    lemma_arm_found(plan.error_kind_description_cases, variant, 0, at);
    lemma_arm_found(plan.error_kind_display_cases, variant, 0, at);
    lemma_cause_arm(links, links.len(), variant, at);
    link
}

/// A text that is converted into the kind and then wrapped is described by
/// that very text: where the enum has a message variant, texts convert into the
/// kind, and the description of the error made of the converted kind is the
/// text.
pub proof fn law_message_round_trip(
    ast: Declaration,
    plan: ExpansionView,
    at: int,
    text: Seq<char>,
    backtrace: Option<Backtrace>,
)
    requires
        expansion(ast) == Ok::<ExpansionView, Seq<char>>(plan),
        distinct_names(variants_of(ast)),
        0 <= at < variants_of(ast).len(),
        variants_of(ast)[at].ident@ == "Msg"@,
    ensures
        kind_of_text(plan, text) == Some(ErrorKindView::Msg(text)),
        description_of(plan, error_of_kind(ErrorKindView::Msg(text), backtrace).kind) == Some(
            ShownView::Text(text),
        ),
{
    let links = lemma_expansion(ast, plan);
    let link = law_variant_arms(ast, plan, at);
    lemma_classified(variants_of(ast)[at]);
    assert(links[at] == link);
    lemma_texts_convert(links, links.len(), at);
}

/// The error of a sibling hierarchy converts into the error through every
/// chainable link, and the converted error has the sibling's chain state as it
/// was: the errors that led to it and its backtrace.
pub proof fn law_sibling_state_kept(
    ast: Declaration,
    plan: ExpansionView,
    at: int,
    sibling: SiblingErrorView,
)
    requires
        expansion(ast) == Ok::<ExpansionView, Seq<char>>(plan),
        0 <= at < variants_of(ast).len(),
        classify(variants_of(ast)[at]) matches Ok(link) && link.link_type is Chainable,
    ensures
        error_of_sibling(plan, variants_of(ast)[at].ident@, sibling) matches Some(error)
            && error.state == sibling.state && error.kind.variant() == variants_of(
            ast,
        )[at].ident@,
{
    let links = lemma_expansion(ast, plan);
    lemma_sibling_converts(
        links,
        type_names(
            ast.generics.params.deep_view(),
            ast.generics.params.deep_view().len(),
        ),
        links.len(),
        at,
    );
}

proof fn lemma_sibling_named(links: Seq<LinkView>, count: nat, at: int)
    requires
        0 <= at < count <= links.len(),
        links[at].link_type is Chainable,
    ensures
        names_type(backtrace_cases(links, count), links[at].link_type->Chainable_0.tokens),
    decreases count,
{
    let before = backtrace_cases(links, (count - 1) as nat);
    let all = backtrace_cases(links, count);
    let error = links[at].link_type->Chainable_0.tokens;
    if at == count - 1 {
        assert(all[before.len() as int].tokens == error);
    } else {
        lemma_sibling_named(links, (count - 1) as nat, at);
        let i = choose|i: int| 0 <= i < before.len() && (#[trigger] before[i]).tokens == error;
        assert(all[i] == before[i]);
    }
}

/// Where backtraces are carried, an error that the error of a sibling hierarchy
/// led to takes over the sibling's backtrace, for every chainable link.
pub proof fn law_sibling_backtrace_taken_over(
    ast: Declaration,
    plan: ExpansionView,
    at: int,
    display: Seq<char>,
    backtrace: Option<Backtrace>,
)
    requires
        expansion(ast) == Ok::<ExpansionView, Seq<char>>(plan),
        plan.properties.support_backtrace,
        0 <= at < variants_of(ast).len(),
        classify(variants_of(ast)[at]) matches Ok(link) && link.link_type is Chainable,
    ensures
        extracted_backtrace(
            plan,
            SourceView::Sibling(
                classify(variants_of(ast)[at])->Ok_0.link_type->Chainable_0.tokens,
                display,
                backtrace,
            ),
        ) == backtrace,
{
    let links = lemma_expansion(ast, plan);
    lemma_sibling_named(links, links.len(), at);
}

/// The cause of an error that wraps a foreign error and that nothing led to is
/// the foreign error's own cause, for every foreign link without an override of
/// its cause.
pub proof fn law_foreign_cause(
    ast: Declaration,
    plan: ExpansionView,
    at: int,
    error: ForeignErrorView,
    backtrace: Option<Backtrace>,
)
    requires
        expansion(ast) == Ok::<ExpansionView, Seq<char>>(plan),
        distinct_names(variants_of(ast)),
        0 <= at < variants_of(ast).len(),
        classify(variants_of(ast)[at]) matches Ok(link) && link.link_type is Foreign
            && link.custom_cause is None,
    ensures
        cause_of(
            plan,
            error_of_kind(
                ErrorKindView::Foreign { variant: variants_of(ast)[at].ident@, error },
                backtrace,
            ),
        ) == match error.cause {
            Some(cause) => Some(SourceView::Leaf(cause)),
            None => None,
        },
{
    let link = law_variant_arms(ast, plan, at);
}

/// A chainable link without overrides hands on what the sibling kind that it
/// holds describes itself as and displays.
pub proof fn law_chainable_defaults(
    ast: Declaration,
    plan: ExpansionView,
    at: int,
    description: Seq<char>,
    display: Seq<char>,
)
    requires
        expansion(ast) == Ok::<ExpansionView, Seq<char>>(plan),
        distinct_names(variants_of(ast)),
        0 <= at < variants_of(ast).len(),
        classify(variants_of(ast)[at]) matches Ok(link) && link.link_type is Chainable
            && link.custom_description is None && link.custom_display is None,
    ensures
        description_of(
            plan,
            ErrorKindView::Chained { variant: variants_of(ast)[at].ident@, description, display },
        ) == Some(ShownView::Text(description)),
        display_of(
            plan,
            ErrorKindView::Chained { variant: variants_of(ast)[at].ident@, description, display },
        ) == Some(ShownView::Text(display)),
{
    let link = law_variant_arms(ast, plan, at);
}

/// A foreign link without overrides hands on what the foreign error that it
/// holds describes itself as and displays.
pub proof fn law_foreign_defaults(
    ast: Declaration,
    plan: ExpansionView,
    at: int,
    error: ForeignErrorView,
)
    requires
        expansion(ast) == Ok::<ExpansionView, Seq<char>>(plan),
        distinct_names(variants_of(ast)),
        0 <= at < variants_of(ast).len(),
        classify(variants_of(ast)[at]) matches Ok(link) && link.link_type is Foreign
            && link.custom_description is None && link.custom_display is None,
    ensures
        description_of(
            plan,
            ErrorKindView::Foreign { variant: variants_of(ast)[at].ident@, error },
        ) == Some(ShownView::Text(error.description)),
        display_of(plan, ErrorKindView::Foreign { variant: variants_of(ast)[at].ident@, error })
            == Some(ShownView::Text(error.display)),
{
    let link = law_variant_arms(ast, plan, at);
}

/// Where the declaration switches backtraces off, an error that the expanded
/// code makes has no backtrace, whatever the environment's switch says, and no
/// backtrace is looked for in other errors.
pub proof fn law_backtraces_switched_off(
    ast: Declaration,
    plan: ExpansionView,
    switch: Option<Seq<char>>,
    captured: Backtrace,
    kind: ErrorKindView,
)
    requires
        expansion(ast) == Ok::<ExpansionView, Seq<char>>(plan),
        top_level(ast) matches Ok(properties) && !properties.support_backtrace,
    ensures
        fresh_backtrace(plan, switch, captured) is None,
        error_of_kind(kind, fresh_backtrace(plan, switch, captured)).state.backtrace is None,
        plan.extract_backtrace is None,
{
    let links = lemma_expansion(ast, plan);
}

/// Where the declaration leaves backtraces on, an error that the expanded code
/// makes has the captured backtrace exactly where the environment's switch is
/// set to anything but `0`.
pub proof fn law_backtrace_gating(
    ast: Declaration,
    plan: ExpansionView,
    switch: Option<Seq<char>>,
    captured: Backtrace,
    kind: ErrorKindView,
)
    requires
        expansion(ast) == Ok::<ExpansionView, Seq<char>>(plan),
        top_level(ast) matches Ok(properties) && properties.support_backtrace,
    ensures
        error_of_kind(kind, fresh_backtrace(plan, switch, captured)).state.backtrace == if switch
            matches Some(value) && value != "0"@ {
            Some(captured)
        } else {
            None::<Backtrace>
        },
{
    let links = lemma_expansion(ast, plan);
}

/// A custom link without an override of its description is described by its
/// variant's name.
pub proof fn law_custom_description(ast: Declaration, plan: ExpansionView, at: int)
    requires
        expansion(ast) == Ok::<ExpansionView, Seq<char>>(plan),
        distinct_names(variants_of(ast)),
        0 <= at < variants_of(ast).len(),
        classify(variants_of(ast)[at]) matches Ok(link) && link.link_type is Custom
            && link.custom_description is None,
    ensures
        description_of(plan, ErrorKindView::Custom { variant: variants_of(ast)[at].ident@ })
            == Some(ShownView::Text(variants_of(ast)[at].ident@)),
{
    let link = law_variant_arms(ast, plan, at);
}

/// A custom link without an override of its display displays its description.
pub proof fn law_custom_display(ast: Declaration, plan: ExpansionView, at: int)
    requires
        expansion(ast) == Ok::<ExpansionView, Seq<char>>(plan),
        distinct_names(variants_of(ast)),
        0 <= at < variants_of(ast).len(),
        classify(variants_of(ast)[at]) matches Ok(link) && link.link_type is Custom
            && link.custom_display is None,
    ensures
        display_of(plan, ErrorKindView::Custom { variant: variants_of(ast)[at].ident@ })
            == description_of(plan, ErrorKindView::Custom { variant: variants_of(ast)[at].ident@ }),
{
    let link = law_variant_arms(ast, plan, at);
}

proof fn lemma_below_shifted(
    plan: ExpansionView,
    kind: ErrorKindView,
    first: SourceView,
    below: Seq<SourceView>,
    from: int,
)
    requires
        0 <= from <= below.len(),
    ensures
        displays_below(plan, kind, seq![first] + below, from + 1) == displays_below(
            plan,
            kind,
            below,
            from,
        ),
    decreases below.len() - from,
{
    let longer = seq![first] + below;
    if from < below.len() {
        assert(longer[from + 1] == below[from]);
        match below[from] {
            SourceView::Wrapped(next, _) => {
                lemma_below_shifted(plan, next, first, below, from + 1);
            },
            _ => {},
        }
    }
}

/// Walking the chain of an error that another error led to displays the new
/// error first and then what walking the chain of the other error displays:
/// nothing is lost, nothing is added.
pub proof fn law_chain_extension(
    plan: ExpansionView,
    error: ErrorView,
    kind: ErrorKindView,
    backtrace: Option<Backtrace>,
)
    ensures
        chain_displays(plan, chained(error, kind, backtrace)) == seq![display_of(plan, kind)]
            + chain_displays(plan, error),
{
    let first = SourceView::Wrapped(error.kind, error.state.backtrace);
    let below = error.state.next_errors;
    let longer = seq![first] + below;
    assert(longer[0] == first);
    lemma_below_shifted(plan, error.kind, first, below, 0);
    assert(displays_below(plan, kind, longer, 0) =~= chain_displays(plan, error));
}

proof fn lemma_names_refused(pieces: Seq<PieceView>, from: int, names: Seq<Seq<char>>, at: int)
    requires
        0 <= from <= at < pieces.len(),
        pieces[at] is Next || pieces[at] is Index,
    ensures
        names_in(pieces, from, names) is Err,
    decreases at - from,
{
    if from < at {
        match pieces[from] {
            PieceView::Text(_) => {
                lemma_names_refused(pieces, from + 1, names, at);
            },
            PieceView::Named(name) => {
                match ident_parse(name) {
                    Ok(ident) => {
                        lemma_names_refused(pieces, from + 1, added(names, ident), at);
                    },
                    Err(_) => {},
                }
            },
            _ => {},
        }
    }
}

proof fn lemma_positions_refused(pieces: Seq<PieceView>, from: int, positions: Set<usize>, at: int)
    requires
        0 <= from <= at < pieces.len(),
        pieces[at] is Next || pieces[at] is Named,
    ensures
        positions_in(pieces, from, positions) is Err,
    decreases at - from,
{
    if from < at {
        match pieces[from] {
            PieceView::Text(_) => {
                lemma_positions_refused(pieces, from + 1, positions, at);
            },
            PieceView::Index(index) => {
                lemma_positions_refused(pieces, from + 1, positions.insert(index), at);
            },
            _ => {},
        }
    }
}

proof fn lemma_any_refused(pieces: Seq<PieceView>, from: int, at: int)
    requires
        0 <= from <= at < pieces.len(),
        !(pieces[at] is Text),
    ensures
        nothing_in(pieces, from) is Err,
    decreases at - from,
{
    if from < at {
        match pieces[from] {
            PieceView::Text(_) => {
                lemma_any_refused(pieces, from + 1, at);
            },
            _ => {},
        }
    }
}

/// A template for a variant with named fields is refused where one of its
/// placeholders has no name: `{}` or `{0}`.
pub proof fn law_named_fields_refuse_positions(
    template: Seq<char>,
    fields: Seq<NamedFieldView>,
    at: int,
)
    requires
        0 <= at < format_parse(template).len(),
        format_parse(template)[at] is Next || format_parse(template)[at] is Index,
    ensures
        format_binding(template, FieldsView::Named(fields)) is Err,
{
    lemma_names_refused(format_parse(template), 0, Seq::empty(), at);
}

/// A template for a variant whose fields are a tuple is refused where one of its
/// placeholders has no position: `{name}` or `{}`.
pub proof fn law_tuple_fields_refuse_names(
    template: Seq<char>,
    fields: Seq<TypeExprView>,
    at: int,
)
    requires
        0 <= at < format_parse(template).len(),
        format_parse(template)[at] is Named || format_parse(template)[at] is Next,
    ensures
        format_binding(template, FieldsView::Unnamed(fields)) is Err,
{
    lemma_positions_refused(format_parse(template), 0, Set::empty(), at);
}

/// A template for a variant without fields is refused where it has any
/// placeholder at all.
pub proof fn law_no_fields_refuse_placeholders(template: Seq<char>, at: int)
    requires
        0 <= at < format_parse(template).len(),
        !(format_parse(template)[at] is Text),
    ensures
        format_binding(template, FieldsView::Unit) is Err,
{
    lemma_any_refused(format_parse(template), 0, at);
}

proof fn lemma_first_unnamed(pieces: Seq<PieceView>, from: int, names: Seq<Seq<char>>, at: int)
    requires
        0 <= from <= at < pieces.len(),
        pieces[at] is Next || pieces[at] is Index,
        forall|k: int|
            from <= k < at ==> (#[trigger] pieces[k]) is Text || (pieces[k] matches PieceView::Named(
                name,
            ) && ident_parse(name) is Ok),
    ensures
        names_in(pieces, from, names) == Err::<Seq<Seq<char>>, Seq<char>>(
            "expected named parameter but found "@ + pieces[at].quoted(),
        ),
    decreases at - from,
{
    if from < at {
        match pieces[from] {
            PieceView::Text(_) => {
                lemma_first_unnamed(pieces, from + 1, names, at);
            },
            PieceView::Named(name) => {
                lemma_first_unnamed(pieces, from + 1, added(names, ident_parse(name)->Ok_0), at);
            },
            _ => {},
        }
    }
}

proof fn lemma_first_unplaced(pieces: Seq<PieceView>, from: int, positions: Set<usize>, at: int)
    requires
        0 <= from <= at < pieces.len(),
        pieces[at] is Next || pieces[at] is Named,
        forall|k: int| from <= k < at ==> (#[trigger] pieces[k]) is Text || pieces[k] is Index,
    ensures
        positions_in(pieces, from, positions) == Err::<Set<usize>, Seq<char>>(
            "expected positional parameter but found "@ + pieces[at].quoted(),
        ),
    decreases at - from,
{
    if from < at {
        match pieces[from] {
            PieceView::Text(_) => {
                lemma_first_unplaced(pieces, from + 1, positions, at);
            },
            PieceView::Index(index) => {
                lemma_first_unplaced(pieces, from + 1, positions.insert(index), at);
            },
            _ => {},
        }
    }
}

proof fn lemma_first_placeholder(pieces: Seq<PieceView>, from: int, at: int)
    requires
        0 <= from <= at < pieces.len(),
        !(pieces[at] is Text),
        forall|k: int| from <= k < at ==> (#[trigger] pieces[k]) is Text,
    ensures
        nothing_in(pieces, from) == Err::<(), Seq<char>>(
            "expected no parameters but found "@ + pieces[at].quoted(),
        ),
    decreases at - from,
{
    if from < at {
        lemma_first_placeholder(pieces, from + 1, at);
    }
}

proof fn lemma_no_placeholder(pieces: Seq<PieceView>, from: int)
    requires
        0 <= from,
        forall|k: int| from <= k < pieces.len() ==> (#[trigger] pieces[k]) is Text,
    ensures
        nothing_in(pieces, from) == Ok::<(), Seq<char>>(()),
    decreases pieces.len() - from,
{
    if from < pieces.len() {
        lemma_no_placeholder(pieces, from + 1);
    }
}

/// What the complaint says about a template for named fields whose first
/// placeholder that is no name stands at index `at` of its pieces, where the
/// names before it are identifiers and no placeholder holds too large a number.
pub proof fn law_named_fields_complaint(template: Seq<char>, at: int)
    requires
        numbers_fit(template),
        0 <= at < format_parse(template).len(),
        format_parse(template)[at] is Next || format_parse(template)[at] is Index,
        forall|k: int|
            0 <= k < at ==> (#[trigger] format_parse(template)[k]) is Text || (format_parse(
                template,
            )[k] matches PieceView::Named(name) && ident_parse(name) is Ok),
    ensures
        parameter_names(template) == Err::<Seq<Seq<char>>, Seq<char>>(
            "expected named parameter but found "@ + format_parse(template)[at].quoted(),
        ),
{
    lemma_first_unnamed(format_parse(template), 0, Seq::empty(), at);
}

/// What the complaint says about a template for the fields of a tuple whose
/// first placeholder without a position stands at index `at` of its pieces, where
/// no placeholder holds too large a number.
pub proof fn law_tuple_fields_complaint(template: Seq<char>, at: int)
    requires
        numbers_fit(template),
        0 <= at < format_parse(template).len(),
        format_parse(template)[at] is Next || format_parse(template)[at] is Named,
        forall|k: int|
            0 <= k < at ==> (#[trigger] format_parse(template)[k]) is Text || format_parse(
                template,
            )[k] is Index,
    ensures
        parameter_positions(template) == Err::<Set<usize>, Seq<char>>(
            "expected positional parameter but found "@ + format_parse(template)[at].quoted(),
        ),
{
    lemma_first_unplaced(format_parse(template), 0, Set::empty(), at);
}

/// What the complaint says about a template for a variant without fields whose
/// first placeholder stands at index `at` of its pieces, where no placeholder
/// holds too large a number.
pub proof fn law_no_fields_complaint(template: Seq<char>, at: int)
    requires
        numbers_fit(template),
        0 <= at < format_parse(template).len(),
        !(format_parse(template)[at] is Text),
        forall|k: int| 0 <= k < at ==> (#[trigger] format_parse(template)[k]) is Text,
    ensures
        no_parameters(template) == Err::<(), Seq<char>>(
            "expected no parameters but found "@ + format_parse(template)[at].quoted(),
        ),
{
    lemma_first_placeholder(format_parse(template), 0, at);
}

/// A template without a placeholder is accepted for a variant without fields,
/// and bound as it stands.
pub proof fn law_plain_template_accepted(template: Seq<char>)
    requires
        numbers_fit(template),
        forall|k: int|
            0 <= k < format_parse(template).len() ==> (#[trigger] format_parse(template)[k]) is Text,
    ensures
        format_binding(template, FieldsView::Unit) == Ok::<CustomFormatterView, Seq<char>>(
            CustomFormatterView::FormatString {
                format_string: template,
                pattern: PatternView::Unit,
                args: Seq::empty(),
            },
        ),
{
    lemma_no_placeholder(format_parse(template), 0);
}

proof fn lemma_plain_text(text: Seq<char>, at: int)
    requires
        0 <= at,
        forall|i: int| 0 <= i < text.len() ==> text[i] != '{',
    ensures
        numbers_fit_from(text, at, false, None),
    decreases text.len() - at,
{
    if at < text.len() {
        if text[at] == '}' && at + 1 < text.len() && text[at + 1] == '}' {
            lemma_plain_text(text, at + 2);
        } else {
            lemma_plain_text(text, at + 1);
        }
    }
}

/// Digits outside placeholders are plain text, however many stand in a row: a
/// text without `{` holds no number that is too large.
pub proof fn law_plain_digits(text: Seq<char>)
    requires
        forall|i: int| 0 <= i < text.len() ==> text[i] != '{',
    ensures
        numbers_fit(text),
{
    lemma_plain_text(text, 0);
}

proof fn lemma_no_number(text: Seq<char>, at: int, inside: bool)
    requires
        0 <= at,
        forall|i: int| 1 <= i < text.len() && is_digit(text[i]) ==> !starts_number(text[i - 1]),
    ensures
        numbers_fit_from(text, at, inside, None),
    decreases text.len() - at,
{
    if at < text.len() {
        lemma_no_number(text, at + 1, true);
        lemma_no_number(text, at + 1, false);
        if at + 1 < text.len() {
            lemma_no_number(text, at + 2, false);
        }
    }
}

/// Digits that continue a name belong to the name: a text in which no digit
/// stands directly behind a character after which a number may start holds no
/// number, however many digits it has in a row.
pub proof fn law_digits_in_names(text: Seq<char>)
    requires
        forall|i: int| 1 <= i < text.len() && is_digit(text[i]) ==> !starts_number(text[i - 1]),
    ensures
        numbers_fit(text),
{
    lemma_no_number(text, 0, false);
}

/// An override written `const("template")` is refused where the template cannot
/// be bound to the variant's fields.
pub proof fn law_refused_template(
    trees: Seq<TokenTree>,
    from: int,
    attr_name: Seq<char>,
    variant: Seq<char>,
    fields: FieldsView,
    template: Seq<char>,
)
    requires
        0 <= from,
        trees.len() == from + 2,
        expr_parse(stream_text(trees, from)) is Err,
        trees[from].is_term("const"@),
        trees[from + 1].is_parenthesized(),
        sound_escapes(stream_text(trees[from + 1].inner(), 0)),
        literal_parse(stream_text(trees[from + 1].inner(), 0)) == Ok::<LiteralView, Seq<char>>(
            LiteralView::Str(template),
        ),
        format_binding(template, fields) is Err,
    ensures
        formatter_of(trees, from, attr_name, variant, fields) is Err,
{
}

} // verus!

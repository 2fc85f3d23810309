//! The classification of a variant: what kind of link it is, and which of its
//! description, display and cause the declaration overrides.

use vstd::prelude::*;
use vstd::string::StringExecFns;
use crate::annotation::{is_error_chain, is_error_chain_attribute};
use crate::error::ExpansionError;
use crate::formatter::{
    complaint, could_not_parse, formatter_of, CustomFormatter, CustomFormatterView,
};
use crate::outside::{expr_parse, parse_expr, parse_type, type_parse};
use crate::syntax::{
    result_view, stream_text, text_of, Attribute, Expression, ExpressionView, Fields, FieldsView,
    MetaItem, TokenKind, TokenTree, TypeExpr, TypeExprView, Variant,
};
use crate::text::same;

verus! {

/// The kind of a link.
#[derive(Debug, PartialEq, Eq)]
pub enum LinkType {
    /// The variant `Msg(String)`, which holds a bare message.
    Msg,
    /// A link to a sibling hierarchy: the sibling's error type, then the
    /// sibling's kind type, which the variant holds.
    Chainable(TypeExpr, TypeExpr),
    /// A link to an error type from elsewhere, which the variant holds.
    Foreign(TypeExpr),
    /// A variant of the enum's own, with whatever fields.
    Custom,
}

pub enum LinkTypeView {
    Msg,
    Chainable(TypeExprView, TypeExprView),
    Foreign(TypeExprView),
    Custom,
}

impl DeepView for LinkType {
    type V = LinkTypeView;

    open spec fn deep_view(&self) -> LinkTypeView {
        match self {
            LinkType::Msg => LinkTypeView::Msg,
            LinkType::Chainable(error, kind) => LinkTypeView::Chainable(
                error.deep_view(),
                kind.deep_view(),
            ),
            LinkType::Foreign(ty) => LinkTypeView::Foreign(ty.deep_view()),
            LinkType::Custom => LinkTypeView::Custom,
        }
    }
}

/// A classified variant.
#[derive(Debug, PartialEq, Eq)]
pub struct Link {
    pub variant_ident: String,
    pub variant_fields: Fields,
    pub link_type: LinkType,
    pub custom_description: Option<CustomFormatter>,
    pub custom_display: Option<CustomFormatter>,
    pub custom_cause: Option<Expression>,
}

pub struct LinkView {
    pub variant_ident: Seq<char>,
    pub variant_fields: FieldsView,
    pub link_type: LinkTypeView,
    pub custom_description: Option<CustomFormatterView>,
    pub custom_display: Option<CustomFormatterView>,
    pub custom_cause: Option<ExpressionView>,
}

impl DeepView for Link {
    type V = LinkView;

    open spec fn deep_view(&self) -> LinkView {
        LinkView {
            variant_ident: self.variant_ident@,
            variant_fields: self.variant_fields.deep_view(),
            link_type: self.link_type.deep_view(),
            custom_description: self.custom_description.deep_view(),
            custom_display: self.custom_display.deep_view(),
            custom_cause: self.custom_cause.deep_view(),
        }
    }
}

/// What the attributes of a variant have said so far.
#[derive(Debug, PartialEq, Eq)]
pub struct Marks {
    pub link_type: Option<LinkType>,
    pub custom_description: Option<CustomFormatter>,
    pub custom_display: Option<CustomFormatter>,
    pub custom_cause: Option<Expression>,
}

pub struct MarksView {
    pub link_type: Option<LinkTypeView>,
    pub custom_description: Option<CustomFormatterView>,
    pub custom_display: Option<CustomFormatterView>,
    pub custom_cause: Option<ExpressionView>,
}

impl DeepView for Marks {
    type V = MarksView;

    open spec fn deep_view(&self) -> MarksView {
        MarksView {
            link_type: self.link_type.deep_view(),
            custom_description: self.custom_description.deep_view(),
            custom_display: self.custom_display.deep_view(),
            custom_cause: self.custom_cause.deep_view(),
        }
    }
}

impl MarksView {
    /// Nothing said yet.
    pub open spec fn none() -> MarksView {
        MarksView {
            link_type: None,
            custom_description: None,
            custom_display: None,
            custom_cause: None,
        }
    }
}

/// Whether the fields are those of the message variant: a tuple of one element
/// whose type is written `String`.
pub open spec fn is_message_shape(fields: FieldsView) -> bool {
    fields.is_single() && fields.single().is_name("String"@)
}

/// How a complaint about an `error_chain` attribute of a variant starts.
pub open spec fn member(variant: Seq<char>) -> Seq<char> {
    "Could not parse `error_chain` attribute of member "@ + variant
}

/// The complaint about a value of a variant's attribute that does not read as
/// what it should be.
pub open spec fn not_parsed(key: Seq<char>, variant: Seq<char>, what: Seq<char>, reason: Seq<char>)
    -> Seq<char> {
    "Could not parse `"@ + key + "` attribute of member "@ + variant + " as "@ + what + " - "@
        + reason
}

/// The complaint about a foreign link that is no tuple of one element.
pub open spec fn foreign_shape(variant: Seq<char>) -> Seq<char> {
    "Foreign link "@ + variant + " must be a tuple of one element (the foreign error type)."@
}

/// The complaint about a chainable link that is no tuple of one element.
pub open spec fn chainable_shape(variant: Seq<char>) -> Seq<char> {
    "Chainable link "@ + variant
        + " must be a tuple of one element (the chainable error kind)."@
}

/// The complaint about a key that is none of the four known ones.
pub open spec fn unknown_key(variant: Seq<char>, key: Seq<char>) -> Seq<char> {
    member(variant) + " - expected one of `link`, `description`, `display`, `cause` but got "@ + key
}

/// The complaint about a variant that no attribute classifies.
pub open spec fn unclassified(variant: Seq<char>) -> Seq<char> {
    "Member "@ + variant
        + " does not have any of #[error_chain(link = \"...\")] or #[error_chain(foreign)] or #[error_chain(custom)]."@
}

/// The complaint about a variant that is marked as more than one of chainable,
/// foreign and custom.
pub open spec fn marked_twice(variant: Seq<char>) -> Seq<char> {
    "Member "@ + variant
        + " has more than one of #[error_chain(link = \"...\")], #[error_chain(foreign)] and #[error_chain(custom)]."@
}

/// Whether the marks name a kind already.
pub open spec fn is_marked(marks: MarksView) -> bool {
    marks.link_type is Some
}

/// Whether the variant is marked as a chainable link already.
pub open spec fn marked_chainable(marks: MarksView) -> bool {
    marks.link_type matches Some(kind) && kind is Chainable
}

/// Whether the variant is marked as a foreign link already.
pub open spec fn marked_foreign(marks: MarksView) -> bool {
    marks.link_type matches Some(kind) && kind is Foreign
}

/// Whether the variant is marked as a custom link already.
pub open spec fn marked_custom(marks: MarksView) -> bool {
    marks.link_type matches Some(kind) && kind is Custom
}

/// The complaint about an item that is neither a word nor a name with a value.
pub open spec fn not_a_pair(variant: Seq<char>) -> Seq<char> {
    member(variant) + " - expected term or name-value meta item"@
}

/// The complaint about a key whose value is no string. It names the key: a known
/// key as the one whose value cannot be read, another as unknown.
pub open spec fn not_a_string(variant: Seq<char>, key: Seq<char>) -> Seq<char> {
    if is_known_key(key) {
        could_not_parse(key, variant) + " - expected a string"@
    } else {
        unknown_key(variant, key)
    }
}

/// Whether a key is one of the four that a variant's attribute knows.
pub open spec fn is_known_key(key: Seq<char>) -> bool {
    key == "link"@ || key == "description"@ || key == "display"@ || key == "cause"@
}

/// The marks after a `link`: the variant must not be marked as foreign or custom
/// already, it must hold exactly one field, the sibling's kind, and the value
/// must read as a type, the sibling's error.
pub open spec fn mark_link(
    marks: MarksView,
    parsed: Result<TypeExprView, Seq<char>>,
    variant: Seq<char>,
    fields: FieldsView,
) -> Result<MarksView, Seq<char>> {
    if is_marked(marks) && !marked_chainable(marks) {
        Err(marked_twice(variant))
    } else if fields.is_single() {
        match parsed {
            Ok(error) => Ok(
                MarksView {
                    link_type: Some(LinkTypeView::Chainable(error, fields.single())),
                    ..marks
                },
            ),
            Err(reason) => Err(not_parsed("link"@, variant, "a type"@, reason)),
        }
    } else {
        Err(chainable_shape(variant))
    }
}

/// The marks after a cause given as an expression.
pub open spec fn mark_cause(
    marks: MarksView,
    parsed: Result<ExpressionView, Seq<char>>,
    variant: Seq<char>,
) -> Result<MarksView, Seq<char>> {
    match parsed {
        Ok(expr) => Ok(MarksView { custom_cause: Some(expr), ..marks }),
        Err(reason) => Err(not_parsed("cause"@, variant, "an expression"@, reason)),
    }
}

/// The marks after a description given as an expression.
pub open spec fn mark_description(
    marks: MarksView,
    parsed: Result<ExpressionView, Seq<char>>,
    variant: Seq<char>,
) -> Result<MarksView, Seq<char>> {
    match parsed {
        Ok(expr) => Ok(
            MarksView { custom_description: Some(CustomFormatterView::Expr(expr)), ..marks },
        ),
        Err(reason) => Err(not_parsed("description"@, variant, "an expression"@, reason)),
    }
}

/// The marks after a display given as an expression.
pub open spec fn mark_display(
    marks: MarksView,
    parsed: Result<ExpressionView, Seq<char>>,
    variant: Seq<char>,
) -> Result<MarksView, Seq<char>> {
    match parsed {
        Ok(expr) => Ok(MarksView { custom_display: Some(CustomFormatterView::Expr(expr)), ..marks }),
        Err(reason) => Err(not_parsed("display"@, variant, "an expression"@, reason)),
    }
}

/// The marks after one item of an attribute in list form. A variant is marked as
/// one of chainable, foreign and custom: a mark of a second kind is refused. A
/// key that is none of the known ones is named in the complaint.
pub open spec fn mark_item(
    marks: MarksView,
    item: MetaItem,
    variant: Seq<char>,
    fields: FieldsView,
) -> Result<MarksView, Seq<char>> {
    match item {
        MetaItem::Word(word) => {
            if word@ == "foreign"@ {
                if is_marked(marks) && !marked_foreign(marks) {
                    Err(marked_twice(variant))
                } else if fields.is_single() {
                    Ok(
                        MarksView {
                            link_type: Some(LinkTypeView::Foreign(fields.single())),
                            ..marks
                        },
                    )
                } else {
                    Err(foreign_shape(variant))
                }
            } else if word@ == "custom"@ {
                if is_marked(marks) && !marked_custom(marks) {
                    Err(marked_twice(variant))
                } else {
                    Ok(MarksView { link_type: Some(LinkTypeView::Custom), ..marks })
                }
            } else {
                Err(member(variant) + " - expected one of `foreign`, `custom` but got "@ + word@)
            }
        },
        MetaItem::NameStr(key, value) => {
            if key@ == "link"@ {
                mark_link(marks, type_parse(value@), variant, fields)
            } else if key@ == "description"@ {
                mark_description(marks, expr_parse(value@), variant)
            } else if key@ == "display"@ {
                mark_display(marks, expr_parse(value@), variant)
            } else if key@ == "cause"@ {
                mark_cause(marks, expr_parse(value@), variant)
            } else {
                Err(unknown_key(variant, key@))
            }
        },
        MetaItem::NameBool(key, _) => Err(not_a_string(variant, key@)),
        MetaItem::NameOther(key) => Err(not_a_string(variant, key@)),
        MetaItem::Other => Err(not_a_pair(variant)),
    }
}

/// The marks after the items from index `from` on, in order; the first complaint
/// ends it.
pub open spec fn mark_items(
    marks: MarksView,
    items: Seq<MetaItem>,
    from: int,
    variant: Seq<char>,
    fields: FieldsView,
) -> Result<MarksView, Seq<char>>
    decreases items.len() - from,
{
    if 0 <= from < items.len() {
        match mark_item(marks, items[from], variant, fields) {
            Ok(next) => mark_items(next, items, from + 1, variant, fields),
            Err(complaint) => Err(complaint),
        }
    } else {
        Ok(marks)
    }
}

/// The marks after `key = value` read off the trees inside the attribute's round
/// brackets: `inner` holds the key, the `=` and at least one tree of the value.
pub open spec fn mark_pair(
    marks: MarksView,
    inner: Seq<TokenTree>,
    variant: Seq<char>,
    fields: FieldsView,
) -> Result<MarksView, Seq<char>> {
    let key = inner[0].text@;
    if key == "link"@ {
        mark_link(marks, type_parse(stream_text(inner, 2)), variant, fields)
    } else if key == "description"@ {
        match formatter_of(inner, 2, key, variant, fields) {
            Ok(formatter) => Ok(MarksView { custom_description: Some(formatter), ..marks }),
            Err(complaint) => Err(complaint),
        }
    } else if key == "display"@ {
        match formatter_of(inner, 2, key, variant, fields) {
            Ok(formatter) => Ok(MarksView { custom_display: Some(formatter), ..marks }),
            Err(complaint) => Err(complaint),
        }
    } else if key == "cause"@ {
        mark_cause(marks, expr_parse(stream_text(inner, 2)), variant)
    } else {
        Err(unknown_key(variant, key))
    }
}

/// The marks after an attribute that is no list of meta items, read off its
/// token trees: one group in round brackets that holds a word, `=` and a value.
pub open spec fn mark_tokens(
    marks: MarksView,
    tts: Seq<TokenTree>,
    variant: Seq<char>,
    fields: FieldsView,
) -> Result<MarksView, Seq<char>> {
    let start = member(variant);
    if tts.len() == 0 {
        Err(start + " - expected `(tokens)`"@)
    } else if !tts[0].is_parenthesized() {
        Err(start + " - expected `(tokens)` but found "@ + tts[0].text@)
    } else if tts.len() > 1 {
        Err(start + " - unexpected token "@ + tts[1].text@ + " after `(tokens)`"@)
    } else {
        let inner = tts[0].inner();
        if inner.len() == 0 {
            Err(start + " - expected a term"@)
        } else if !(inner[0].kind is Term) {
            Err(start + " - expected a term but got "@ + inner[0].text@)
        } else if inner.len() == 1 {
            Err(start + " - expected `=`"@)
        } else if !inner[1].is_op("="@) {
            Err(start + " - expected `=` but got "@ + inner[1].text@)
        } else if inner.len() == 2 {
            Err(start + " - expected tokens after `=`"@)
        } else {
            mark_pair(marks, inner, variant, fields)
        }
    }
}

/// The marks after one more attribute of the variant. An attribute of another
/// name changes nothing.
pub open spec fn mark_attribute(
    marks: MarksView,
    attr: Attribute,
    variant: Seq<char>,
    fields: FieldsView,
) -> Result<MarksView, Seq<char>> {
    if !is_error_chain(attr) {
        Ok(marks)
    } else {
        match attr.meta {
            Some(items) => mark_items(marks, items@, 0, variant, fields),
            None => mark_tokens(marks, attr.tts@, variant, fields),
        }
    }
}

/// The marks after the attributes from index `from` on, in order; the first
/// complaint ends it.
pub open spec fn mark_attributes(
    marks: MarksView,
    attrs: Seq<Attribute>,
    from: int,
    variant: Seq<char>,
    fields: FieldsView,
) -> Result<MarksView, Seq<char>>
    decreases attrs.len() - from,
{
    if 0 <= from < attrs.len() {
        match mark_attribute(marks, attrs[from], variant, fields) {
            Ok(next) => mark_attributes(next, attrs, from + 1, variant, fields),
            Err(complaint) => Err(complaint),
        }
    } else {
        Ok(marks)
    }
}

/// The link that a variant declares. A variant called `Msg` is the message
/// variant and must have its shape; its attributes are not read. Any other
/// variant must be marked as exactly one of chainable, foreign and custom; of
/// marks of one kind, and of overrides, the last one counts.
pub open spec fn classify(variant: Variant) -> Result<LinkView, Seq<char>> {
    let fields = variant.fields.deep_view();
    if variant.ident@ == "Msg"@ {
        if is_message_shape(fields) {
            Ok(
                LinkView {
                    variant_ident: variant.ident@,
                    variant_fields: fields,
                    link_type: LinkTypeView::Msg,
                    custom_description: None,
                    custom_display: None,
                    custom_cause: None,
                },
            )
        } else {
            Err("Expected Msg member to be a tuple of String"@)
        }
    } else {
        match mark_attributes(MarksView::none(), variant.attrs@, 0, variant.ident@, fields) {
            Err(complaint) => Err(complaint),
            Ok(marks) => match marks.link_type {
                None => Err(unclassified(variant.ident@)),
                Some(link_type) => Ok(
                    LinkView {
                        variant_ident: variant.ident@,
                        variant_fields: fields,
                        link_type,
                        custom_description: marks.custom_description,
                        custom_display: marks.custom_display,
                        custom_cause: marks.custom_cause,
                    },
                ),
            },
        }
    }
}

/// Tells whether the fields are those of the message variant.
pub fn has_message_shape(fields: &Fields) -> (r: bool)
    ensures
        r == is_message_shape(fields.deep_view()),
{
    match fields {
        Fields::Unnamed(types) => {
            if types.len() != 1 {
                return false;
            }
            assert(types.deep_view()[0] == types@[0].deep_view());
            match &types[0].path {
                Some(path) => {
                    if path.global || path.segments.len() != 1 {
                        return false;
                    }
                    assert(path.segments.deep_view()[0] == path.segments@[0].deep_view());
                    same(path.segments[0].ident.as_str(), "String")
                },
                None => false,
            }
        },
        _ => false,
    }
}

/// The one field of a variant, where it is a tuple of one element.
pub fn single_field(fields: &Fields) -> (r: Option<TypeExpr>)
    ensures
        r.is_some() == fields.deep_view().is_single(),
        r.is_some() ==> r.unwrap().deep_view() == fields.deep_view().single(),
{
    match fields {
        Fields::Unnamed(types) => {
            if types.len() == 1 {
                assert(types.deep_view()[0] == types@[0].deep_view());
                Some(types[0].duplicate())
            } else {
                None
            }
        },
        _ => None,
    }
}

fn start_of(variant: &str) -> (r: String)
    ensures
        r@ == member(variant@),
{
    String::from_str("Could not parse `error_chain` attribute of member ").concat(variant)
}

fn refuse_value(key: &str, variant: &str, what: &str, reason: &str) -> (r: ExpansionError)
    ensures
        r.deep_view() == not_parsed(key@, variant@, what@, reason@),
{
    ExpansionError::new(
        String::from_str("Could not parse `").concat(key).concat("` attribute of member ").concat(
            variant,
        ).concat(" as ").concat(what).concat(" - ").concat(reason),
    )
}

fn refuse_second_mark(variant: &str) -> (r: ExpansionError)
    ensures
        r.deep_view() == marked_twice(variant@),
{
    ExpansionError::new(
        String::from_str("Member ").concat(variant).concat(
            " has more than one of #[error_chain(link = \"...\")], #[error_chain(foreign)] and #[error_chain(custom)].",
        ),
    )
}

fn refuse_other_value(variant: &str, key: &str) -> (r: ExpansionError)
    ensures
        r.deep_view() == not_a_string(variant@, key@),
{
    if same(key, "link") || same(key, "description") || same(key, "display") || same(key, "cause") {
        ExpansionError::new(complaint(key, variant).concat(" - expected a string"))
    } else {
        refuse_key(variant, key)
    }
}

fn refuse_key(variant: &str, key: &str) -> (r: ExpansionError)
    ensures
        r.deep_view() == unknown_key(variant@, key@),
{
    ExpansionError::new(
        start_of(variant).concat(
            " - expected one of `link`, `description`, `display`, `cause` but got ",
        ).concat(key),
    )
}

impl Marks {
    /// Nothing said yet.
    pub fn none() -> (r: Marks)
        ensures
            r.deep_view() == MarksView::none(),
    {
        Marks { link_type: None, custom_description: None, custom_display: None, custom_cause: None }
    }

    /// Takes a `link` into account, whose value was read as a type.
    pub fn link(self, parsed: Result<TypeExpr, String>, variant: &str, fields: &Fields) -> (r:
        Result<Marks, ExpansionError>)
        ensures
            result_view(r) == mark_link(
                self.deep_view(),
                result_view(parsed),
                variant@,
                fields.deep_view(),
            ),
    {
        let mut marks = self;
        match &marks.link_type {
            None => {},
            Some(LinkType::Chainable(_, _)) => {},
            Some(_) => {
                return Err(refuse_second_mark(variant));
            },
        }
        match single_field(fields) {
            Some(kind) => match parsed {
                Ok(error) => {
                    marks.link_type = Some(LinkType::Chainable(error, kind));
                    Ok(marks)
                },
                Err(reason) => Err(refuse_value("link", variant, "a type", reason.as_str())),
            },
            None => Err(
                ExpansionError::new(
                    String::from_str("Chainable link ").concat(variant).concat(
                        " must be a tuple of one element (the chainable error kind).",
                    ),
                ),
            ),
        }
    }

    /// Takes a cause into account, whose value was read as an expression.
    pub fn cause(self, parsed: Result<Expression, String>, variant: &str) -> (r: Result<
        Marks,
        ExpansionError,
    >)
        ensures
            result_view(r) == mark_cause(self.deep_view(), result_view(parsed), variant@),
    {
        let mut marks = self;
        match parsed {
            Ok(expr) => {
                marks.custom_cause = Some(expr);
                Ok(marks)
            },
            Err(reason) => Err(refuse_value("cause", variant, "an expression", reason.as_str())),
        }
    }

    /// Takes a description into account, whose value was read as an expression.
    pub fn description(self, parsed: Result<Expression, String>, variant: &str) -> (r: Result<
        Marks,
        ExpansionError,
    >)
        ensures
            result_view(r) == mark_description(self.deep_view(), result_view(parsed), variant@),
    {
        let mut marks = self;
        match parsed {
            Ok(expr) => {
                marks.custom_description = Some(CustomFormatter::Expr(expr));
                Ok(marks)
            },
            Err(reason) => Err(
                refuse_value("description", variant, "an expression", reason.as_str()),
            ),
        }
    }

    /// Takes a display into account, whose value was read as an expression.
    pub fn display(self, parsed: Result<Expression, String>, variant: &str) -> (r: Result<
        Marks,
        ExpansionError,
    >)
        ensures
            result_view(r) == mark_display(self.deep_view(), result_view(parsed), variant@),
    {
        let mut marks = self;
        match parsed {
            Ok(expr) => {
                marks.custom_display = Some(CustomFormatter::Expr(expr));
                Ok(marks)
            },
            Err(reason) => Err(refuse_value("display", variant, "an expression", reason.as_str())),
        }
    }

    /// Takes one item of an attribute in list form into account.
    pub fn item(self, item: &MetaItem, variant: &str, fields: &Fields) -> (r: Result<
        Marks,
        ExpansionError,
    >)
        ensures
            result_view(r) == mark_item(self.deep_view(), *item, variant@, fields.deep_view()),
    {
        let mut marks = self;
        match item {
            MetaItem::Word(word) => {
                if same(word.as_str(), "foreign") {
                    match &marks.link_type {
                        None => {},
                        Some(LinkType::Foreign(_)) => {},
                        Some(_) => {
                            return Err(refuse_second_mark(variant));
                        },
                    }
                    match single_field(fields) {
                        Some(ty) => {
                            marks.link_type = Some(LinkType::Foreign(ty));
                            Ok(marks)
                        },
                        None => Err(
                            ExpansionError::new(
                                String::from_str("Foreign link ").concat(variant).concat(
                                    " must be a tuple of one element (the foreign error type).",
                                ),
                            ),
                        ),
                    }
                } else if same(word.as_str(), "custom") {
                    match &marks.link_type {
                        None => {},
                        Some(LinkType::Custom) => {},
                        Some(_) => {
                            return Err(refuse_second_mark(variant));
                        },
                    }
                    marks.link_type = Some(LinkType::Custom);
                    Ok(marks)
                } else {
                    Err(
                        ExpansionError::new(
                            start_of(variant).concat(
                                " - expected one of `foreign`, `custom` but got ",
                            ).concat(word.as_str()),
                        ),
                    )
                }
            },
            MetaItem::NameStr(key, value) => {
                if same(key.as_str(), "link") {
                    marks.link(parse_type(value.as_str()), variant, fields)
                } else if same(key.as_str(), "description") {
                    marks.description(parse_expr(value.as_str()), variant)
                } else if same(key.as_str(), "display") {
                    marks.display(parse_expr(value.as_str()), variant)
                } else if same(key.as_str(), "cause") {
                    marks.cause(parse_expr(value.as_str()), variant)
                } else {
                    Err(refuse_key(variant, key.as_str()))
                }
            },
            MetaItem::NameBool(key, _) => Err(refuse_other_value(variant, key.as_str())),
            MetaItem::NameOther(key) => Err(refuse_other_value(variant, key.as_str())),
            MetaItem::Other => Err(
                ExpansionError::new(
                    start_of(variant).concat(" - expected term or name-value meta item"),
                ),
            ),
        }
    }

    /// Takes `key = value` into account, read off the trees inside the
    /// attribute's round brackets.
    fn pair(self, inner: &Vec<TokenTree>, variant: &str, fields: &Fields) -> (r: Result<
        Marks,
        ExpansionError,
    >)
        requires
            inner.len() > 2,
        ensures
            result_view(r) == mark_pair(self.deep_view(), inner@, variant@, fields.deep_view()),
    {
        let mut marks = self;
        let key = inner[0].text.as_str();
        if same(key, "link") {
            marks.link(parse_type(text_of(inner, 2).as_str()), variant, fields)
        } else if same(key, "description") {
            match CustomFormatter::parse(inner, 2, key, variant, fields) {
                Ok(formatter) => {
                    marks.custom_description = Some(formatter);
                    Ok(marks)
                },
                Err(complaint) => Err(complaint),
            }
        } else if same(key, "display") {
            match CustomFormatter::parse(inner, 2, key, variant, fields) {
                Ok(formatter) => {
                    marks.custom_display = Some(formatter);
                    Ok(marks)
                },
                Err(complaint) => Err(complaint),
            }
        } else if same(key, "cause") {
            marks.cause(parse_expr(text_of(inner, 2).as_str()), variant)
        } else {
            Err(refuse_key(variant, key))
        }
    }

    /// Takes an attribute that is no list of meta items into account, read off
    /// its token trees.
    pub fn tokens(self, tts: &Vec<TokenTree>, variant: &str, fields: &Fields) -> (r: Result<
        Marks,
        ExpansionError,
    >)
        ensures
            result_view(r) == mark_tokens(self.deep_view(), tts@, variant@, fields.deep_view()),
    {
        let start = start_of(variant);
        if tts.len() == 0 {
            return Err(ExpansionError::new(start.concat(" - expected `(tokens)`")));
        }
        let inner = match &tts[0].kind {
            TokenKind::Group(_, stream) if tts[0].parenthesized() => stream,
            _ => {
                return Err(
                    ExpansionError::new(
                        start.concat(" - expected `(tokens)` but found ").concat(
                            tts[0].text.as_str(),
                        ),
                    ),
                );
            },
        };
        if tts.len() > 1 {
            return Err(
                ExpansionError::new(
                    start.concat(" - unexpected token ").concat(tts[1].text.as_str()).concat(
                        " after `(tokens)`",
                    ),
                ),
            );
        }
        if inner.len() == 0 {
            return Err(ExpansionError::new(start.concat(" - expected a term")));
        }
        match &inner[0].kind {
            TokenKind::Term => {},
            _ => {
                return Err(
                    ExpansionError::new(
                        start.concat(" - expected a term but got ").concat(inner[0].text.as_str()),
                    ),
                );
            },
        }
        if inner.len() == 1 {
            return Err(ExpansionError::new(start.concat(" - expected `=`")));
        }
        if !inner[1].op_is("=") {
            return Err(
                ExpansionError::new(
                    start.concat(" - expected `=` but got ").concat(inner[1].text.as_str()),
                ),
            );
        }
        if inner.len() == 2 {
            return Err(ExpansionError::new(start.concat(" - expected tokens after `=`")));
        }
        self.pair(inner, variant, fields)
    }

    /// Takes one attribute of the variant into account.
    pub fn attribute(self, attr: &Attribute, variant: &str, fields: &Fields) -> (r: Result<
        Marks,
        ExpansionError,
    >)
        ensures
            result_view(r) == mark_attribute(self.deep_view(), *attr, variant@, fields.deep_view()),
    {
        if !is_error_chain_attribute(attr) {
            return Ok(self);
        }
        match &attr.meta {
            Some(items) => {
                let ghost start = self.deep_view();
                let mut marks = self;
                let mut i: usize = 0;
                while i < items.len()
                    invariant
                        i <= items.len(),
                        start == self.deep_view(),
                        mark_items(
                            marks.deep_view(),
                            items@,
                            i as int,
                            variant@,
                            fields.deep_view(),
                        ) == mark_attribute(start, *attr, variant@, fields.deep_view()),
                    decreases items.len() - i,
                {
                    marks = match marks.item(&items[i], variant, fields) {
                        Ok(next) => next,
                        Err(complaint) => {
                            return Err(complaint);
                        },
                    };
                    i += 1;
                }
                Ok(marks)
            },
            None => self.tokens(&attr.tts, variant, fields),
        }
    }
}

impl Link {
    /// Classifies a variant.
    pub fn from(variant: Variant) -> (r: Result<Link, ExpansionError>)
        ensures
            result_view(r) == classify(variant),
    {
        let Variant { ident, attrs, fields } = variant;
        if same(ident.as_str(), "Msg") {
            if has_message_shape(&fields) {
                return Ok(
                    Link {
                        variant_ident: ident,
                        variant_fields: fields,
                        link_type: LinkType::Msg,
                        custom_description: None,
                        custom_display: None,
                        custom_cause: None,
                    },
                );
            }
            return Err(
                ExpansionError::new(String::from_str("Expected Msg member to be a tuple of String")),
            );
        }
        let mut marks = Marks::none();
        let mut i: usize = 0;
        while i < attrs.len()
            invariant
                i <= attrs.len(),
                ident == variant.ident,
                attrs == variant.attrs,
                fields == variant.fields,
                variant.ident@ != "Msg"@,
                mark_attributes(
                    marks.deep_view(),
                    attrs@,
                    i as int,
                    ident@,
                    fields.deep_view(),
                ) == mark_attributes(MarksView::none(), attrs@, 0, ident@, fields.deep_view()),
            decreases attrs.len() - i,
        {
            marks = match marks.attribute(&attrs[i], ident.as_str(), &fields) {
                Ok(next) => next,
                Err(complaint) => {
                    return Err(complaint);
                },
            };
            i += 1;
        }
        let Marks { link_type, custom_description, custom_display, custom_cause } = marks;
        match link_type {
            Some(link_type) => Ok(
                Link {
                    variant_ident: ident,
                    variant_fields: fields,
                    link_type,
                    custom_description,
                    custom_display,
                    custom_cause,
                },
            ),
            None => Err(
                ExpansionError::new(
                    String::from_str("Member ").concat(ident.as_str()).concat(
                        " does not have any of #[error_chain(link = \"...\")] or #[error_chain(foreign)] or #[error_chain(custom)].",
                    ),
                ),
            ),
        }
    }
}

} // verus!

//! The calls into `syn` and `syntex_fmt_macros`. What is said of them here is
//! taken on trust.

use vstd::prelude::*;
use crate::escape::sound_escapes;
use crate::format::{numbers_fit, Piece, PieceView};
use crate::syntax::{
    result_view, Expression, ExpressionView, Literal, LiteralView, Path, PathSegment, TypeExpr,
    TypeExprView,
};

verus! {

/// What `syn` makes of a text read as an identifier: the identifier, or the
/// parser's complaint.
pub uninterp spec fn ident_parse(text: Seq<char>) -> Result<Seq<char>, Seq<char>>;

/// What `syn` makes of a text read as a type: the type, or the parser's
/// complaint.
pub uninterp spec fn type_parse(text: Seq<char>) -> Result<TypeExprView, Seq<char>>;

/// What `syn` makes of a text read as an expression: the expression, or the
/// parser's complaint.
pub uninterp spec fn expr_parse(text: Seq<char>) -> Result<ExpressionView, Seq<char>>;

/// What `syn` makes of a text read as a literal: the literal, or the parser's
/// complaint.
pub uninterp spec fn literal_parse(text: Seq<char>) -> Result<LiteralView, Seq<char>>;

/// The pieces that the format parser of `syntex_fmt_macros` hands out for a
/// template, in order, until it stops.
pub uninterp spec fn format_parse(template: Seq<char>) -> Seq<PieceView>;

/// Calls `syn::parse_str::<syn::Ident>`. Claimed: the outcome depends on the text
/// alone. On success the identifier is handed back as text, on failure the
/// error's message.
#[verifier::external_body]
pub(crate) fn parse_ident(text: &str) -> (r: Result<String, String>)
    ensures
        result_view(r) == ident_parse(text@),
{
    match syn::parse_str::<syn::Ident>(text) {
        Ok(ident) => Ok(ident.to_string()),
        Err(err) => Err(err.to_string()),
    }
}

/// Calls `syn::parse_str::<syn::Type>`. Claimed: the outcome depends on the text
/// alone. On success the type is handed back as its tokens' text and, for a path
/// type, its path; on failure the error's message.
#[verifier::external_body]
pub(crate) fn parse_type(text: &str) -> (r: Result<TypeExpr, String>)
    ensures
        result_view(r) == type_parse(text@),
{
    match syn::parse_str::<syn::Type>(text) {
        Err(err) => Err(err.to_string()),
        Ok(ty) => Ok(TypeExpr {
            tokens: quote::ToTokens::into_tokens(&ty).to_string(),
            path: match ty {
                syn::Type::Path(ty) => Some(Path {
                    global: ty.path.global(),
                    segments: ty.path.segments.iter().map(|segment| PathSegment {
                        ident: segment.ident.to_string(), bare: segment.arguments.is_empty(),
                    }).collect(),
                }),
                _ => None,
            },
        }),
    }
}

/// Calls `syn::parse_str::<syn::Expr>`. Claimed: the outcome depends on the text
/// alone. On success the expression is handed back as its tokens' text, with
/// whether it is a closure; on failure the error's message.
#[verifier::external_body]
pub(crate) fn parse_expr(text: &str) -> (r: Result<Expression, String>)
    ensures
        result_view(r) == expr_parse(text@),
{
    match syn::parse_str::<syn::Expr>(text) {
        Ok(expr) => Ok(Expression {
            tokens: quote::ToTokens::into_tokens(&expr).to_string(),
            is_closure: match expr {
                syn::Expr::Closure(_) => true,
                _ => false,
            },
        }),
        Err(err) => Err(err.to_string()),
    }
}

/// Calls `syn::parse_str::<syn::Lit>` and, on a string literal, `syn::LitStr::value`.
/// Claimed: the outcome depends on the text alone. On success a string literal is
/// handed back as the text it denotes, any other literal as its tokens' text; on
/// failure the error's message. `value` gives up on a unicode escape that names
/// no character (an underscore among the digits, more than six digits, a code
/// that is no character's), so a text that is no raw string and holds such an
/// escape is left out.
#[verifier::external_body]
pub(crate) fn parse_literal(text: &str) -> (r: Result<Literal, String>)
    requires
        sound_escapes(text@),
    ensures
        result_view(r) == literal_parse(text@),
{
    match syn::parse_str::<syn::Lit>(text) {
        Ok(syn::Lit::Str(lit)) => Ok(Literal::Str(lit.value())),
        Ok(lit) => Ok(Literal::Other(quote::ToTokens::into_tokens(&lit).to_string())),
        Err(err) => Err(err.to_string()),
    }
}

/// Runs `syntex_fmt_macros::Parser` over a template to its end. Claimed: the
/// pieces depend on the template alone. Where the parser reads a number in a
/// placeholder (a position, a width, a precision) it adds up the digits without a
/// check, so a template with such a number above 4294967295 is left out.
#[verifier::external_body]
pub(crate) fn parse_format(template: &str) -> (r: Vec<Piece>)
    requires
        numbers_fit(template@),
    ensures
        r.deep_view() == format_parse(template@),
{
    syntex_fmt_macros::Parser::new(template).map(|piece| match piece {
        syntex_fmt_macros::Piece::String(text) => Piece::Text(text.to_string()),
        syntex_fmt_macros::Piece::NextArgument(argument) => match argument.position {
            syntex_fmt_macros::Position::ArgumentNext => Piece::Next,
            syntex_fmt_macros::Position::ArgumentIs(index) => Piece::Index(index),
            syntex_fmt_macros::Position::ArgumentNamed(name) => Piece::Named(name.to_string()),
        },
    }).collect()
}

} // verus!

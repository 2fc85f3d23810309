//! Overrides of a variant's description and display: an expression to call, or a
//! constant template written `const("...")`.

use vstd::prelude::*;
use vstd::string::StringExecFns;
use crate::error::ExpansionError;
use crate::escape::{has_sound_escapes, sound_escapes};
use crate::format::{
    ensure_no_parameters, get_parameter_names, get_parameter_positions, no_parameters,
    parameter_names, parameter_positions,
};
use crate::outside::{expr_parse, literal_parse, parse_expr, parse_literal};
use crate::pattern::{
    bind_named, bind_positional, named_arguments, named_bindings, positional_arguments,
    positional_bindings,
};
use crate::plan::{Argument, ArgumentView, Pattern, PatternView};
use crate::syntax::{
    result_view, stream_text, text_of, Expression, ExpressionView, Fields, FieldsView, Literal,
    LiteralView, TokenKind, TokenTree,
};

verus! {

/// An override of a description or of a display.
#[derive(Debug, PartialEq, Eq)]
pub enum CustomFormatter {
    /// A constant template, with the pattern that binds the fields it refers to
    /// and the arguments that hand them to the formatting call.
    FormatString { format_string: String, pattern: Pattern, args: Vec<Argument> },
    /// A closure or the path of a function.
    Expr(Expression),
}

pub enum CustomFormatterView {
    FormatString { format_string: Seq<char>, pattern: PatternView, args: Seq<ArgumentView> },
    Expr(ExpressionView),
}

impl DeepView for CustomFormatter {
    type V = CustomFormatterView;

    open spec fn deep_view(&self) -> CustomFormatterView {
        match self {
            CustomFormatter::FormatString { format_string, pattern, args } => {
                CustomFormatterView::FormatString {
                    format_string: format_string@,
                    pattern: pattern.deep_view(),
                    args: args.deep_view(),
                }
            },
            CustomFormatter::Expr(expr) => CustomFormatterView::Expr(expr.deep_view()),
        }
    }
}

/// How every complaint about an attribute of a variant starts.
pub open spec fn could_not_parse(attr_name: Seq<char>, variant: Seq<char>) -> Seq<char> {
    "Could not parse `"@ + attr_name + "` attribute of member "@ + variant
}

/// How every complaint about an attribute of a variant starts.
pub fn complaint(attr_name: &str, variant: &str) -> (r: String)
    ensures
        r@ == could_not_parse(attr_name@, variant@),
{
    String::from_str("Could not parse `").concat(attr_name).concat("` attribute of member ").concat(
        variant,
    )
}

/// A constant template bound to the fields of a variant. Named fields are
/// referred to by name, the fields of a tuple by position, and a variant without
/// fields takes no placeholder at all; anything else is a complaint.
pub open spec fn format_binding(template: Seq<char>, fields: FieldsView) -> Result<
    CustomFormatterView,
    Seq<char>,
> {
    match fields {
        FieldsView::Named(named) => match parameter_names(template) {
            Ok(names) => Ok(
                CustomFormatterView::FormatString {
                    format_string: template,
                    pattern: PatternView::Struct(named_bindings(named, names)),
                    args: named_arguments(named, names, named.len()),
                },
            ),
            Err(complaint) => Err(complaint),
        },
        FieldsView::Unnamed(types) => match parameter_positions(template) {
            Ok(positions) => Ok(
                CustomFormatterView::FormatString {
                    format_string: template,
                    pattern: PatternView::Tuple(positional_bindings(types.len(), positions)),
                    args: positional_arguments(types.len(), positions),
                },
            ),
            Err(complaint) => Err(complaint),
        },
        FieldsView::Unit => match no_parameters(template) {
            Ok(()) => Ok(
                CustomFormatterView::FormatString {
                    format_string: template,
                    pattern: PatternView::Unit,
                    args: Seq::empty(),
                },
            ),
            Err(complaint) => Err(complaint),
        },
    }
}

/// What the literal after `const` gives, where `parsed` is what the text inside
/// the round brackets reads as: a string literal with nothing after the
/// brackets is a template, which is then bound to the variant's fields.
pub open spec fn literal_formatter(
    parsed: Result<LiteralView, Seq<char>>,
    trees: Seq<TokenTree>,
    from: int,
    attr_name: Seq<char>,
    variant: Seq<char>,
    fields: FieldsView,
) -> Result<CustomFormatterView, Seq<char>> {
    let start = could_not_parse(attr_name, variant);
    match parsed {
        Err(reason) => Err(start + " - "@ + reason),
        Ok(LiteralView::Other(tokens)) => Err(
            start + " - expected string literal but got "@ + tokens,
        ),
        Ok(LiteralView::Str(template)) => if from + 2 < trees.len() {
            Err(start + " - unexpected token "@ + trees[from + 2].text@ + " after string literal"@)
        } else {
            match format_binding(template, fields) {
                Ok(formatter) => Ok(formatter),
                Err(complaint) => Err(start + " - "@ + complaint),
            }
        },
    }
}

/// The override that the tokens of `trees` from index `from` on stand for where
/// they did not read as an expression, for the `reason` given: the word `const`
/// and one string literal in round brackets. A literal with a unicode escape
/// that names no character is refused unread.
pub open spec fn constant_formatter(
    trees: Seq<TokenTree>,
    from: int,
    attr_name: Seq<char>,
    variant: Seq<char>,
    fields: FieldsView,
    reason: Seq<char>,
) -> Result<CustomFormatterView, Seq<char>> {
    let start = could_not_parse(attr_name, variant);
    let no_const = start + ". Expression - "@ + reason + ". Format string - expected `const`"@;
    if !(0 <= from < trees.len()) {
        Err(no_const)
    } else if !trees[from].is_term("const"@) {
        Err(no_const + " but got "@ + trees[from].text@)
    } else if from + 1 >= trees.len() {
        Err(start + " - expected `(string literal)`"@)
    } else if !trees[from + 1].is_parenthesized() {
        Err(start + " - expected `(string literal)` but got "@ + trees[from + 1].text@)
    } else if !sound_escapes(stream_text(trees[from + 1].inner(), 0)) {
        Err(start + " - string literal holds a unicode escape that names no character"@)
    } else {
        literal_formatter(
            literal_parse(stream_text(trees[from + 1].inner(), 0)),
            trees,
            from,
            attr_name,
            variant,
            fields,
        )
    }
}

/// The override that the tokens of `trees` from index `from` on stand for, where
/// `parsed` is what they read as, taken as an expression. Where they read as
/// one, it is that expression; else they must be a constant template.
pub open spec fn formatter_with(
    parsed: Result<ExpressionView, Seq<char>>,
    trees: Seq<TokenTree>,
    from: int,
    attr_name: Seq<char>,
    variant: Seq<char>,
    fields: FieldsView,
) -> Result<CustomFormatterView, Seq<char>> {
    match parsed {
        Ok(expr) => Ok(CustomFormatterView::Expr(expr)),
        Err(reason) => constant_formatter(trees, from, attr_name, variant, fields, reason),
    }
}

/// The override that the tokens of `trees` from index `from` on stand for. Where
/// they read as an expression, it is that expression. Else they must be the word
/// `const` and one string literal in round brackets, a template that is then
/// bound to the variant's fields.
pub open spec fn formatter_of(
    trees: Seq<TokenTree>,
    from: int,
    attr_name: Seq<char>,
    variant: Seq<char>,
    fields: FieldsView,
) -> Result<CustomFormatterView, Seq<char>> {
    formatter_with(expr_parse(stream_text(trees, from)), trees, from, attr_name, variant, fields)
}

impl CustomFormatter {
    /// Binds a constant template to the fields of a variant. Complaints come
    /// without the words that say which attribute of which variant they are
    /// about.
    pub fn bind(format_string: String, variant_fields: &Fields) -> (r: Result<
        CustomFormatter,
        String,
    >)
        ensures
            result_view(r) == format_binding(format_string@, variant_fields.deep_view()),
    {
        match variant_fields {
            Fields::Named(named) => match get_parameter_names(format_string.as_str()) {
                Ok(names) => {
                    let (pattern, args) = bind_named(named, &names);
                    Ok(CustomFormatter::FormatString { format_string, pattern, args })
                },
                Err(complaint) => Err(complaint),
            },
            Fields::Unnamed(types) => match get_parameter_positions(format_string.as_str()) {
                Ok(positions) => {
                    let (pattern, args) = bind_positional(types.len(), &positions);
                    Ok(CustomFormatter::FormatString { format_string, pattern, args })
                },
                Err(complaint) => Err(complaint),
            },
            Fields::Unit => match ensure_no_parameters(format_string.as_str()) {
                Ok(()) => {
                    let args: Vec<Argument> = Vec::new();
                    assert(args.deep_view() =~= Seq::empty());
                    Ok(
                        CustomFormatter::FormatString {
                            format_string,
                            pattern: Pattern::Unit,
                            args,
                        },
                    )
                },
                Err(complaint) => Err(complaint),
            },
        }
    }

    /// Reads an override from the tokens that follow `=` in an attribute: those of
    /// `tokens` from index `from` on. `attr_name` and `variant_ident` are named in
    /// complaints.
    pub fn parse(
        tokens: &Vec<TokenTree>,
        from: usize,
        attr_name: &str,
        variant_ident: &str,
        variant_fields: &Fields,
    ) -> (r: Result<CustomFormatter, ExpansionError>)
        ensures
            result_view(r) == formatter_of(
                tokens@,
                from as int,
                attr_name@,
                variant_ident@,
                variant_fields.deep_view(),
            ),
    {
        CustomFormatter::with_expression(
            parse_expr(text_of(tokens, from).as_str()),
            tokens,
            from,
            attr_name,
            variant_ident,
            variant_fields,
        )
    }

    /// The override that the tokens stand for, where `parsed` is what they read
    /// as, taken as an expression.
    pub fn with_expression(
        parsed: Result<Expression, String>,
        tokens: &Vec<TokenTree>,
        from: usize,
        attr_name: &str,
        variant_ident: &str,
        variant_fields: &Fields,
    ) -> (r: Result<CustomFormatter, ExpansionError>)
        ensures
            result_view(r) == formatter_with(
                result_view(parsed),
                tokens@,
                from as int,
                attr_name@,
                variant_ident@,
                variant_fields.deep_view(),
            ),
    {
        match parsed {
            Ok(expr) => Ok(CustomFormatter::Expr(expr)),
            Err(reason) => CustomFormatter::constant(
                tokens,
                from,
                attr_name,
                variant_ident,
                variant_fields,
                reason.as_str(),
            ),
        }
    }

    /// Reads a constant template from tokens that did not read as an expression,
    /// for the `reason` given.
    pub fn constant(
        tokens: &Vec<TokenTree>,
        from: usize,
        attr_name: &str,
        variant_ident: &str,
        variant_fields: &Fields,
        reason: &str,
    ) -> (r: Result<CustomFormatter, ExpansionError>)
        ensures
            result_view(r) == constant_formatter(
                tokens@,
                from as int,
                attr_name@,
                variant_ident@,
                variant_fields.deep_view(),
                reason@,
            ),
    {
        let start = complaint(attr_name, variant_ident);
        if from >= tokens.len() || !tokens[from].term_is("const") {
            let no_const = start.concat(". Expression - ").concat(reason).concat(
                ". Format string - expected `const`",
            );
            if from >= tokens.len() {
                return Err(ExpansionError::new(no_const));
            }
            return Err(
                ExpansionError::new(no_const.concat(" but got ").concat(tokens[from].text.as_str())),
            );
        }
        if from + 1 >= tokens.len() {
            return Err(ExpansionError::new(start.concat(" - expected `(string literal)`")));
        }
        match &tokens[from + 1].kind {
            TokenKind::Group(_, stream) if tokens[from + 1].parenthesized() => {
                let inner = text_of(stream, 0);
                if !has_sound_escapes(inner.as_str()) {
                    return Err(
                        ExpansionError::new(
                            start.concat(
                                " - string literal holds a unicode escape that names no character",
                            ),
                        ),
                    );
                }
                CustomFormatter::with_literal(
                    parse_literal(inner.as_str()),
                    tokens,
                    from,
                    attr_name,
                    variant_ident,
                    variant_fields,
                )
            },
            _ => Err(
                ExpansionError::new(
                    start.concat(" - expected `(string literal)` but got ").concat(
                        tokens[from + 1].text.as_str(),
                    ),
                ),
            ),
        }
    }

    /// The override that the literal after `const` gives, where `parsed` is what
    /// the text inside the round brackets reads as.
    pub fn with_literal(
        parsed: Result<Literal, String>,
        tokens: &Vec<TokenTree>,
        from: usize,
        attr_name: &str,
        variant_ident: &str,
        variant_fields: &Fields,
    ) -> (r: Result<CustomFormatter, ExpansionError>)
        ensures
            result_view(r) == literal_formatter(
                result_view(parsed),
                tokens@,
                from as int,
                attr_name@,
                variant_ident@,
                variant_fields.deep_view(),
            ),
    {
        let start = complaint(attr_name, variant_ident);
        let format_string = match parsed {
            Ok(Literal::Str(value)) => value,
            Ok(Literal::Other(found)) => {
                return Err(
                    ExpansionError::new(
                        start.concat(" - expected string literal but got ").concat(found.as_str()),
                    ),
                );
            },
            Err(reason) => {
                return Err(ExpansionError::new(start.concat(" - ").concat(reason.as_str())));
            },
        };
        if tokens.len() > 2 && from < tokens.len() - 2 {
            return Err(
                ExpansionError::new(
                    start.concat(" - unexpected token ").concat(
                        tokens[from + 2].text.as_str(),
                    ).concat(" after string literal"),
                ),
            );
        }
        match CustomFormatter::bind(format_string, variant_fields) {
            Ok(formatter) => Ok(formatter),
            Err(complaint) => Err(
                ExpansionError::new(start.concat(" - ").concat(complaint.as_str())),
            ),
        }
    }
}

} // verus!

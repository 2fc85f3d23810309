//! The declaration that an expansion starts from: an enum, its generics, its
//! attributes and its variants, held as plain values.
//!
//! Texts that come from source code are kept as the source wrote them. Types and
//! expressions carry, beside their text, the little of their structure that the
//! expansion looks at.

use vstd::prelude::*;
use vstd::string::StringExecFns;
use crate::text::{copy, same};

verus! {

/// One segment of a path.
#[derive(Debug, PartialEq, Eq)]
pub struct PathSegment {
    pub ident: String,
    /// Whether the segment stands alone: no generic arguments (empty angle
    /// brackets count as none) and no parenthesised list.
    pub bare: bool,
}

pub struct PathSegmentView {
    pub ident: Seq<char>,
    pub bare: bool,
}

impl DeepView for PathSegment {
    type V = PathSegmentView;

    open spec fn deep_view(&self) -> PathSegmentView {
        PathSegmentView { ident: self.ident@, bare: self.bare }
    }
}

/// A path such as `std::fmt::Error` or `::error_chain`.
#[derive(Debug, PartialEq, Eq)]
pub struct Path {
    /// Whether the path starts with `::`.
    pub global: bool,
    pub segments: Vec<PathSegment>,
}

pub struct PathView {
    pub global: bool,
    pub segments: Seq<PathSegmentView>,
}

impl DeepView for Path {
    type V = PathView;

    open spec fn deep_view(&self) -> PathView {
        PathView { global: self.global, segments: self.segments.deep_view() }
    }
}

impl PathView {
    /// The path is a single plain name, and this is the name.
    pub open spec fn is_name(self, name: Seq<char>) -> bool {
        !self.global && self.segments.len() == 1 && self.segments[0].ident == name
    }
}

/// A type as written in the declaration.
#[derive(Debug, PartialEq, Eq)]
pub struct TypeExpr {
    /// The type's source text.
    pub tokens: String,
    /// The path, where the type is one (without a qualified self).
    pub path: Option<Path>,
}

pub struct TypeExprView {
    pub tokens: Seq<char>,
    pub path: Option<PathView>,
}

impl DeepView for TypeExpr {
    type V = TypeExprView;

    open spec fn deep_view(&self) -> TypeExprView {
        TypeExprView { tokens: self.tokens@, path: self.path.deep_view() }
    }
}

impl TypeExprView {
    /// The type is written as a single plain name, and this is the name.
    pub open spec fn is_name(self, name: Seq<char>) -> bool {
        self.path matches Some(path) && path.is_name(name)
    }
}

impl Path {
    /// A copy of the path.
    pub fn duplicate(&self) -> (r: Path)
        ensures
            r.deep_view() == self.deep_view(),
    {
        let mut segments: Vec<PathSegment> = Vec::new();
        let mut i: usize = 0;
        assert(segments.deep_view() =~= self.segments.deep_view().take(0));
        while i < self.segments.len()
            invariant
                i <= self.segments.len(),
                segments.deep_view() == self.segments.deep_view().take(i as int),
            decreases self.segments.len() - i,
        {
            let ghost before = segments;
            let segment = PathSegment {
                ident: copy(&self.segments[i].ident),
                bare: self.segments[i].bare,
            };
            segments.push(segment);
            proof {
                lemma_pushed(before, segments, segment);
            }
            i += 1;
            assert(segments.deep_view() =~= self.segments.deep_view().take(i as int));
        }
        assert(segments.deep_view() =~= self.segments.deep_view());
        Path { global: self.global, segments }
    }
}

impl TypeExpr {
    /// A copy of the type.
    pub fn duplicate(&self) -> (r: TypeExpr)
        ensures
            r.deep_view() == self.deep_view(),
    {
        TypeExpr {
            tokens: copy(&self.tokens),
            path: match &self.path {
                Some(path) => Some(path.duplicate()),
                None => None,
            },
        }
    }
}

impl Expression {
    /// A copy of the expression.
    pub fn duplicate(&self) -> (r: Expression)
        ensures
            r.deep_view() == self.deep_view(),
    {
        Expression { tokens: copy(&self.tokens), is_closure: self.is_closure }
    }
}

/// An expression given as the value of an attribute.
#[derive(Debug, PartialEq, Eq)]
pub struct Expression {
    /// The expression's source text.
    pub tokens: String,
    /// Whether it is a closure (`|args| body`).
    pub is_closure: bool,
}

pub struct ExpressionView {
    pub tokens: Seq<char>,
    pub is_closure: bool,
}

impl DeepView for Expression {
    type V = ExpressionView;

    open spec fn deep_view(&self) -> ExpressionView {
        ExpressionView { tokens: self.tokens@, is_closure: self.is_closure }
    }
}

/// A literal.
#[derive(Debug, PartialEq, Eq)]
pub enum Literal {
    /// A string literal, with the text that it denotes.
    Str(String),
    /// Any other literal, with its source text.
    Other(String),
}

pub enum LiteralView {
    Str(Seq<char>),
    Other(Seq<char>),
}

impl DeepView for Literal {
    type V = LiteralView;

    open spec fn deep_view(&self) -> LiteralView {
        match self {
            Literal::Str(value) => LiteralView::Str(value@),
            Literal::Other(tokens) => LiteralView::Other(tokens@),
        }
    }
}

/// The brackets of a token group.
#[derive(Clone, Copy, PartialEq, Eq, Structural, Debug)]
pub enum Delimiter {
    Parenthesis,
    Brace,
    Bracket,
    /// No brackets: a group that only holds its trees together.
    Invisible,
}

/// What kind of token tree a tree is.
#[derive(Debug, PartialEq, Eq)]
pub enum TokenKind {
    /// A bracketed group and the trees inside it.
    Group(Delimiter, Vec<TokenTree>),
    /// A word: an identifier, a keyword or a lifetime.
    Term,
    /// A punctuation character; `true` where the next token follows it without
    /// a space, as the first `:` of `::` does.
    Op(bool),
    /// A literal.
    Literal,
}

/// A token tree and its source text.
#[derive(Debug, PartialEq, Eq)]
pub struct TokenTree {
    pub kind: TokenKind,
    pub text: String,
}

impl TokenTree {
    /// Whether the tree is a group in round brackets.
    pub open spec fn is_parenthesized(self) -> bool {
        self.kind matches TokenKind::Group(delimiter, _) && delimiter == Delimiter::Parenthesis
    }

    /// The trees inside a group; nothing for another tree.
    pub open spec fn inner(self) -> Seq<TokenTree> {
        match self.kind {
            TokenKind::Group(_, stream) => stream@,
            _ => Seq::empty(),
        }
    }

    /// Whether the tree is the word `word`.
    pub open spec fn is_term(self, word: Seq<char>) -> bool {
        self.kind is Term && self.text@ == word
    }

    /// Whether the tree is the punctuation character written `op`.
    pub open spec fn is_op(self, op: Seq<char>) -> bool {
        self.kind is Op && self.text@ == op
    }

    /// What follows the tree's text where trees are written in a row: nothing
    /// after a punctuation character that is joined to the next token, a space
    /// after anything else.
    pub open spec fn gap(self) -> Seq<char> {
        if self.kind matches TokenKind::Op(joint) && joint {
            Seq::empty()
        } else {
            " "@
        }
    }
}

/// The source text of the trees from index `from` on, written in a row.
pub open spec fn stream_text(trees: Seq<TokenTree>, from: int) -> Seq<char>
    decreases trees.len() - from,
{
    if 0 <= from < trees.len() {
        trees[from].text@ + trees[from].gap() + stream_text(trees, from + 1)
    } else {
        Seq::empty()
    }
}

impl TokenTree {
    /// Tells whether the tree is a group in round brackets.
    pub fn parenthesized(&self) -> (r: bool)
        ensures
            r == self.is_parenthesized(),
    {
        match &self.kind {
            TokenKind::Group(delimiter, _) => match delimiter {
                Delimiter::Parenthesis => true,
                _ => false,
            },
            _ => false,
        }
    }

    /// Tells whether the tree is the word `word`.
    pub fn term_is(&self, word: &str) -> (r: bool)
        ensures
            r == self.is_term(word@),
    {
        match &self.kind {
            TokenKind::Term => same(self.text.as_str(), word),
            _ => false,
        }
    }

    /// Tells whether the tree is the punctuation character written `op`.
    pub fn op_is(&self, op: &str) -> (r: bool)
        ensures
            r == self.is_op(op@),
    {
        match &self.kind {
            TokenKind::Op(_) => same(self.text.as_str(), op),
            _ => false,
        }
    }
}

/// Writes the trees from index `from` on in a row.
pub fn text_of(trees: &Vec<TokenTree>, from: usize) -> (r: String)
    ensures
        r@ == stream_text(trees@, from as int),
{
    let mut out = String::new();
    let mut i = from;
    if i >= trees.len() {
        return out;
    }
    while i < trees.len()
        invariant
            from <= i <= trees.len(),
            out@ + stream_text(trees@, i as int) == stream_text(trees@, from as int),
        decreases trees.len() - i,
    {
        let ghost before = out@;
        out.append(trees[i].text.as_str());
        match &trees[i].kind {
            TokenKind::Op(true) => {},
            _ => {
                out.append(" ");
            },
        }
        assert(out@ =~= before + (trees@[i as int].text@ + trees@[i as int].gap()));
        assert(before + (trees@[i as int].text@ + trees@[i as int].gap()) + stream_text(
            trees@,
            i + 1,
        ) =~= before + stream_text(trees@, i as int));
        i += 1;
    }
    assert(out@ + Seq::<char>::empty() =~= out@);
    out
}

/// One item of an attribute's list, as far as the expansion tells items apart.
#[derive(Debug, PartialEq, Eq)]
pub enum MetaItem {
    /// A bare word, as `custom`.
    Word(String),
    /// A name and a string, as `error = "MyError"`.
    NameStr(String, String),
    /// A name and a boolean, as `backtrace = false`.
    NameBool(String, bool),
    /// A name and anything else: another literal, as `error = 5`, or a list in
    /// round brackets, as `error(inner)`.
    NameOther(String),
    /// Anything else: a literal that stands alone.
    Other,
}

/// An attribute on the enum or on a variant.
#[derive(Debug, PartialEq, Eq)]
pub struct Attribute {
    pub path: Path,
    /// The items, where what follows the path is a list of meta items in round
    /// brackets.
    pub meta: Option<Vec<MetaItem>>,
    /// What follows the path, as token trees.
    pub tts: Vec<TokenTree>,
}

/// A field with a name.
#[derive(Debug, PartialEq, Eq)]
pub struct NamedField {
    pub ident: String,
    pub ty: TypeExpr,
}

pub struct NamedFieldView {
    pub ident: Seq<char>,
    pub ty: TypeExprView,
}

impl DeepView for NamedField {
    type V = NamedFieldView;

    open spec fn deep_view(&self) -> NamedFieldView {
        NamedFieldView { ident: self.ident@, ty: self.ty.deep_view() }
    }
}

/// The fields of a variant.
#[derive(Debug, PartialEq, Eq)]
pub enum Fields {
    /// `Variant { name: Type, .. }`
    Named(Vec<NamedField>),
    /// `Variant(Type, ..)`
    Unnamed(Vec<TypeExpr>),
    /// `Variant`
    Unit,
}

pub enum FieldsView {
    Named(Seq<NamedFieldView>),
    Unnamed(Seq<TypeExprView>),
    Unit,
}

impl DeepView for Fields {
    type V = FieldsView;

    open spec fn deep_view(&self) -> FieldsView {
        match self {
            Fields::Named(fields) => FieldsView::Named(fields.deep_view()),
            Fields::Unnamed(types) => FieldsView::Unnamed(types.deep_view()),
            Fields::Unit => FieldsView::Unit,
        }
    }
}

impl FieldsView {
    /// The fields are a tuple of exactly one element.
    pub open spec fn is_single(self) -> bool {
        self matches FieldsView::Unnamed(types) && types.len() == 1
    }

    /// The type of the one element of such a tuple.
    pub open spec fn single(self) -> TypeExprView
        recommends
            self.is_single(),
    {
        self->Unnamed_0[0]
    }
}

/// A variant of the enum.
#[derive(Debug, PartialEq, Eq)]
pub struct Variant {
    pub ident: String,
    pub attrs: Vec<Attribute>,
    pub fields: Fields,
}

/// What a generic parameter stands for.
#[derive(Clone, Copy, PartialEq, Eq, Structural, Debug)]
pub enum ParamKind {
    Lifetime,
    Type,
    Const,
}

/// A generic parameter of the enum.
#[derive(Debug, PartialEq, Eq)]
pub struct GenericParam {
    pub kind: ParamKind,
    /// The parameter's name; a lifetime's name starts with `'`.
    pub ident: String,
    /// The parameter as declared, bounds included.
    pub tokens: String,
}

pub struct GenericParamView {
    pub kind: ParamKind,
    pub ident: Seq<char>,
    pub tokens: Seq<char>,
}

impl DeepView for GenericParam {
    type V = GenericParamView;

    open spec fn deep_view(&self) -> GenericParamView {
        GenericParamView { kind: self.kind, ident: self.ident@, tokens: self.tokens@ }
    }
}

/// The generics of the enum.
#[derive(Debug, PartialEq, Eq)]
pub struct Generics {
    pub params: Vec<GenericParam>,
    /// The `where` clause, where there is one.
    pub where_clause: Option<String>,
}

/// What was declared under the derive.
#[derive(Debug, PartialEq, Eq)]
pub enum Body {
    Enum(Vec<Variant>),
    Struct,
    Union,
}

/// The item that the derive stands on.
#[derive(Debug, PartialEq, Eq)]
pub struct Declaration {
    pub ident: String,
    /// The visibility as written; empty for a private item.
    pub vis: String,
    pub generics: Generics,
    pub attrs: Vec<Attribute>,
    pub body: Body,
}

/// A vector that got one more item views as before, with the item's view added.
pub proof fn lemma_pushed<T: DeepView>(before: Vec<T>, after: Vec<T>, item: T)
    requires
        after@ == before@.push(item),
    ensures
        after.deep_view() == before.deep_view().push(item.deep_view()),
{
    assert(after.deep_view() =~= before.deep_view().push(item.deep_view()));
}

/// The view of a result whose two sides have views.
pub open spec fn result_view<T: DeepView, E: DeepView>(r: Result<T, E>) -> Result<T::V, E::V> {
    match r {
        Ok(value) => Ok(value.deep_view()),
        Err(error) => Err(error.deep_view()),
    }
}

} // verus!

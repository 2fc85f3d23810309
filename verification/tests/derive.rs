use derive_error_chain::syntax::{
    Attribute, Body as Declared, Declaration, Delimiter, Fields, GenericParam, Generics, MetaItem,
    NamedField, ParamKind, Path, PathSegment, TokenKind, TokenTree, TypeExpr, Variant,
};
use quote::ToTokens;

fn text<T: ToTokens>(node: &T) -> String {
    node.into_tokens().to_string()
}

fn path(path: &syn::Path) -> Path {
    Path {
        global: path.global(),
        segments: path
            .segments
            .iter()
            .map(|segment| PathSegment {
                ident: segment.ident.to_string(),
                bare: segment.arguments.is_empty(),
            })
            .collect(),
    }
}

fn type_expr(ty: &syn::Type) -> TypeExpr {
    TypeExpr {
        tokens: text(ty),
        path: match *ty {
            syn::Type::Path(ref ty) => Some(path(&ty.path)),
            _ => None,
        },
    }
}

fn token_tree(tree: proc_macro2::TokenTree) -> TokenTree {
    let text = text(&tree);
    let kind = match tree {
        proc_macro2::TokenTree::Group(group) => TokenKind::Group(
            match group.delimiter() {
                proc_macro2::Delimiter::Parenthesis => Delimiter::Parenthesis,
                proc_macro2::Delimiter::Brace => Delimiter::Brace,
                proc_macro2::Delimiter::Bracket => Delimiter::Bracket,
                proc_macro2::Delimiter::None => Delimiter::Invisible,
            },
            token_trees(group.stream()),
        ),
        proc_macro2::TokenTree::Term(_) => TokenKind::Term,
        proc_macro2::TokenTree::Op(op) => TokenKind::Op(match op.spacing() {
            proc_macro2::Spacing::Joint => true,
            proc_macro2::Spacing::Alone => false,
        }),
        proc_macro2::TokenTree::Literal(_) => TokenKind::Literal,
    };
    TokenTree { kind, text }
}

fn token_trees(stream: proc_macro2::TokenStream) -> Vec<TokenTree> {
    stream.into_iter().map(token_tree).collect()
}

fn meta_item(nested: syn::NestedMeta) -> MetaItem {
    match nested {
        syn::NestedMeta::Meta(syn::Meta::Word(ident)) => MetaItem::Word(ident.to_string()),
        syn::NestedMeta::Meta(syn::Meta::NameValue(syn::MetaNameValue {
            ident,
            lit: syn::Lit::Str(value),
            ..
        })) => MetaItem::NameStr(ident.to_string(), value.value()),
        syn::NestedMeta::Meta(syn::Meta::NameValue(syn::MetaNameValue {
            ident,
            lit: syn::Lit::Bool(syn::LitBool { value, .. }),
            ..
        })) => MetaItem::NameBool(ident.to_string(), value),
        syn::NestedMeta::Meta(syn::Meta::NameValue(syn::MetaNameValue { ident, .. })) => {
            MetaItem::NameOther(ident.to_string())
        }
        syn::NestedMeta::Meta(syn::Meta::List(syn::MetaList { ident, .. })) => {
            MetaItem::NameOther(ident.to_string())
        }
        syn::NestedMeta::Literal(_) => MetaItem::Other,
    }
}

fn attribute(attr: &syn::Attribute) -> Attribute {
    Attribute {
        path: path(&attr.path),
        meta: match attr.interpret_meta() {
            Some(syn::Meta::List(syn::MetaList { nested, .. })) => {
                Some(nested.into_iter().map(meta_item).collect())
            }
            _ => None,
        },
        tts: token_trees(attr.tts.clone()),
    }
}

fn fields(fields: &syn::Fields) -> Fields {
    match *fields {
        syn::Fields::Named(syn::FieldsNamed { ref named, .. }) => Fields::Named(
            named
                .iter()
                .map(|field| NamedField {
                    ident: field.ident.as_ref().unwrap().to_string(),
                    ty: type_expr(&field.ty),
                })
                .collect(),
        ),
        syn::Fields::Unnamed(syn::FieldsUnnamed { ref unnamed, .. }) => {
            Fields::Unnamed(unnamed.iter().map(|field| type_expr(&field.ty)).collect())
        }
        syn::Fields::Unit => Fields::Unit,
    }
}

fn variant(variant: &syn::Variant) -> Variant {
    Variant {
        ident: variant.ident.to_string(),
        attrs: variant.attrs.iter().map(attribute).collect(),
        fields: fields(&variant.fields),
    }
}

fn generic_param(param: &syn::GenericParam) -> GenericParam {
    let (kind, ident) = match *param {
        syn::GenericParam::Type(ref param) => (ParamKind::Type, param.ident.to_string()),
        syn::GenericParam::Lifetime(ref param) => (ParamKind::Lifetime, text(&param.lifetime)),
        syn::GenericParam::Const(ref param) => (ParamKind::Const, param.ident.to_string()),
    };
    GenericParam { kind, ident, tokens: text(param) }
}

fn declaration(source: &str) -> Declaration {
    let ast: syn::DeriveInput = syn::parse_str(source).unwrap();
    Declaration {
        ident: ast.ident.to_string(),
        vis: text(&ast.vis),
        generics: Generics {
            params: ast.generics.params.iter().map(generic_param).collect(),
            where_clause: ast.generics.where_clause.as_ref().map(text),
        },
        attrs: ast.attrs.iter().map(attribute).collect(),
        body: match ast.data {
            syn::Data::Enum(syn::DataEnum { ref variants, .. }) => {
                Declared::Enum(variants.iter().map(variant).collect())
            }
            syn::Data::Struct(_) => Declared::Struct,
            syn::Data::Union(_) => Declared::Union,
        },
    }
}

use derive_error_chain::chain::{
    display_underlying_error, finds_cause, iterates, option_chain_err, own_result_chain_err,
    result_chain_err, Backtrace, Error, ErrorKind, ForeignError,
    ForeignErrorCause, Shown, SiblingError, Source, State,
};
use derive_error_chain::derive_error_chain;
use derive_error_chain::error::ExpansionError;
use derive_error_chain::expand::Expansion;
use derive_error_chain::plan::{Argument, Binding, Body, Call, Case, FromImpl, Pattern};
use derive_error_chain::syntax::Expression;

fn expand(source: &str) -> Expansion {
    derive_error_chain(declaration(source)).unwrap()
}

fn refusal(source: &str) -> String {
    match derive_error_chain(declaration(source)) {
        Ok(_) => panic!("the declaration was expanded"),
        Err(ExpansionError { message }) => message,
    }
}

fn one(name: &str) -> Pattern {
    Pattern::Tuple(vec![Binding::Ref(name.to_string())])
}

fn bound(names: &[&str]) -> Vec<Binding> {
    names.iter().map(|name| Binding::Ref(name.to_string())).collect()
}

fn case(variant: &str, pattern: Pattern, body: Body) -> Case {
    Case { variant: variant.to_string(), pattern, body }
}

fn call(tokens: &str, is_closure: bool, args: &[&str]) -> Call {
    Call {
        callee: Expression { tokens: tokens.to_string(), is_closure },
        args: args.iter().map(|arg| arg.to_string()).collect(),
    }
}

fn named_type(tokens: &str, segments: &[&str]) -> TypeExpr {
    TypeExpr {
        tokens: tokens.to_string(),
        path: Some(Path {
            global: false,
            segments: segments
                .iter()
                .map(|segment| PathSegment { ident: segment.to_string(), bare: true })
                .collect(),
        }),
    }
}

fn shown_text(shown: Option<Shown>) -> String {
    match shown {
        Some(Shown::Text(text)) => text,
        other => panic!("no text: {:?}", other),
    }
}

fn msg_description() -> Case {
    case("Msg", one("s"), Body::Held("s".to_string()))
}

fn msg_display() -> Case {
    case("Msg", one("s"), Body::Display("s".to_string()))
}

fn foreign_error() -> ForeignError {
    ForeignError {
        description: "Foreign error description".to_string(),
        display: "Foreign error display".to_string(),
        cause: Some(foreign_error_cause()),
    }
}

fn foreign_error_cause() -> ForeignErrorCause {
    ForeignErrorCause {
        description: "Foreign error cause description".to_string(),
        display: "Foreign error cause display".to_string(),
    }
}

const FOREIGN_LINKS: &str = r#"
    #[derive(Debug, ErrorChain)]
    pub enum ErrorKind {
        Msg(String),

        #[error_chain(foreign)]
        Foreign(ForeignError),

        #[error_chain(foreign)]
        Io(::std::io::Error),
    }
"#;

fn http_status_description(_: &u32) -> &str {
    "http request returned an unsuccessful status code"
}

fn http_status_display(e: &u32) -> String {
    format!("http request returned an unsuccessful status code: {}", e)
}

#[test]
fn smoke_test_1() {
    let expansion = expand(
        r#"
        #[derive(Debug, ErrorChain)]
        #[error_chain(error = "Error", result_ext = "ResultExt", result = "Result")]
        pub enum ErrorKind {
            Msg(String),
        }
        "#,
    );
    assert_eq!(expansion.properties.error_kind_name, "ErrorKind");
    assert_eq!(expansion.properties.error_kind_vis, "pub");
    assert_eq!(expansion.properties.error_name, "Error");
    assert_eq!(expansion.properties.result_ext_name, "ResultExt");
    assert_eq!(expansion.properties.result_name, Some("Result".to_string()));
    assert_eq!(expansion.properties.error_chain_name, "Error_error_chain");
    assert!(expansion.properties.support_backtrace);
}

#[test]
fn smoke_test_2() {
    let expansion = expand(
        r#"
        #[derive(Debug, ErrorChain)]
        pub enum ErrorKind {
            Msg(String),
        }
        "#,
    );
    assert_eq!(expansion.properties.error_name, "Error");
    assert_eq!(expansion.properties.result_ext_name, "ResultExt");
    assert_eq!(expansion.properties.result_name, Some("Result".to_string()));
    assert_eq!(expansion.properties.error_chain_name, "Error_error_chain");
    assert!(expansion.properties.support_backtrace);
    assert_eq!(expansion.error_kind_description_cases, vec![msg_description()]);
    assert_eq!(expansion.error_kind_display_cases, vec![msg_display()]);
    assert_eq!(expansion.error_kind_from_impls, vec![FromImpl::Message("Msg".to_string())]);
    assert_eq!(expansion.error_from_impls, vec![FromImpl::Message("Msg".to_string())]);
    assert_eq!(expansion.error_cause_cases, vec![]);
    assert_eq!(expansion.extract_backtrace, Some(vec![]));
    assert_eq!(expansion.params, vec![]);
    assert_eq!(expansion.where_clause, None);
    assert_eq!(
        expansion.lifetime_params,
        vec![GenericParam {
            kind: ParamKind::Lifetime,
            ident: "'__a".to_string(),
            tokens: "'__a".to_string(),
        }]
    );
    assert_eq!(
        expansion.result_params,
        vec![GenericParam {
            kind: ParamKind::Type,
            ident: "__T".to_string(),
            tokens: "__T".to_string(),
        }]
    );
    assert_eq!(
        expansion.result_ext_params,
        vec![
            GenericParam {
                kind: ParamKind::Type,
                ident: "__T".to_string(),
                tokens: "__T".to_string(),
            },
            GenericParam {
                kind: ParamKind::Type,
                ident: "__E".to_string(),
                tokens: "__E: ::std::error::Error + ::std::marker::Send + 'static".to_string(),
            },
        ]
    );
    assert_eq!(
        expansion.error_doc_comment,
        "The Error type.\n\nThis struct is made of three things:\n\n- `ErrorKind` which is used to determine the type of the error.\n- a backtrace, generated when the error is created.\n- an error chain, used for the implementation of `Error::cause()`."
    );
    assert_eq!(
        expansion.result_ext_chain_err_doc_comment,
        "If the `Result` is an `Err` then `chain_err` evaluates the closure, which returns *some type that can be converted to `ErrorKind`*, boxes the original error to store as the cause, then returns a new error containing the original error."
    );
}

#[test]
fn smoke_test_4() {
    let expansion = expand(
        r#"
        #[derive(Debug, ErrorChain)]
        pub enum ErrorKind {
            Msg(String),

            #[error_chain(custom, description = "http_status_description", display = "http_status_display")]
            HttpStatus(u32),
        }
        "#,
    );
    assert_eq!(
        expansion.error_kind_description_cases[1],
        case(
            "HttpStatus",
            Pattern::Tuple(bound(&["value0"])),
            Body::Function(call("http_status_description", false, &["value0"])),
        )
    );
    assert_eq!(
        expansion.error_kind_display_cases[1],
        case(
            "HttpStatus",
            Pattern::Tuple(bound(&["value0"])),
            Body::Function(call("http_status_display", false, &["f", "value0"])),
        )
    );

    let err = Error::from_kind(ErrorKind::Custom { variant: "HttpStatus".to_string() }, None);
    let value = 5;
    let description = match expansion.description(err.kind()) {
        Some(Shown::Call(ref function)) if function == "http_status_description" => {
            http_status_description(&value).to_string()
        }
        other => panic!("{:?}", other),
    };
    let display = match expansion.display(err.kind()) {
        Some(Shown::Call(ref function)) if function == "http_status_display" => {
            http_status_display(&value)
        }
        other => panic!("{:?}", other),
    };
    assert_eq!("http request returned an unsuccessful status code", description);
    assert_eq!("http request returned an unsuccessful status code: 5".to_string(), display);
}

#[test]
fn smoke_test_8() {
    let expansion = expand(
        r#"
        #[derive(Debug, ErrorChain)]
        pub enum ErrorKind {
            Msg(String),

            #[error_chain(custom)]
            FileNotFound,

            #[error_chain(custom)]
            AccessDenied,
        }
        "#,
    );
    assert_eq!(
        expansion.error_kind_description_cases,
        vec![
            msg_description(),
            case("FileNotFound", Pattern::Unit, Body::VariantName),
            case("AccessDenied", Pattern::Unit, Body::VariantName),
        ]
    );
    assert_eq!(
        expansion.error_kind_display_cases,
        vec![
            msg_display(),
            case("FileNotFound", Pattern::Unit, Body::DisplayDescription),
            case("AccessDenied", Pattern::Unit, Body::DisplayDescription),
        ]
    );
    let kind = ErrorKind::Custom { variant: "AccessDenied".to_string() };
    assert_eq!(shown_text(expansion.description(&kind)), "AccessDenied");
    assert_eq!(shown_text(expansion.display(&kind)), "AccessDenied");
}

#[test]
fn chain_err() {
    let expansion = expand(
        r#"
        #[derive(Debug, ErrorChain)]
        pub enum ErrorKind {
            Msg(String),

            #[error_chain(custom)]
            Test,
        }
        "#,
    );
    let formatting = ForeignErrorCause {
        description: "an error occurred when formatting".to_string(),
        display: "an error occurred when formatting an argument".to_string(),
    };
    let chained = Error {
        kind: expansion.kind_from_text("".to_string()).unwrap(),
        state: State { next_errors: vec![Source::Leaf(formatting)], backtrace: None },
    };
    assert_eq!(
        expansion.iter(&chained),
        vec![
            Some(Shown::Text("".to_string())),
            Some(Shown::Text("an error occurred when formatting an argument".to_string())),
        ]
    );

    let test = Error::from_kind(ErrorKind::Custom { variant: "Test".to_string() }, None);
    let chained = test.chain_err(expansion.kind_from_text("".to_string()).unwrap(), None);
    assert_eq!(chained.kind, ErrorKind::Msg("".to_string()));
    assert_eq!(
        chained.state.next_errors,
        vec![Source::Wrapped(ErrorKind::Custom { variant: "Test".to_string() }, None)]
    );
    assert_eq!(
        expansion.iter(&chained),
        vec![Some(Shown::Text("".to_string())), Some(Shown::Text("Test".to_string()))]
    );
}

#[test]
fn links() {
    let expansion = expand(
        r#"
        #[derive(Debug, ErrorChain)]
        pub enum ErrorKind {
            Msg(String),

            #[error_chain(link = "test::Error")]
            Test(test::ErrorKind),
        }
        "#,
    );
    assert_eq!(
        expansion.error_kind_description_cases[1],
        case("Test", one("kind"), Body::KindDescription("kind".to_string()))
    );
    assert_eq!(
        expansion.error_kind_display_cases[1],
        case("Test", one("kind"), Body::Display("kind".to_string()))
    );
    assert_eq!(
        expansion.error_kind_from_impls,
        vec![
            FromImpl::Message("Msg".to_string()),
            FromImpl::Kind(
                "Test".to_string(),
                named_type("test :: ErrorKind", &["test", "ErrorKind"])
            ),
        ]
    );
    assert_eq!(
        expansion.error_from_impls,
        vec![
            FromImpl::Message("Msg".to_string()),
            FromImpl::Sibling("Test".to_string(), named_type("test :: Error", &["test", "Error"])),
        ]
    );
    assert_eq!(expansion.error_cause_cases, vec![]);
    assert_eq!(
        expansion.extract_backtrace,
        Some(vec![named_type("test :: Error", &["test", "Error"])])
    );
}

#[test]
fn foreign_link_display_underlying_error() {
    let expansion = expand(FOREIGN_LINKS);
    let chained_error = try_foreign_error(&expansion);
    assert_eq!(foreign_error().display, shown_text(expansion.display(chained_error.kind())));
    assert_eq!(
        display_underlying_error(&expansion, "Foreign", foreign_error()),
        Some(Shown::Text("Foreign error display".to_string()))
    );
}

#[test]
fn foreign_link_finds_cause() {
    let expansion = expand(FOREIGN_LINKS);
    let chained_error = try_foreign_error(&expansion);
    assert_eq!(expansion.cause(&chained_error), Some(Source::Leaf(foreign_error_cause())));
    assert_eq!(
        finds_cause(&expansion, "Foreign", foreign_error()),
        Some(Source::Leaf(foreign_error_cause()))
    );
}

#[test]
fn foreign_link_iterates() {
    let expansion = expand(FOREIGN_LINKS);
    let chained_error = try_foreign_error(&expansion);
    let shown = expansion.iter(&chained_error);
    let mut error_iter = shown.iter();
    assert_eq!(
        Some(&Some(Shown::Text("Foreign error display".to_string()))),
        error_iter.next()
    );
    assert_eq!(
        Some(&Some(Shown::Text("Foreign error cause display".to_string()))),
        error_iter.next()
    );
    assert_eq!(None, error_iter.next());
    assert_eq!(iterates(&expansion, "Foreign", foreign_error()), shown);
}

fn try_foreign_error(expansion: &Expansion) -> Error {
    expansion.error_from_foreign("Foreign", foreign_error(), None).unwrap()
}

#[test]
fn foreign_link_arms() {
    let expansion = expand(FOREIGN_LINKS);
    assert_eq!(
        expansion.error_kind_description_cases[1],
        case("Foreign", one("err"), Body::ErrorDescription("err".to_string()))
    );
    assert_eq!(
        expansion.error_kind_display_cases[2],
        case("Io", one("err"), Body::Display("err".to_string()))
    );
    assert_eq!(
        expansion.error_cause_cases,
        vec![
            case("Foreign", one("err"), Body::ErrorCause("err".to_string())),
            case("Io", one("err"), Body::ErrorCause("err".to_string())),
        ]
    );
    assert_eq!(expansion.error_kind_from_impls, vec![FromImpl::Message("Msg".to_string())]);
    assert_eq!(
        expansion.error_from_impls,
        vec![
            FromImpl::Message("Msg".to_string()),
            FromImpl::Foreign(
                "Foreign".to_string(),
                named_type("ForeignError", &["ForeignError"])
            ),
            FromImpl::Foreign(
                "Io".to_string(),
                TypeExpr {
                    tokens: ":: std :: io :: Error".to_string(),
                    path: Some(Path {
                        global: true,
                        segments: vec![
                            PathSegment { ident: "std".to_string(), bare: true },
                            PathSegment { ident: "io".to_string(), bare: true },
                            PathSegment { ident: "Error".to_string(), bare: true },
                        ],
                    }),
                }
            ),
        ]
    );
    assert_eq!(expansion.extract_backtrace, Some(vec![]));
    assert_eq!(
        shown_text(expansion.description(&ErrorKind::Foreign {
            variant: "Foreign".to_string(),
            error: foreign_error(),
        })),
        "Foreign error description"
    );
}

#[test]
fn attributes_are_passed_over() {
    let expansion = expand(
        r#"
        #[derive(Debug, ErrorChain)]
        pub enum ErrorKind {
            Msg(String),

            #[cfg(foo)]
            #[error_chain(link = "inner::Error")]
            Inner(inner::ErrorKind),

            #[cfg(foo)]
            #[error_chain(foreign)]
            Io(io::Error),

            #[cfg(foo)]
            #[error_chain(custom)]
            AnError,
        }
        "#,
    );
    assert_eq!(expansion.error_kind_description_cases.len(), 4);
    assert_eq!(
        expansion.error_kind_description_cases[3],
        case("AnError", Pattern::Unit, Body::VariantName)
    );
}

#[test]
fn with_result() {
    let expansion = expand(
        r#"
        #[derive(Debug, ErrorChain)]
        pub enum ErrorKind {
            Msg(String),
        }
        "#,
    );
    assert_eq!(expansion.properties.result_name, Some("Result".to_string()));
}

#[test]
fn without_result() {
    let expansion = expand(
        r#"
        #[derive(Debug, ErrorChain)]
        #[error_chain(result = "")]
        pub enum ErrorKind {
            Msg(String),
        }
        "#,
    );
    assert_eq!(expansion.properties.result_name, None);
    assert_eq!(expansion.properties.error_name, "Error");
}

#[test]
fn documentation() {
    let expansion = expand(
        r#"
        #[derive(Debug, ErrorChain)]
        pub enum ErrorKind {
            Msg(String),

            /// Doc
            #[error_chain(link = "inner::Error")]
            Inner(inner::ErrorKind),

            /// Doc
            #[error_chain(foreign)]
            Io(::std::io::Error),

            /// Doc
            #[error_chain(custom)]
            Variant,
        }
        "#,
    );
    let variants: Vec<&str> = expansion
        .error_kind_description_cases
        .iter()
        .map(|case| case.variant.as_str())
        .collect();
    assert_eq!(variants, vec!["Msg", "Inner", "Io", "Variant"]);
    let variants: Vec<&str> =
        expansion.error_kind_display_cases.iter().map(|case| case.variant.as_str()).collect();
    assert_eq!(variants, vec!["Msg", "Inner", "Io", "Variant"]);
}

#[test]
fn multiple_error_same_mod() {
    let expansion = expand(
        r#"
        #[derive(Debug, ErrorChain)]
        #[error_chain(error = "MyError", result_ext = "MyResultExt", result = "MyResult")]
        pub enum MyErrorKind {
            Msg(String),
        }
        "#,
    );
    assert_eq!(expansion.properties.error_kind_name, "MyErrorKind");
    assert_eq!(expansion.properties.error_name, "MyError");
    assert_eq!(expansion.properties.result_ext_name, "MyResultExt");
    assert_eq!(expansion.properties.result_name, Some("MyResult".to_string()));
    assert_eq!(expansion.properties.error_chain_name, "MyError_error_chain");
    assert_eq!(
        expansion.error_doc_comment,
        "The Error type.\n\nThis struct is made of three things:\n\n- `MyErrorKind` which is used to determine the type of the error.\n- a backtrace, generated when the error is created.\n- an error chain, used for the implementation of `Error::cause()`."
    );
}

#[test]
fn rustup_regression() {
    let expansion = expand(
        r##"
        #[derive(Debug, ErrorChain)]
        pub enum ErrorKind {
            Msg(String),

            #[error_chain(link = "mock::Error")]
            Download(mock::ErrorKind),

            #[error_chain(custom)]
            #[error_chain(description = r#"|| "could not locate working directory""#)]
            LocatingWorkingDir,
        }
        "##,
    );
    assert_eq!(
        expansion.error_kind_description_cases[2],
        case(
            "LocatingWorkingDir",
            Pattern::Unit,
            Body::Closure(call("| | \"could not locate working directory\"", true, &[])),
        )
    );
    assert_eq!(
        expansion.error_kind_display_cases[2],
        case("LocatingWorkingDir", Pattern::Unit, Body::DisplayDescription)
    );
    let sibling = SiblingError {
        description: "sibling description".to_string(),
        display: "sibling display".to_string(),
        state: State {
            next_errors: vec![Source::Leaf(foreign_error_cause())],
            backtrace: Some(Backtrace { id: 7 }),
        },
    };
    let error = expansion.error_from_sibling("Download", sibling).unwrap();
    assert_eq!(shown_text(expansion.description(error.kind())), "sibling description");
    assert_eq!(shown_text(expansion.display(error.kind())), "sibling display");
    assert_eq!(error.backtrace(), Some(Backtrace { id: 7 }));
    assert_eq!(expansion.cause(&error), Some(Source::Leaf(foreign_error_cause())));
}

#[test]
fn error_patterns() {
    let expansion = expand(
        r#"
        #[derive(Debug, ErrorChain)]
        pub enum ErrorKind {
            Msg(String),
        }
        "#,
    );
    let kind = expansion.kind_from_text("Test".to_string()).unwrap();
    match Error::from_kind(kind, None) {
        Error { kind: ErrorKind::Msg(_), state: _ } => {}
        other => panic!("{:?}", other),
    }
}

#[test]
fn rewrapping() {
    let expansion = expand(
        r#"
        #[derive(Debug, ErrorChain)]
        #[error_chain(error = "MyError", result_ext = "MyResultExt", result = "MyResult")]
        pub enum MyErrorKind {
            Msg(String),

            #[error_chain(foreign)]
            VarErr(VarError),
        }
        "#,
    );
    assert_eq!(expansion.properties.error_name, "MyError");
    let not_present = || ForeignError {
        description: "environment variable not found".to_string(),
        display: "environment variable not found".to_string(),
        cause: None,
    };
    let our_error_a = Error {
        kind: expansion.kind_from_text("env var wasn't provided".to_string()).unwrap(),
        state: State { next_errors: vec![Source::Foreign(not_present())], backtrace: None },
    };
    let our_error_b = Error {
        kind: expansion.kind_from_text("env var wasn't provided".to_string()).unwrap(),
        state: State {
            next_errors: vec![Source::Foreign(not_present())],
            backtrace: Some(Backtrace { id: 1 }),
        },
    };
    assert_eq!(expansion.display(our_error_a.kind()), expansion.display(our_error_b.kind()));
    assert_eq!(shown_text(expansion.display(our_error_a.kind())), "env var wasn't provided");
    assert_eq!(
        expansion.iter(&our_error_a),
        vec![
            Some(Shown::Text("env var wasn't provided".to_string())),
            Some(Shown::Text("environment variable not found".to_string())),
        ]
    );
}

#[test]
fn public_api_test() {
    let expansion = expand(
        r#"
        #[derive(Debug, ErrorChain)]
        pub enum ErrorKind {
            Msg(String),

            #[error_chain(custom)]
            HttpStatus(u32),
        }
        "#,
    );
    assert_eq!(
        expansion.error_kind_description_cases[1],
        case("HttpStatus", Pattern::TupleRest, Body::VariantName)
    );
    let err = Error::from_kind(ErrorKind::Custom { variant: "HttpStatus".to_string() }, None);
    let chained =
        err.chain_err(expansion.kind_from_text("An HTTP error occurred".to_string()).unwrap(), None);
    assert_eq!(
        expansion.iter(&chained),
        vec![
            Some(Shown::Text("An HTTP error occurred".to_string())),
            Some(Shown::Text("HttpStatus".to_string())),
        ]
    );
}

#[test]
fn cause() {
    let expansion = expand(
        r#"
        #[derive(Debug, ErrorChain)]
        pub enum ErrorKind {
            Msg(String),

            #[error_chain(custom)]
            #[error_chain(cause = "file_io_error_cause")]
            FileIO(::std::path::PathBuf, ::std::io::Error),
        }
        "#,
    );
    assert_eq!(
        expansion.error_cause_cases,
        vec![case(
            "FileIO",
            Pattern::Tuple(bound(&["value0", "value1"])),
            Body::Function(call("file_io_error_cause", false, &["value0", "value1"])),
        )]
    );
    let err = Error::from_kind(ErrorKind::Custom { variant: "FileIO".to_string() }, None);
    assert!(expansion.cause(&err).is_some());
    assert_eq!(expansion.cause(&err), Some(Source::Computed("file_io_error_cause".to_string())));
}

#[test]
fn inlined_description_and_display_and_cause() {
    let expansion = expand(
        r##"
        #[derive(Debug, ErrorChain)]
        pub enum ErrorKind {
            Msg(String),

            #[error_chain(custom)]
            #[error_chain(description = r#"|_| "http request returned an unsuccessful status code""#)]
            #[error_chain(display = r#"|e| write!(f, "http request returned an unsuccessful status code: {}", e)"#)]
            HttpStatus(u32),

            #[error_chain(custom)]
            #[error_chain(cause = "|_, err| err")]
            FileIO(::std::path::PathBuf, ::std::io::Error),
        }
        "##,
    );
    assert_eq!(
        expansion.error_kind_description_cases[1],
        case(
            "HttpStatus",
            Pattern::Tuple(bound(&["value0"])),
            Body::Closure(call(
                "| _ | \"http request returned an unsuccessful status code\"",
                true,
                &["value0"]
            )),
        )
    );
    assert_eq!(
        expansion.error_kind_display_cases[1],
        case(
            "HttpStatus",
            Pattern::Tuple(bound(&["value0"])),
            Body::Closure(call(
                "| e | write ! ( f , \"http request returned an unsuccessful status code: {}\" , e )",
                true,
                &["value0"]
            )),
        )
    );
    assert_eq!(
        expansion.error_cause_cases,
        vec![case(
            "FileIO",
            Pattern::Tuple(bound(&["value0", "value1"])),
            Body::Closure(call("| _ , err | err", true, &["value0", "value1"])),
        )]
    );
    let err = Error::from_kind(ErrorKind::Custom { variant: "FileIO".to_string() }, None);
    assert!(expansion.cause(&err).is_some());
    let err = Error::from_kind(ErrorKind::Custom { variant: "HttpStatus".to_string() }, None);
    assert!(expansion.cause(&err).is_none());
}

#[test]
fn generics_test() {
    let expansion = expand(
        r##"
        #[derive(Debug, ErrorChain)]
        pub enum ErrorKind<T: error::Error + Send + 'static, U>
            where U: Send + fmt::Debug + fmt::Display + 'static {
            Msg(String),

            #[error_chain(custom)]
            #[error_chain(description = r#"|_| "custom error""#)]
            #[error_chain(display = r#"|t| write!(f, "custom error: {}", t)"#)]
            Custom(String),

            #[error_chain(custom)]
            #[error_chain(description = r#"|_| "custom generic error""#)]
            #[error_chain(display = r#"|t| write!(f, "custom generic error: {}", t)"#)]
            CustomGeneric(T),

            #[error_chain(custom)]
            #[error_chain(description = r#"|_| "custom generic boxed error""#)]
            #[error_chain(display = r#"|t| write!(f, "custom generic boxed error: {}", t)"#)]
            CustomGenericBoxed(Box<U>),

            #[error_chain(link = "inner1::Error<U>")]
            LinkGeneric(inner1::ErrorKind<U>),

            #[error_chain(link = "inner2::Error")]
            Link(inner2::ErrorKind),

            #[error_chain(foreign)]
            ForeignGeneric(T),

            #[error_chain(foreign)]
            ForeignGenericBoxed(Box<T>),

            #[error_chain(foreign)]
            Foreign(io::Error),
        }
        "##,
    );
    let own: Vec<(ParamKind, &str, &str)> = expansion
        .params
        .iter()
        .map(|param| (param.kind, param.ident.as_str(), param.tokens.as_str()))
        .collect();
    assert_eq!(
        own,
        vec![
            (ParamKind::Type, "T", "T : error :: Error + Send + 'static"),
            (ParamKind::Type, "U", "U"),
        ]
    );
    assert_eq!(
        expansion.where_clause,
        Some("where U : Send + fmt :: Debug + fmt :: Display + 'static".to_string())
    );
    let names = |params: &Vec<GenericParam>| -> Vec<String> {
        params.iter().map(|param| param.ident.clone()).collect()
    };
    assert_eq!(names(&expansion.lifetime_params), vec!["'__a", "T", "U"]);
    assert_eq!(names(&expansion.result_params), vec!["T", "U", "__T"]);
    assert_eq!(names(&expansion.result_ext_params), vec!["T", "U", "__T", "__E"]);

    let converted: Vec<&str> = expansion
        .error_from_impls
        .iter()
        .map(|conversion| match *conversion {
            FromImpl::Message(ref variant)
            | FromImpl::Kind(ref variant, _)
            | FromImpl::Sibling(ref variant, _)
            | FromImpl::Foreign(ref variant, _) => variant.as_str(),
        })
        .collect();
    assert_eq!(converted, vec!["Msg", "LinkGeneric", "Link", "ForeignGenericBoxed", "Foreign"]);
    let looked_in: Vec<String> = expansion
        .extract_backtrace
        .unwrap()
        .iter()
        .map(|error| error.tokens.clone())
        .collect();
    assert_eq!(looked_in, vec!["inner1 :: Error < U >", "inner2 :: Error"]);
    let causes: Vec<&str> =
        expansion.error_cause_cases.iter().map(|case| case.variant.as_str()).collect();
    assert_eq!(causes, vec!["ForeignGeneric", "ForeignGenericBoxed", "Foreign"]);
}

#[test]
fn test_without_msg_1() {
    let expansion = expand(
        r#"
        #[derive(Debug, ErrorChain)]
        pub enum ErrorKind {
            #[error_chain(custom)]
            HttpStatus(u32),
        }
        "#,
    );
    assert_eq!(
        expansion.error_kind_description_cases,
        vec![case("HttpStatus", Pattern::TupleRest, Body::VariantName)]
    );
}

#[test]
fn test_without_msg_2() {
    let expansion = expand(
        r#"
        #[derive(Debug, ErrorChain)]
        pub enum ErrorKind {
            #[error_chain(custom)]
            HttpStatus(u32),
        }
        "#,
    );
    assert_eq!(expansion.error_kind_from_impls, vec![]);
    assert_eq!(expansion.error_from_impls, vec![]);
    assert_eq!(expansion.kind_from_text("text".to_string()), None);
}

#[test]
fn macro_conflicts() {
    let expansion = expand(
        r#"
        #[derive(Debug, ErrorChain)]
        #[error_chain(result = "MyResult")]
        pub enum ErrorKind {
            Msg(String),

            #[error_chain(custom)]
            Code(i32),
        }
        "#,
    );
    assert_eq!(expansion.properties.result_name, Some("MyResult".to_string()));
    assert_eq!(expansion.properties.error_name, "Error");
    let err = Error::from_kind(expansion.kind_from_text("failed".to_string()).unwrap(), None);
    match *err.kind() {
        ErrorKind::Msg(ref s) if s == "failed" => (),
        _ => unreachable!(),
    }
}

#[test]
fn need_not_be_pub() {
    let expansion = expand(
        r#"
        #[derive(Debug, ErrorChain)]
        enum ErrorKind {
            Msg(String),
        }
        "#,
    );
    assert_eq!(expansion.properties.error_kind_vis, "");
}

#[test]
fn lambda_description_and_display_and_cause() {
    let expansion = expand(
        r#"
        #[derive(Debug, ErrorChain)]
        pub enum ErrorKind {
            Msg(String),

            #[error_chain(custom)]
            #[error_chain(description = |_| "http request returned an unsuccessful status code")]
            #[error_chain(display = |e| write!(f, "http request returned an unsuccessful status code: {}", e))]
            HttpStatus(u32),

            #[error_chain(custom)]
            #[error_chain(cause = |_, err| err)]
            FileIO(::std::path::PathBuf, ::std::io::Error),
        }
        "#,
    );
    assert_eq!(
        expansion.error_kind_description_cases[1],
        case(
            "HttpStatus",
            Pattern::Tuple(bound(&["value0"])),
            Body::Closure(call(
                "| _ | \"http request returned an unsuccessful status code\"",
                true,
                &["value0"]
            )),
        )
    );
    assert_eq!(
        expansion.error_kind_display_cases[1],
        case(
            "HttpStatus",
            Pattern::Tuple(bound(&["value0"])),
            Body::Closure(call(
                "| e | write ! ( f , \"http request returned an unsuccessful status code: {}\" , e )",
                true,
                &["value0"]
            )),
        )
    );
    assert_eq!(
        expansion.error_cause_cases,
        vec![case(
            "FileIO",
            Pattern::Tuple(bound(&["value0", "value1"])),
            Body::Closure(call("| _ , err | err", true, &["value0", "value1"])),
        )]
    );
    let err = Error::from_kind(ErrorKind::Custom { variant: "FileIO".to_string() }, None);
    assert!(expansion.cause(&err).is_some());
}

#[test]
fn const_format_string_tuple_variants() {
    let expansion = expand(
        r#"
        #[derive(Debug, ErrorChain)]
        pub enum ErrorKind {
            Msg(String),

            #[error_chain(link = "test::Error")]
            #[error_chain(description = const("Chainable's description"))]
            #[error_chain(display = const("Chainable's display: {0}"))]
            Chainable(test::ErrorKind),

            #[error_chain(foreign)]
            #[error_chain(description = const("Foreign's description"))]
            #[error_chain(display = const("Foreign's display: {0}"))]
            Foreign(::std::io::Error),

            #[error_chain(custom)]
            #[error_chain(description = const("Custom's description"))]
            #[error_chain(display = const("Custom's display: {0}"))]
            Custom(u32, u32),
        }
        "#,
    );
    let skip_one = || Pattern::Tuple(vec![Binding::Skip]);
    let first = || vec![Argument::Positional("value0".to_string())];
    assert_eq!(
        expansion.error_kind_description_cases,
        vec![
            msg_description(),
            case("Chainable", skip_one(), Body::Literal("Chainable's description".to_string())),
            case("Foreign", skip_one(), Body::Literal("Foreign's description".to_string())),
            case("Custom", Pattern::TupleRest, Body::Literal("Custom's description".to_string())),
        ]
    );
    assert_eq!(
        expansion.error_kind_display_cases,
        vec![
            msg_display(),
            case(
                "Chainable",
                Pattern::Tuple(bound(&["value0"])),
                Body::Write("Chainable's display: {0}".to_string(), first()),
            ),
            case(
                "Foreign",
                Pattern::Tuple(bound(&["value0"])),
                Body::Write("Foreign's display: {0}".to_string(), first()),
            ),
            case(
                "Custom",
                Pattern::Tuple(vec![Binding::Ref("value0".to_string()), Binding::Skip]),
                Body::Write("Custom's display: {0}".to_string(), first()),
            ),
        ]
    );

    let fill = |shown: Option<Shown>, value: &str| match shown {
        Some(Shown::Template(template)) => template.replace("{0}", value),
        other => panic!("{:?}", other),
    };
    let sibling = SiblingError {
        description: "foo".to_string(),
        display: "foo".to_string(),
        state: State { next_errors: vec![], backtrace: None },
    };
    let err = expansion.error_from_sibling("Chainable", sibling).unwrap();
    assert_eq!("Chainable's description", shown_text(expansion.description(err.kind())));
    assert_eq!("Chainable's display: foo".to_string(), fill(expansion.display(err.kind()), "foo"));

    let not_found = ForeignError {
        description: "entity not found".to_string(),
        display: "abcde".to_string(),
        cause: None,
    };
    let err = expansion.error_from_foreign("Foreign", not_found, None).unwrap();
    assert_eq!("Foreign's description", shown_text(expansion.description(err.kind())));
    assert_eq!("Foreign's display: abcde".to_string(), fill(expansion.display(err.kind()), "abcde"));

    let err = Error::from_kind(ErrorKind::Custom { variant: "Custom".to_string() }, None);
    assert_eq!("Custom's description", shown_text(expansion.description(err.kind())));
    assert_eq!("Custom's display: 5".to_string(), fill(expansion.display(err.kind()), "5"));
}

#[test]
fn const_format_string_struct_variants() {
    let expansion = expand(
        r#"
        #[derive(Debug, ErrorChain)]
        pub enum ErrorKind {
            Msg(String),

            #[error_chain(custom)]
            #[error_chain(description = const("Custom's description"))]
            #[error_chain(display = const("Custom's display: {code}"))]
            Custom { code: u32, extra: u32, },
        }
        "#,
    );
    assert_eq!(
        expansion.error_kind_description_cases[1],
        case("Custom", Pattern::StructRest, Body::Literal("Custom's description".to_string()))
    );
    assert_eq!(
        expansion.error_kind_display_cases[1],
        case(
            "Custom",
            Pattern::Struct(vec![
                Binding::Ref("code".to_string()),
                Binding::Renamed("extra".to_string(), "_extra".to_string()),
            ]),
            Body::Write(
                "Custom's display: {code}".to_string(),
                vec![Argument::Named("code".to_string(), "code".to_string())],
            ),
        )
    );
    let err = Error::from_kind(ErrorKind::Custom { variant: "Custom".to_string() }, None);
    assert_eq!("Custom's description", shown_text(expansion.description(err.kind())));
    let display = match expansion.display(err.kind()) {
        Some(Shown::Template(template)) => template.replace("{code}", "5"),
        other => panic!("{:?}", other),
    };
    assert_eq!("Custom's display: 5".to_string(), display);
}

#[test]
fn can_disable_backtrace() {
    let expansion = expand(
        r#"
        #[derive(Debug, ErrorChain)]
        #[error_chain(backtrace = "false")]
        pub enum ErrorKind {
            Msg(String),
        }
        "#,
    );
    assert!(!expansion.properties.support_backtrace);
    assert_eq!(expansion.extract_backtrace, None);
    let captured = Backtrace { id: 7 };
    let err = expansion.error_from_kind(ErrorKind::Msg("foo".to_string()), Some("1"), captured);
    assert!(err.backtrace().is_none());
    assert_eq!(err.kind, ErrorKind::Msg("foo".to_string()));
    assert_eq!(err.state.next_errors, vec![]);
    assert_eq!(expansion.new_backtrace(Some("full"), captured), None);
    assert_eq!(expansion.new_backtrace(None, captured), None);
}

#[test]
fn backtraces_follow_the_switch_where_left_on() {
    let expansion = expand(
        r#"
        #[derive(Debug, ErrorChain)]
        pub enum ErrorKind {
            Msg(String),
        }
        "#,
    );
    assert!(expansion.properties.support_backtrace);
    let captured = Backtrace { id: 7 };
    let made = |switch: Option<&str>| {
        expansion.error_from_kind(ErrorKind::Msg("foo".to_string()), switch, captured).backtrace()
    };
    assert_eq!(made(Some("1")), Some(captured));
    assert_eq!(made(Some("")), Some(captured));
    assert_eq!(made(Some("0")), None);
    assert_eq!(made(None), None);
}

#[test]
fn backtrace_switch_as_literal() {
    let expansion = expand(
        r#"
        #[derive(Debug, ErrorChain)]
        #[error_chain(backtrace = false)]
        pub enum ErrorKind {
            Msg(String),
        }
        "#,
    );
    assert!(!expansion.properties.support_backtrace);
    let expansion = expand(
        r#"
        #[derive(Debug, ErrorChain)]
        #[error_chain(backtrace = "false")]
        #[error_chain(backtrace = true)]
        pub enum ErrorKind {
            Msg(String),
        }
        "#,
    );
    assert!(expansion.properties.support_backtrace);
}

#[test]
fn allow_dead_code() {
    let expansion = expand(
        r#"
        #[derive(Debug, ErrorChain)]
        #[error_chain(result = "", backtrace = "false")]
        pub enum ErrorKind {
            Msg(String),
        }
        "#,
    );
    assert_eq!(expansion.properties.result_name, None);
    assert!(!expansion.properties.support_backtrace);
}

#[test]
fn unstringified_link() {
    let expansion = expand(
        r#"
        #[derive(Debug, ErrorChain)]
        pub enum ErrorKind {
            #[error_chain(link = other_error::Error)]
            Another(other_error::ErrorKind),
        }
        "#,
    );
    assert_eq!(
        expansion.error_from_impls,
        vec![FromImpl::Sibling(
            "Another".to_string(),
            named_type("other_error :: Error", &["other_error", "Error"])
        )]
    );
}

#[test]
fn unstringified_function_paths() {
    let expansion = expand(
        r#"
        #[derive(Debug, ErrorChain)]
        pub enum ErrorKind {
            #[error_chain(custom)]
            #[error_chain(description = invalid_toolchain_name_error_description)]
            #[error_chain(display = invalid_toolchain_name_error_display)]
            #[error_chain(cause = parse_file_error_cause)]
            InvalidToolchainName(String),
        }
        "#,
    );
    assert_eq!(
        expansion.error_kind_description_cases[0].body,
        Body::Function(call("invalid_toolchain_name_error_description", false, &["value0"]))
    );
    assert_eq!(
        expansion.error_kind_display_cases[0].body,
        Body::Function(call("invalid_toolchain_name_error_display", false, &["f", "value0"]))
    );
    assert_eq!(
        expansion.error_cause_cases[0].body,
        Body::Function(call("parse_file_error_cause", false, &["value0"]))
    );
}

#[test]
fn overrides_on_links() {
    let expansion = expand(
        r##"
        #[derive(Debug, ErrorChain)]
        pub enum ErrorKind {
            #[error_chain(link = "inner::Error", description = "describe", display = r#"|kind| write!(f, "{}", kind)"#)]
            Inner(inner::ErrorKind),

            #[error_chain(foreign, description = "|_| \"io\"", display = "show", cause = "|err| err")]
            Io(io::Error),
        }
        "##,
    );
    assert_eq!(
        expansion.error_kind_description_cases,
        vec![
            case("Inner", one("err"), Body::Function(call("describe", false, &["err"]))),
            case("Io", one("err"), Body::Closure(call("| _ | \"io\"", true, &["err"]))),
        ]
    );
    assert_eq!(
        expansion.error_kind_display_cases,
        vec![
            case(
                "Inner",
                one("kind"),
                Body::Closure(call("| kind | write ! ( f , \"{}\" , kind )", true, &["kind"])),
            ),
            case("Io", one("err"), Body::Function(call("show", false, &["f", "err"]))),
        ]
    );
    assert_eq!(
        expansion.error_cause_cases,
        vec![case(
            "Io",
            Pattern::Tuple(bound(&["value0"])),
            Body::Closure(call("| err | err", true, &["value0"])),
        )]
    );
    let io = ErrorKind::Foreign { variant: "Io".to_string(), error: foreign_error() };
    assert_eq!(expansion.description(&io), Some(Shown::Call("| _ | \"io\"".to_string())));
    assert_eq!(expansion.display(&io), Some(Shown::Call("show".to_string())));
    assert_eq!(
        expansion.own_cause(&io),
        Some(Source::Computed("| err | err".to_string()))
    );
}

#[test]
fn later_overrides_count() {
    let expansion = expand(
        r#"
        #[derive(Debug, ErrorChain)]
        pub enum ErrorKind {
            #[error_chain(custom)]
            #[error_chain(custom, description = "first", description = "second")]
            Io(io::Error),
        }
        "#,
    );
    assert_eq!(
        expansion.error_kind_description_cases,
        vec![case(
            "Io",
            Pattern::Tuple(bound(&["value0"])),
            Body::Function(call("second", false, &["value0"])),
        )]
    );
    assert_eq!(expansion.error_from_impls, vec![]);

    let expansion = expand(
        r#"
        #[derive(Debug, ErrorChain)]
        pub enum ErrorKind {
            #[error_chain(link = "a::Error", link = "b::Error")]
            #[error_chain(link = c::Error)]
            Inner(inner::ErrorKind),

            #[error_chain(foreign, foreign)]
            Io(io::Error),
        }
        "#,
    );
    assert_eq!(
        expansion.error_from_impls,
        vec![
            FromImpl::Sibling("Inner".to_string(), named_type("c :: Error", &["c", "Error"])),
            FromImpl::Foreign("Io".to_string(), named_type("io :: Error", &["io", "Error"])),
        ]
    );
}

#[test]
fn refuses_two_kinds_of_mark() {
    let twice = |variant: &str| {
        format!(
            "Member {} has more than one of #[error_chain(link = \"...\")], #[error_chain(foreign)] and #[error_chain(custom)].",
            variant
        )
    };
    for attributes in [
        "#[error_chain(foreign, custom)]",
        "#[error_chain(custom, foreign)]",
        "#[error_chain(foreign)] #[error_chain(custom)]",
        "#[error_chain(custom)] #[error_chain(foreign)]",
        r#"#[error_chain(foreign, link = "p::Error")]"#,
        r#"#[error_chain(link = "p::Error", foreign)]"#,
        r#"#[error_chain(link = "p::Error")] #[error_chain(custom)]"#,
        r#"#[error_chain(custom, link = "p::Error")]"#,
        "#[error_chain(custom)] #[error_chain(link = p::Error)]",
        "#[error_chain(link = p::Error)] #[error_chain(foreign)]",
        "#[error_chain(foreign)] #[error_chain(description = \"describe\")] #[error_chain(custom)]",
        r#"#[error_chain(foreign, link = "not a type (")]"#,
    ]
    .iter()
    {
        assert_eq!(refusal(&one_variant(attributes, "V(T)")), twice("V"));
    }
    assert_eq!(refusal(&one_variant("#[error_chain(custom, foreign)]", "Unit")), twice("Unit"));
}

#[test]
fn other_attribute_paths_are_not_ours() {
    let expansion = expand(
        r#"
        #[derive(Debug, ErrorChain)]
        #[other::error_chain(error = "Ignored")]
        #[::error_chain(error = "Ignored")]
        pub enum ErrorKind {
            Msg(String),
        }
        "#,
    );
    assert_eq!(expansion.properties.error_name, "Error");
}

#[test]
fn message_round_trip() {
    let expansion = expand(FOREIGN_LINKS);
    for message in ["", "failed", "with `{}` braces", "multi\nline"].iter() {
        let kind = expansion.kind_from_text(message.to_string()).unwrap();
        let wrapper = Error::from_kind(kind, Some(Backtrace { id: 3 }));
        assert_eq!(shown_text(expansion.description(wrapper.kind())), *message);
        assert_eq!(shown_text(expansion.display(wrapper.kind())), *message);
        assert_eq!(expansion.cause(&wrapper), None);
        assert_eq!(wrapper.backtrace(), Some(Backtrace { id: 3 }));
    }
}

#[test]
fn sibling_state_is_preserved() {
    let expansion = expand(
        r#"
        #[derive(Debug, ErrorChain)]
        pub enum A {
            Msg(String),

            #[error_chain(link = "b::Error")]
            B(b::ErrorKind),
        }
        "#,
    );
    let state = || State {
        next_errors: vec![
            Source::Wrapped(ErrorKind::Msg("deeper".to_string()), Some(Backtrace { id: 11 })),
            Source::Foreign(foreign_error()),
        ],
        backtrace: Some(Backtrace { id: 42 }),
    };
    let b = SiblingError {
        description: "b description".to_string(),
        display: "b display".to_string(),
        state: state(),
    };
    let a = expansion.error_from_sibling("B", b).unwrap();
    assert_eq!(a.state, state());
    assert_eq!(a.backtrace(), Some(Backtrace { id: 42 }));
    assert_eq!(
        a.kind,
        ErrorKind::Chained {
            variant: "B".to_string(),
            description: "b description".to_string(),
            display: "b display".to_string(),
        }
    );
    assert_eq!(
        expansion.error_from_sibling(
            "Msg",
            SiblingError {
                description: String::new(),
                display: String::new(),
                state: state(),
            }
        ),
        None
    );
}

#[test]
fn chain_extension() {
    let expansion = expand(FOREIGN_LINKS);
    let e0 = try_foreign_error(&expansion);
    let before = expansion.iter(&e0);
    let e1 = e0.chain_err(expansion.kind_from_text("on top".to_string()).unwrap(), None);
    let mut expected = vec![Some(Shown::Text("on top".to_string()))];
    expected.extend(before);
    assert_eq!(expansion.iter(&e1), expected);
    assert_eq!(
        expansion.iter(&e1),
        vec![
            Some(Shown::Text("on top".to_string())),
            Some(Shown::Text("Foreign error display".to_string())),
            Some(Shown::Text("Foreign error cause display".to_string())),
        ]
    );

    let base = Error::from_kind(ErrorKind::Msg("base".to_string()), None);
    let top = base.chain_err(ErrorKind::Msg("top".to_string()), None);
    assert_eq!(
        expansion.iter(&top),
        vec![Some(Shown::Text("top".to_string())), Some(Shown::Text("base".to_string()))]
    );
}

fn ident_complaint(value: &str) -> String {
    syn::parse_str::<syn::Ident>(value).err().unwrap().to_string()
}

fn expr_complaint(value: &str) -> String {
    syn::parse_str::<syn::Expr>(value).err().unwrap().to_string()
}

fn one_variant(attributes: &str, variant: &str) -> String {
    format!("#[derive(Debug, ErrorChain)] pub enum ErrorKind {{ {} {} }}", attributes, variant)
}

fn on_enum(attributes: &str) -> String {
    format!("#[derive(Debug, ErrorChain)] {} pub enum ErrorKind {{ Msg(String), }}", attributes)
}

const EXPECTED_TOP_LEVEL: &str = "Could not parse `error_chain` attribute - expected one of `error`, `result_ext`, `result`, `backtrace`";

#[test]
fn refuses_unknown_top_level_key() {
    assert_eq!(
        refusal(&on_enum(r#"#[error_chain(foo = "bar")]"#)),
        format!("{} but got foo", EXPECTED_TOP_LEVEL)
    );
}

#[test]
fn refuses_malformed_top_level_attribute() {
    assert_eq!(
        refusal(&on_enum("#[error_chain(foreign)]")),
        format!("{} but got foreign", EXPECTED_TOP_LEVEL)
    );
    assert_eq!(
        refusal(&on_enum("#[error_chain(foo = true)]")),
        format!("{} but got foo", EXPECTED_TOP_LEVEL)
    );
    assert_eq!(
        refusal(&on_enum("#[error_chain(foo = 5)]")),
        format!("{} but got foo", EXPECTED_TOP_LEVEL)
    );
    assert_eq!(
        refusal(&on_enum("#[error_chain(foo(inner))]")),
        format!("{} but got foo", EXPECTED_TOP_LEVEL)
    );
    assert_eq!(refusal(&on_enum("#[error_chain(\"error\")]")), EXPECTED_TOP_LEVEL);
    assert_eq!(
        refusal(&on_enum("#[error_chain(backtrace = 5)]")),
        "Could not parse `backtrace` value - expected a string or a boolean"
    );
    assert_eq!(refusal(&on_enum("#[error_chain]")), EXPECTED_TOP_LEVEL);
    assert_eq!(refusal(&on_enum(r#"#[error_chain = "x"]"#)), EXPECTED_TOP_LEVEL);
    for item in ["error = 5", "error = true", "error(inner)"].iter() {
        assert_eq!(
            refusal(&on_enum(&format!("#[error_chain({})]", item))),
            "Could not parse `error` value as an identifier - expected a string"
        );
    }
    assert_eq!(refusal(&on_enum("#[error_chain(error = MyError)]")), EXPECTED_TOP_LEVEL);
}

#[test]
fn refuses_names_that_are_no_identifiers() {
    for value in ["my error", "fn", "_", "5", "a::b", "'a"].iter() {
        assert_eq!(
            refusal(&on_enum(&format!(r#"#[error_chain(error = "{}")]"#, value))),
            format!(
                "Could not parse `error` value as an identifier - {}",
                ident_complaint(value)
            )
        );
        assert_eq!(
            refusal(&on_enum(&format!(r#"#[error_chain(result_ext = "{}")]"#, value))),
            format!(
                "Could not parse `result_ext` value as an identifier - {}",
                ident_complaint(value)
            )
        );
        assert_eq!(
            refusal(&on_enum(&format!(r#"#[error_chain(result = "{}")]"#, value))),
            format!(
                "Could not parse `result` value as an identifier - {}",
                ident_complaint(value)
            )
        );
    }
    assert_eq!(
        refusal(&on_enum(r#"#[error_chain(error = "")]"#)),
        format!("Could not parse `error` value as an identifier - {}", ident_complaint(""))
    );
}

#[test]
fn refuses_backtrace_that_is_no_boolean() {
    for value in ["maybe", "", "True", "0"].iter() {
        assert_eq!(
            refusal(&on_enum(&format!(r#"#[error_chain(backtrace = "{}")]"#, value))),
            format!(
                "Could not parse `backtrace` value - {}",
                value.parse::<bool>().unwrap_err()
            )
        );
    }
    assert_eq!(
        refusal(&on_enum(r#"#[error_chain(backtrace = "maybe")]"#)),
        "Could not parse `backtrace` value - provided string was not `true` or `false`"
    );
}

#[test]
fn first_refusal_ends_the_expansion() {
    assert_eq!(
        refusal(
            r#"
            #[derive(Debug, ErrorChain)]
            #[error_chain(result = "Fine", foo = "bar", error = "not fine")]
            pub enum ErrorKind {
                Msg(u32),
            }
            "#
        ),
        format!("{} but got foo", EXPECTED_TOP_LEVEL)
    );
    assert_eq!(
        refusal(
            r#"
            #[derive(Debug, ErrorChain)]
            pub enum ErrorKind {
                Msg(String),
                First,
                #[error_chain(foreign)]
                Second,
            }
            "#
        ),
        "Member First does not have any of #[error_chain(link = \"...\")] or #[error_chain(foreign)] or #[error_chain(custom)]."
    );
}

#[test]
fn refuses_what_is_no_enum() {
    assert_eq!(
        refusal("#[derive(Debug, ErrorChain)] pub struct ErrorKind { message: String }"),
        "#[derive(ErrorChain] can only be used with enums."
    );
    assert_eq!(
        refusal(r#"#[derive(Debug, ErrorChain)] #[error_chain(foo = "bar")] pub struct ErrorKind;"#),
        format!("{} but got foo", EXPECTED_TOP_LEVEL)
    );
}

#[test]
fn refuses_message_variant_of_another_shape() {
    for variant in [
        "Msg",
        "Msg(u32)",
        "Msg(String, String)",
        "Msg { text: String }",
        "Msg(::String)",
        "Msg(std::string::String)",
        "Msg(&'static str)",
        "#[error_chain(custom)] Msg(u32)",
    ]
    .iter()
    {
        assert_eq!(
            refusal(&one_variant("", variant)),
            "Expected Msg member to be a tuple of String"
        );
    }
}

#[test]
fn refuses_unclassified_variant() {
    assert_eq!(
        refusal(&one_variant("", "Plain(u32)")),
        "Member Plain does not have any of #[error_chain(link = \"...\")] or #[error_chain(foreign)] or #[error_chain(custom)]."
    );
    assert_eq!(
        refusal(&one_variant(r#"#[error_chain(description = "describe")]"#, "Plain(u32)")),
        "Member Plain does not have any of #[error_chain(link = \"...\")] or #[error_chain(foreign)] or #[error_chain(custom)]."
    );
}

#[test]
fn refuses_links_of_another_shape() {
    for variant in ["Io", "Io(a::Error, b::Error)", "Io { error: a::Error }", "Io()"].iter() {
        assert_eq!(
            refusal(&one_variant("#[error_chain(foreign)]", variant)),
            "Foreign link Io must be a tuple of one element (the foreign error type)."
        );
        assert_eq!(
            refusal(&one_variant(r#"#[error_chain(link = "a::Error")]"#, variant)),
            "Chainable link Io must be a tuple of one element (the chainable error kind)."
        );
        assert_eq!(
            refusal(&one_variant("#[error_chain(link = a::Error)]", variant)),
            "Chainable link Io must be a tuple of one element (the chainable error kind)."
        );
        assert_eq!(
            refusal(&one_variant(r#"#[error_chain(link = "not a type (")]"#, variant)),
            "Chainable link Io must be a tuple of one element (the chainable error kind)."
        );
    }
}

#[test]
fn refuses_unknown_marks() {
    assert_eq!(
        refusal(&one_variant("#[error_chain(bogus)]", "Plain(u32)")),
        "Could not parse `error_chain` attribute of member Plain - expected one of `foreign`, `custom` but got bogus"
    );
    assert_eq!(
        refusal(&one_variant("#[error_chain(description)]", "Plain(u32)")),
        "Could not parse `error_chain` attribute of member Plain - expected one of `foreign`, `custom` but got description"
    );
    assert_eq!(
        refusal(&one_variant(r#"#[error_chain(custom, bogus = "value")]"#, "Plain(u32)")),
        "Could not parse `error_chain` attribute of member Plain - expected one of `link`, `description`, `display`, `cause` but got bogus"
    );
    assert_eq!(
        refusal(&one_variant("#[error_chain(bogus = |x| x)]", "Plain(u32)")),
        "Could not parse `error_chain` attribute of member Plain - expected one of `link`, `description`, `display`, `cause` but got bogus"
    );
    assert_eq!(
        refusal(&one_variant("#[error_chain(custom(inner))]", "Plain(u32)")),
        "Could not parse `error_chain` attribute of member Plain - expected one of `link`, `description`, `display`, `cause` but got custom"
    );
    assert_eq!(
        refusal(&one_variant("#[error_chain(custom, backtrace = false)]", "Plain(u32)")),
        "Could not parse `error_chain` attribute of member Plain - expected one of `link`, `description`, `display`, `cause` but got backtrace"
    );
    assert_eq!(
        refusal(&one_variant("#[error_chain(custom, bogus = 5)]", "Plain(u32)")),
        "Could not parse `error_chain` attribute of member Plain - expected one of `link`, `description`, `display`, `cause` but got bogus"
    );
    assert_eq!(
        refusal(&one_variant("#[error_chain(custom, description = true)]", "Plain(u32)")),
        "Could not parse `description` attribute of member Plain - expected a string"
    );
    assert_eq!(
        refusal(&one_variant("#[error_chain(custom, cause(inner))]", "Plain(u32)")),
        "Could not parse `cause` attribute of member Plain - expected a string"
    );
    assert_eq!(
        refusal(&one_variant(r#"#[error_chain("custom")]"#, "Plain(u32)")),
        "Could not parse `error_chain` attribute of member Plain - expected term or name-value meta item"
    );
}

#[test]
fn refuses_values_that_do_not_parse() {
    let type_complaint = syn::parse_str::<syn::Type>("not a type (").err().unwrap().to_string();
    assert_eq!(
        refusal(&one_variant(r#"#[error_chain(link = "not a type (")]"#, "Inner(inner::ErrorKind)")),
        format!("Could not parse `link` attribute of member Inner as a type - {}", type_complaint)
    );
    for key in ["description", "display", "cause"].iter() {
        assert_eq!(
            refusal(&one_variant(
                &format!(r#"#[error_chain(custom, {} = "let")]"#, key),
                "Plain(u32)"
            )),
            format!(
                "Could not parse `{}` attribute of member Plain as an expression - {}",
                key,
                expr_complaint("let")
            )
        );
    }
    assert_eq!(
        refusal(&one_variant("#[error_chain(cause = let)]", "Plain(u32)")),
        format!(
            "Could not parse `cause` attribute of member Plain as an expression - {}",
            expr_complaint("let ")
        )
    );
    let type_complaint = syn::parse_str::<syn::Type>("fn ").err().unwrap().to_string();
    assert_eq!(
        refusal(&one_variant("#[error_chain(link = fn)]", "Inner(inner::ErrorKind)")),
        format!("Could not parse `link` attribute of member Inner as a type - {}", type_complaint)
    );
    assert_eq!(
        refusal(&one_variant("#[error_chain(link = 5)]", "Inner(inner::ErrorKind)")),
        "Could not parse `link` attribute of member Inner - expected a string"
    );
}

#[test]
fn refuses_attributes_of_another_form() {
    let start = "Could not parse `error_chain` attribute of member Plain - ";
    assert_eq!(
        refusal(&one_variant("#[error_chain]", "Plain(u32)")),
        format!("{}expected `(tokens)`", start)
    );
    assert_eq!(
        refusal(&one_variant(r#"#[error_chain = "custom"]"#, "Plain(u32)")),
        format!("{}expected `(tokens)` but found =", start)
    );
    assert_eq!(
        refusal(&one_variant("#[error_chain[custom]]", "Plain(u32)")),
        format!("{}expected `(tokens)` but found [ custom ]", start)
    );
    assert_eq!(
        refusal(&one_variant("#[error_chain(cause = |x| x) trailing]", "Plain(u32)")),
        format!("{}unexpected token trailing after `(tokens)`", start)
    );
    assert_eq!(
        refusal(&one_variant("#[error_chain(5 = |x| x)]", "Plain(u32)")),
        format!("{}expected a term but got 5", start)
    );
    assert_eq!(
        refusal(&one_variant("#[error_chain((cause) = |x| x)]", "Plain(u32)")),
        format!("{}expected a term but got ( cause )", start)
    );
    assert_eq!(
        refusal(&one_variant("#[error_chain(cause |x| x)]", "Plain(u32)")),
        format!("{}expected `=` but got |", start)
    );
    assert_eq!(
        refusal(&one_variant("#[error_chain(cause =)]", "Plain(u32)")),
        format!("{}expected tokens after `=`", start)
    );
}

#[test]
fn refuses_overrides_that_are_neither_expression_nor_template() {
    let start = "Could not parse `display` attribute of member Plain";
    assert_eq!(
        refusal(&one_variant("#[error_chain(custom)] #[error_chain(display = struct)]", "Plain(u32)")),
        format!(
            "{}. Expression - {}. Format string - expected `const` but got struct",
            start,
            expr_complaint("struct ")
        )
    );
    assert_eq!(
        refusal(&one_variant("#[error_chain(custom)] #[error_chain(display = const)]", "Plain(u32)")),
        format!("{} - expected `(string literal)`", start)
    );
    assert_eq!(
        refusal(&one_variant(
            "#[error_chain(custom)] #[error_chain(display = const \"text\")]",
            "Plain(u32)"
        )),
        format!("{} - expected `(string literal)` but got \"text\"", start)
    );
    assert_eq!(
        refusal(&one_variant(
            "#[error_chain(custom)] #[error_chain(display = const[\"text\"])]",
            "Plain(u32)"
        )),
        format!("{} - expected `(string literal)` but got [ \"text\" ]", start)
    );
    assert_eq!(
        refusal(&one_variant("#[error_chain(custom)] #[error_chain(display = const(5))]", "Plain(u32)")),
        format!("{} - expected string literal but got 5", start)
    );
    let literal_complaint = syn::parse_str::<syn::Lit>("name ").err().unwrap().to_string();
    assert_eq!(
        refusal(&one_variant(
            "#[error_chain(custom)] #[error_chain(display = const(name))]",
            "Plain(u32)"
        )),
        format!("{} - {}", start, literal_complaint)
    );
    assert_eq!(
        refusal(&one_variant(
            "#[error_chain(custom)] #[error_chain(display = const(\"text\") trailing)]",
            "Plain(u32)"
        )),
        format!("{} - unexpected token trailing after string literal", start)
    );
    assert_eq!(
        refusal(&one_variant(
            "#[error_chain(custom)] #[error_chain(description = const(\"text\") trailing)]",
            "Plain(u32)"
        )),
        "Could not parse `description` attribute of member Plain - unexpected token trailing after string literal"
    );
}

#[test]
fn refuses_templates_that_do_not_fit_the_fields() {
    let named = |template: &str| {
        refusal(&one_variant(
            &format!("#[error_chain(custom)] #[error_chain(display = const(\"{}\"))]", template),
            "Custom { code: u32, extra: u32 }",
        ))
    };
    let tuple = |template: &str| {
        refusal(&one_variant(
            &format!("#[error_chain(custom)] #[error_chain(display = const(\"{}\"))]", template),
            "Custom(u32, u32)",
        ))
    };
    let unit = |template: &str| {
        refusal(&one_variant(
            &format!("#[error_chain(custom)] #[error_chain(display = const(\"{}\"))]", template),
            "Custom",
        ))
    };
    let start = "Could not parse `display` attribute of member Custom - ";
    assert_eq!(named("code {}"), format!("{}expected named parameter but found `{{}}`", start));
    assert_eq!(named("{code} {0}"), format!("{}expected named parameter but found `{{0}}`", start));
    assert_eq!(named("{12:?}"), format!("{}expected named parameter but found `{{12}}`", start));
    assert_eq!(
        named("{self}"),
        format!(
            "{}could not parse named parameter `{{self}}` - {}",
            start,
            ident_complaint("self")
        )
    );
    assert_eq!(
        tuple("{0} {code}"),
        format!("{}expected positional parameter but found `{{code}}`", start)
    );
    assert_eq!(tuple("{}"), format!("{}expected positional parameter but found `{{}}`", start));
    assert_eq!(unit("{}"), format!("{}expected no parameters but found `{{}}`", start));
    assert_eq!(unit("{3}"), format!("{}expected no parameters but found `{{3}}`", start));
    assert_eq!(unit("{code}"), format!("{}expected no parameters but found `{{code}}`", start));
    assert_eq!(
        tuple("{4294967296}"),
        format!(
            "{}format string holds a placeholder with a number above 4294967295",
            start
        )
    );
}

#[test]
fn templates_for_fields() {
    let expansion = expand(
        r#"
        #[derive(Debug, ErrorChain)]
        pub enum ErrorKind {
            #[error_chain(custom)]
            #[error_chain(display = const("{b} {b:?} {{a}} {c:>8}"))]
            Named { a: u32, b: u32, c: u32 },

            #[error_chain(custom)]
            #[error_chain(display = const("{2} {0:?}"))]
            Tuple(u8, u16, u32, u64),

            #[error_chain(custom)]
            #[error_chain(display = const("no {{placeholder}} here"))]
            Unit,

            #[error_chain(custom)]
            #[error_chain(display = const("nothing"))]
            Loose(u8, u16),
        }
        "#,
    );
    assert_eq!(
        expansion.error_kind_display_cases,
        vec![
            case(
                "Named",
                Pattern::Struct(vec![
                    Binding::Renamed("a".to_string(), "_a".to_string()),
                    Binding::Ref("b".to_string()),
                    Binding::Ref("c".to_string()),
                ]),
                Body::Write(
                    "{b} {b:?} {{a}} {c:>8}".to_string(),
                    vec![
                        Argument::Named("b".to_string(), "b".to_string()),
                        Argument::Named("c".to_string(), "c".to_string()),
                    ],
                ),
            ),
            case(
                "Tuple",
                Pattern::Tuple(vec![
                    Binding::Ref("value0".to_string()),
                    Binding::Skip,
                    Binding::Ref("value2".to_string()),
                    Binding::Skip,
                ]),
                Body::Write(
                    "{2} {0:?}".to_string(),
                    vec![
                        Argument::Positional("value0".to_string()),
                        Argument::Positional("value2".to_string()),
                    ],
                ),
            ),
            case(
                "Unit",
                Pattern::Unit,
                Body::Write("no {{placeholder}} here".to_string(), vec![]),
            ),
            case(
                "Loose",
                Pattern::Tuple(vec![Binding::Skip, Binding::Skip]),
                Body::Write("nothing".to_string(), vec![]),
            ),
        ]
    );
}

#[test]
fn backtraces_taken_over() {
    let expansion = expand(
        r#"
        #[derive(Debug, ErrorChain)]
        pub enum ErrorKind {
            Msg(String),

            #[error_chain(link = "b::Error")]
            B(b::ErrorKind),

            #[error_chain(foreign)]
            Io(io::Error),
        }
        "#,
    );
    let captured = Some(Backtrace { id: 5 });
    let sibling =
        |error: &str| Source::Sibling(error.to_string(), "b display".to_string(), captured);
    assert_eq!(expansion.extract_backtrace(&sibling("b :: Error")), captured);
    assert_eq!(expansion.extract_backtrace(&sibling("c :: Error")), None);
    assert_eq!(expansion.extract_backtrace(&sibling("io :: Error")), None);
    assert_eq!(
        expansion.extract_backtrace(&Source::Wrapped(ErrorKind::Msg("own".to_string()), captured)),
        captured
    );
    assert_eq!(
        expansion.extract_backtrace(&Source::Wrapped(ErrorKind::Msg("own".to_string()), None)),
        None
    );
    assert_eq!(expansion.extract_backtrace(&Source::Foreign(foreign_error())), None);
    assert_eq!(expansion.extract_backtrace(&Source::Leaf(foreign_error_cause())), None);
    assert_eq!(expansion.extract_backtrace(&Source::Computed("f".to_string())), None);

    let switched_off = expand(
        r#"
        #[derive(Debug, ErrorChain)]
        #[error_chain(backtrace = "false")]
        pub enum ErrorKind {
            #[error_chain(link = "b::Error")]
            B(b::ErrorKind),
        }
        "#,
    );
    assert_eq!(switched_off.extract_backtrace(&sibling("b :: Error")), None);
    assert_eq!(
        switched_off
            .extract_backtrace(&Source::Wrapped(ErrorKind::Msg("own".to_string()), captured)),
        None
    );

    let over_sibling = Error {
        kind: ErrorKind::Msg("top".to_string()),
        state: State { next_errors: vec![sibling("b :: Error")], backtrace: captured },
    };
    assert_eq!(
        expansion.iter(&over_sibling),
        vec![Some(Shown::Text("top".to_string())), Some(Shown::Text("b display".to_string()))]
    );
}

#[test]
fn digits_outside_placeholders_are_plain_text() {
    let expansion = expand(
        r#"
        #[derive(Debug, ErrorChain)]
        pub enum ErrorKind {
            #[error_chain(custom)]
            #[error_chain(description = const("code 1234567890"))]
            #[error_chain(display = const("{code} 1234567890"))]
            Named { code: u32 },

            #[error_chain(custom)]
            #[error_chain(display = const("{0} 1234567890 {{12345678901}}"))]
            Tuple(u32),

            #[error_chain(custom)]
            #[error_chain(display = const("code 1234567890"))]
            Unit,
        }
        "#,
    );
    assert_eq!(
        expansion.error_kind_description_cases[0].body,
        Body::Literal("code 1234567890".to_string())
    );
    assert_eq!(
        expansion.error_kind_display_cases,
        vec![
            case(
                "Named",
                Pattern::Struct(bound(&["code"])),
                Body::Write(
                    "{code} 1234567890".to_string(),
                    vec![Argument::Named("code".to_string(), "code".to_string())],
                ),
            ),
            case(
                "Tuple",
                Pattern::Tuple(bound(&["value0"])),
                Body::Write(
                    "{0} 1234567890 {{12345678901}}".to_string(),
                    vec![Argument::Positional("value0".to_string())],
                ),
            ),
            case("Unit", Pattern::Unit, Body::Write("code 1234567890".to_string(), vec![])),
        ]
    );
}

#[test]
fn backslashes_in_templates() {
    let expansion = expand(
        r##"
        #[derive(Debug, ErrorChain)]
        pub enum ErrorKind {
            #[error_chain(custom)]
            #[error_chain(description = const("C:\\users"))]
            #[error_chain(display = const(r"C:\users \u"))]
            Path,

            #[error_chain(custom)]
            #[error_chain(description = const("\\u \\\\u caf\u{e9}"))]
            Escaped,
        }
        "##,
    );
    assert_eq!(
        expansion.error_kind_description_cases[0].body,
        Body::Literal("C:\\users".to_string())
    );
    assert_eq!(
        expansion.error_kind_display_cases[0].body,
        Body::Write("C:\\users \\u".to_string(), vec![])
    );
    assert_eq!(
        expansion.error_kind_description_cases[1].body,
        Body::Literal("\\u \\\\u caf\u{e9}".to_string())
    );
    assert_eq!(
        refusal(&one_variant(
            "#[error_chain(custom)] #[error_chain(display = const(\"\\\\\\u{110000}\"))]",
            "Plain"
        )),
        "Could not parse `display` attribute of member Plain - string literal holds a unicode escape that names no character"
    );
}

#[test]
fn extension_trait_chain_err() {
    let expansion = expand(FOREIGN_LINKS);
    let kind = || expansion.kind_from_text("on top".to_string()).unwrap();
    let fresh = Some(Backtrace { id: 2 });

    let passed: Result<u8, Error> = result_chain_err(Ok(7), kind(), fresh);
    assert_eq!(passed, Ok(7));
    let chained: Result<u8, Error> =
        result_chain_err(Err(Source::Foreign(foreign_error())), kind(), fresh);
    let chained = chained.err().unwrap();
    assert_eq!(chained.kind, ErrorKind::Msg("on top".to_string()));
    assert_eq!(expansion.cause(&chained), Some(Source::Foreign(foreign_error())));
    assert_eq!(chained.backtrace(), fresh);
    assert_eq!(chained.state.next_errors.len(), 1);

    let passed: Result<u8, Error> = own_result_chain_err(Ok(7), kind(), fresh);
    assert_eq!(passed, Ok(7));
    let below = try_foreign_error(&expansion);
    let chained: Result<u8, Error> = own_result_chain_err(Err(below), kind(), fresh);
    let chained = chained.err().unwrap();
    assert_eq!(
        expansion.iter(&chained),
        vec![
            Some(Shown::Text("on top".to_string())),
            Some(Shown::Text("Foreign error display".to_string())),
            Some(Shown::Text("Foreign error cause display".to_string())),
        ]
    );

    assert_eq!(option_chain_err(Some(7), kind(), fresh), Ok(7));
    let missing: Result<u8, Error> = option_chain_err(None, kind(), fresh);
    let missing = missing.err().unwrap();
    assert_eq!(missing, Error::from_kind(kind(), fresh));
    assert_eq!(expansion.cause(&missing), None);
    assert_eq!(missing.state.next_errors, vec![]);
}

#[test]
fn digits_in_names_and_widths() {
    let expansion = expand(
        r#"
        #[derive(Debug, ErrorChain)]
        pub enum ErrorKind {
            #[error_chain(custom)]
            #[error_chain(display = const("{x0123456789} {x0123456789:>1234567890}"))]
            Named { x0123456789: u32, other: u32 },

            #[error_chain(custom)]
            #[error_chain(display = const("{0:1234567890}"))]
            Tuple(u32),
        }
        "#,
    );
    assert_eq!(
        expansion.error_kind_display_cases,
        vec![
            case(
                "Named",
                Pattern::Struct(vec![
                    Binding::Ref("x0123456789".to_string()),
                    Binding::Renamed("other".to_string(), "_other".to_string()),
                ]),
                Body::Write(
                    "{x0123456789} {x0123456789:>1234567890}".to_string(),
                    vec![Argument::Named("x0123456789".to_string(), "x0123456789".to_string())],
                ),
            ),
            case(
                "Tuple",
                Pattern::Tuple(bound(&["value0"])),
                Body::Write(
                    "{0:1234567890}".to_string(),
                    vec![Argument::Positional("value0".to_string())],
                ),
            ),
        ]
    );
}

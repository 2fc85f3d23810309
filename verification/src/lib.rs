//! Derivation of an error hierarchy from the declaration of an error-kind enum.
//!
//! An enum lists the kinds of error of a domain: a bare message, links to
//! sibling hierarchies, links to errors from elsewhere, and variants of its own.
//! From its declaration this crate works out what is to be declared beside it:
//! the error that wraps a kind with its chain state, the conversions, the result
//! alias and the extension trait.
//!
//! - [`syntax`] holds the declaration as plain values.
//! - [`annotation`] reads the `error_chain` attributes on the enum.
//! - [`link`] classifies each variant; [`formatter`], [`format`] and [`escape`]
//!   read the overrides written as constant templates.
//! - [`pattern`] and [`emit`] work out the match arms and conversions of each
//!   link, described by the types of [`plan`].
//! - [`expand`] puts the expansion together; [`error`] is what a refused
//!   declaration comes back with.
//! - [`chain`] tells what the declared items do when they run, and [`laws`]
//!   states what holds of them for every enum.
//! - [`outside`] holds the calls into the parsers of `syn` and
//!   `syntex_fmt_macros`.

pub mod annotation;
pub mod chain;
pub mod emit;
pub mod error;
pub mod escape;
pub mod expand;
pub mod format;
pub mod formatter;
pub mod laws;
pub mod link;
pub mod outside;
pub mod pattern;
pub mod plan;
pub mod syntax;
pub mod text;

pub use crate::expand::derive_error_chain;

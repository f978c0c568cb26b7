//! Error context for whole functions.
//!
//! An attribute on a function names a context: a format string with its arguments, an
//! expression, a closure or a function. The function is then rewritten so that it runs as
//! before and every error that it returns carries the context. This crate holds the rewriting,
//! from source text to source text, and what the rewritten functions need at run time.
//!
//! - [`WrapErr`] is the operation that an error type offers to take a context on board, and
//!   [`format_err`] builds the context of a format string.
//! - [`input`] and [`output`] rewrite a function that keeps its own error type.
//! - [`errify_macro`] rewrites a function whose error type becomes the one that the arguments
//!   name, or the type of the error backend that the build selects.
//! - [`context_macro`], with [`context_provider`] and [`error_provider`], rewrites a function
//!   through the extension trait of the selected backend.
//! - [`utils`] reads the success type of a return type and makes formal arguments fit for
//!   forwarding; [`item`] and [`text`] write source text.
//! - [`syntax`] is the boundary to the parser of the host language, and the one place whose
//!   contracts are believed, not proved.
//!
//! A failed expansion is a [`error::Diagnostic`]; none ever yields a partly rewritten function.
use std::borrow::Cow;
use std::fmt::Display;
use vstd::prelude::*;

pub mod backend;
pub mod context_macro;
pub mod context_provider;
pub mod errify_macro;
pub mod error;
pub mod error_provider;
pub mod input;
pub mod item;
pub mod output;
pub mod syntax;
pub mod text;
pub mod utils;

verus! {

/// An error that can take a context on board.
///
/// Implement it for an error type to let rewritten functions return that type.
pub trait WrapErr: Sized {
    /// Wraps the error value with additional context.
    fn wrap_err<C>(self, context: C) -> Self where C: Display + Send + Sync + 'static;
}

/// The error type of `anyhow`, opaque to the verifier.
#[verifier::external_type_specification]
#[verifier::external_body]
pub struct ExAnyhowError(anyhow::Error);

/// The error type of `eyre`, opaque to the verifier.
#[verifier::external_type_specification]
#[verifier::external_body]
pub struct ExEyreReport(eyre::Report);

/// Calls `anyhow::Error::context`. The contract claims nothing of the error that comes back.
#[verifier::external_body]
fn anyhow_context<C>(error: anyhow::Error, context: C) -> anyhow::Error where
    C: Display + Send + Sync + 'static,
 {
    anyhow::Error::context(error, context)
}

/// Calls `eyre::Report::wrap_err`. The contract claims nothing of the report that comes back.
#[verifier::external_body]
fn eyre_wrap_err<C>(error: eyre::Report, context: C) -> eyre::Report where
    C: Display + Send + Sync + 'static,
 {
    eyre::Report::wrap_err(error, context)
}

impl WrapErr for anyhow::Error {
    fn wrap_err<C>(self, context: C) -> Self where C: Display + Send + Sync + 'static {
        anyhow_context(self, context)
    }
}

impl WrapErr for eyre::Report {
    fn wrap_err<C>(self, context: C) -> Self where C: Display + Send + Sync + 'static {
        eyre_wrap_err(self, context)
    }
}

/// A formatting request after the compiler has looked at it: a literal that needs no
/// interpolation, or text that had to be rendered.
pub enum FormatArgs {
    /// A message without arguments; it lives as long as the program.
    Static(&'static str),
    /// A message whose arguments were substituted.
    Rendered(String),
}

impl View for FormatArgs {
    type V = Seq<char>;

    open spec fn view(&self) -> Seq<char> {
        match self {
            FormatArgs::Static(message) => message@,
            FormatArgs::Rendered(message) => message@,
        }
    }
}

/// Turns a formatting request into a context message, borrowing where nothing was rendered.
pub fn format_err(args: FormatArgs) -> (message: Cow<'static, str>)
    ensures
        message@ == args@,
        message is Borrowed <==> args is Static,
{
    match args {
        FormatArgs::Static(message) => Cow::Borrowed(message),
        FormatArgs::Rendered(message) => Cow::Owned(message),
    }
}

} // verus!

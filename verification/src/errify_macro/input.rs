//! The arguments of the two attributes where an error type may stand in front of the context.
use vstd::prelude::*;

use crate::error::{outcome, Diagnostic, DiagnosticView};
pub use crate::input::{ImmediateContext as ExplicitContext, Input, LazyContext};
use crate::input::{immediate_context, lazy_context, ImmediateContextView, LazyContextView};
use crate::syntax::{leading_type, optional_text, read, split_type, SplitComma, SplitCommaView};

verus! {

/// The error type that stands in front of the context, and the tokens behind its comma. Only
/// a type that a comma follows counts as one.
pub open spec fn error_type(split: Result<SplitCommaView, Seq<char>>) -> Option<
    (Seq<char>, Seq<char>),
> {
    match split {
        Ok(split) => if split.comma {
            Some((split.node, split.rest))
        } else {
            None
        },
        Err(_) => None,
    }
}

/// Tells from what was read at the start of the arguments whether they name an error type.
pub fn leading_error_type(split: Result<SplitComma, String>) -> (r: Option<(String, String)>)
    ensures
        match r {
            Some(found) => error_type(read(split)) == Some((found.0@, found.1@)),
            None => error_type(read(split)) is None,
        },
{
    match split {
        Ok(split) => if split.comma {
            Some((split.node, split.rest))
        } else {
            None
        },
        Err(_) => None,
    }
}

/// The arguments of the attribute that attaches an explicit context.
#[derive(Clone, Debug, PartialEq, Eq)]
pub struct ErrifyMacroArgs {
    pub err_ty: Option<String>,
    pub cx: ExplicitContext,
}

/// The mathematical value of [`ErrifyMacroArgs`].
pub struct ErrifyMacroArgsView {
    pub err_ty: Option<Seq<char>>,
    pub cx: ImmediateContextView,
}

impl View for ErrifyMacroArgs {
    type V = ErrifyMacroArgsView;

    open spec fn view(&self) -> ErrifyMacroArgsView {
        ErrifyMacroArgsView { err_ty: optional_text(self.err_ty), cx: self.cx@ }
    }
}

/// The grammar of the arguments: an error type and a comma may stand in front of the context;
/// without the comma all of the tokens are the context.
pub open spec fn errify_args(src: Seq<char>) -> Result<ErrifyMacroArgsView, DiagnosticView> {
    match error_type(leading_type(src)) {
        Some((ty, rest)) => match immediate_context(rest) {
            Ok(cx) => Ok(ErrifyMacroArgsView { err_ty: Some(ty), cx }),
            Err(e) => Err(e),
        },
        None => match immediate_context(src) {
            Ok(cx) => Ok(ErrifyMacroArgsView { err_ty: None, cx }),
            Err(e) => Err(e),
        },
    }
}

impl ErrifyMacroArgs {
    /// Reads the arguments of the attribute.
    pub fn parse(src: &str) -> (r: Result<Self, Diagnostic>)
        ensures
            outcome(r) == errify_args(src@),
    {
        match leading_error_type(split_type(src)) {
            Some((ty, rest)) => match ExplicitContext::parse(rest.as_str()) {
                Ok(cx) => Ok(ErrifyMacroArgs { err_ty: Some(ty), cx }),
                Err(e) => Err(e),
            },
            None => match ExplicitContext::parse(src) {
                Ok(cx) => Ok(ErrifyMacroArgs { err_ty: None, cx }),
                Err(e) => Err(e),
            },
        }
    }
}

/// The arguments of the attribute that attaches a lazy context.
#[derive(Clone, Debug, PartialEq, Eq)]
pub struct ErrifyWithMacroArgs {
    pub err_ty: Option<String>,
    pub cx: LazyContext,
}

/// The mathematical value of [`ErrifyWithMacroArgs`].
pub struct ErrifyWithMacroArgsView {
    pub err_ty: Option<Seq<char>>,
    pub cx: LazyContextView,
}

impl View for ErrifyWithMacroArgs {
    type V = ErrifyWithMacroArgsView;

    open spec fn view(&self) -> ErrifyWithMacroArgsView {
        ErrifyWithMacroArgsView { err_ty: optional_text(self.err_ty), cx: self.cx@ }
    }
}

/// The grammar of the arguments: an error type and a comma may stand in front of the context;
/// without the comma all of the tokens are the context.
pub open spec fn errify_with_args(src: Seq<char>) -> Result<
    ErrifyWithMacroArgsView,
    DiagnosticView,
> {
    match error_type(leading_type(src)) {
        Some((ty, rest)) => match lazy_context(rest) {
            Ok(cx) => Ok(ErrifyWithMacroArgsView { err_ty: Some(ty), cx }),
            Err(e) => Err(e),
        },
        None => match lazy_context(src) {
            Ok(cx) => Ok(ErrifyWithMacroArgsView { err_ty: None, cx }),
            Err(e) => Err(e),
        },
    }
}

impl ErrifyWithMacroArgs {
    /// Reads the arguments of the attribute.
    pub fn parse(src: &str) -> (r: Result<Self, Diagnostic>)
        ensures
            outcome(r) == errify_with_args(src@),
    {
        match leading_error_type(split_type(src)) {
            Some((ty, rest)) => match LazyContext::parse(rest.as_str()) {
                Ok(cx) => Ok(ErrifyWithMacroArgs { err_ty: Some(ty), cx }),
                Err(e) => Err(e),
            },
            None => match LazyContext::parse(src) {
                Ok(cx) => Ok(ErrifyWithMacroArgs { err_ty: None, cx }),
                Err(e) => Err(e),
            },
        }
    }
}

/// The context that an attribute asks for.
#[derive(Clone, Debug, PartialEq, Eq)]
pub enum Context {
    /// Built before the function runs.
    Explicit(ExplicitContext),
    /// Built once the function has failed.
    Lazy(LazyContext),
}

/// The mathematical value of a [`Context`].
pub enum ContextView {
    Explicit(ImmediateContextView),
    Lazy(LazyContextView),
}

impl View for Context {
    type V = ContextView;

    open spec fn view(&self) -> ContextView {
        match self {
            Context::Explicit(cx) => ContextView::Explicit(cx@),
            Context::Lazy(cx) => ContextView::Lazy(cx@),
        }
    }
}

impl From<ExplicitContext> for Context {
    fn from(value: ExplicitContext) -> (cx: Self) {
        Context::Explicit(value)
    }
}

impl vstd::std_specs::convert::FromSpecImpl<ExplicitContext> for Context {
    open spec fn obeys_from_spec() -> bool {
        true
    }

    open spec fn from_spec(value: ExplicitContext) -> Self {
        Context::Explicit(value)
    }
}

impl From<LazyContext> for Context {
    fn from(value: LazyContext) -> (cx: Self) {
        Context::Lazy(value)
    }
}

impl vstd::std_specs::convert::FromSpecImpl<LazyContext> for Context {
    open spec fn obeys_from_spec() -> bool {
        true
    }

    open spec fn from_spec(value: LazyContext) -> Self {
        Context::Lazy(value)
    }
}

/// The arguments of either attribute.
#[derive(Clone, Debug, PartialEq, Eq)]
pub struct Args {
    pub err_ty: Option<String>,
    pub cx: Context,
}

/// The mathematical value of [`Args`].
pub struct ArgsView {
    pub err_ty: Option<Seq<char>>,
    pub cx: ContextView,
}

impl View for Args {
    type V = ArgsView;

    open spec fn view(&self) -> ArgsView {
        ArgsView { err_ty: optional_text(self.err_ty), cx: self.cx@ }
    }
}

impl From<ErrifyMacroArgs> for Args {
    fn from(value: ErrifyMacroArgs) -> (args: Self) {
        Args { err_ty: value.err_ty, cx: Context::Explicit(value.cx) }
    }
}

impl vstd::std_specs::convert::FromSpecImpl<ErrifyMacroArgs> for Args {
    open spec fn obeys_from_spec() -> bool {
        true
    }

    open spec fn from_spec(value: ErrifyMacroArgs) -> Self {
        Args { err_ty: value.err_ty, cx: Context::Explicit(value.cx) }
    }
}

impl From<ErrifyWithMacroArgs> for Args {
    fn from(value: ErrifyWithMacroArgs) -> (args: Self) {
        Args { err_ty: value.err_ty, cx: Context::Lazy(value.cx) }
    }
}

impl vstd::std_specs::convert::FromSpecImpl<ErrifyWithMacroArgs> for Args {
    open spec fn obeys_from_spec() -> bool {
        true
    }

    open spec fn from_spec(value: ErrifyWithMacroArgs) -> Self {
        Args { err_ty: value.err_ty, cx: Context::Lazy(value.cx) }
    }
}

} // verus!

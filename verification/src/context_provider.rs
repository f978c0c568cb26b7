//! The expression that attaches a context through the backend's own extension trait.
use vstd::prelude::*;

use crate::backend::{selected, Backend, Backends};
use crate::error::{outcome, Diagnostic, DiagnosticView};
use crate::text::{each_followed, push_each, texts};

verus! {

/// The context to attach, in one of its four shapes.
#[derive(Clone, Debug, PartialEq, Eq)]
pub enum ContextData {
    /// A format string and the expressions that it takes.
    Literal {
        /// The string literal, quotes included.
        lit: String,
        /// The arguments of the format string, in order.
        args: Vec<String>,
    },
    /// An expression whose value is the context.
    Expr {
        /// The source text of the expression.
        expr: String,
    },
    /// A closure without parameters that returns the context.
    Closure {
        /// The source text of the closure.
        def: String,
    },
    /// A function without parameters that returns the context.
    Function {
        /// The path of the function.
        path: String,
    },
}

/// The mathematical value of [`ContextData`].
pub enum ContextDataView {
    Literal { lit: Seq<char>, args: Seq<Seq<char>> },
    Expr { expr: Seq<char> },
    Closure { def: Seq<char> },
    Function { path: Seq<char> },
}

impl View for ContextData {
    type V = ContextDataView;

    open spec fn view(&self) -> ContextDataView {
        match self {
            ContextData::Literal { lit, args } => ContextDataView::Literal {
                lit: lit@,
                args: texts(args@),
            },
            ContextData::Expr { expr } => ContextDataView::Expr { expr: expr@ },
            ContextData::Closure { def } => ContextDataView::Closure { def: def@ },
            ContextData::Function { path } => ContextDataView::Function { path: path@ },
        }
    }
}

/// The paths by which a backend is reached: its macro that formats a message, its operation
/// that wraps with a value, and its operation that wraps with a callable.
pub struct BackendPaths {
    pub format: Seq<char>,
    pub eager: Seq<char>,
    pub lazy: Seq<char>,
}

/// The paths of `backend`.
pub open spec fn paths(backend: Backend) -> BackendPaths {
    match backend {
        Backend::Anyhow => BackendPaths {
            format: "::errify::__private::anyhow::anyhow!"@,
            eager: "::errify::__private::anyhow::Context::context"@,
            lazy: "::errify::__private::anyhow::Context::with_context"@,
        },
        Backend::Eyre => BackendPaths {
            format: "::errify::__private::eyre::eyre!"@,
            eager: "::errify::__private::eyre::WrapErr::wrap_err"@,
            lazy: "::errify::__private::eyre::WrapErr::wrap_err_with"@,
        },
    }
}

/// A call of the wrapping operation `operation` on `call_expr` and `context`.
pub open spec fn wrapped(operation: Seq<char>, call_expr: Seq<char>, context: Seq<char>) -> Seq<
    char,
> {
    operation + "( "@ + call_expr + ", "@ + context + " )"@
}

/// The expression that attaches `data` to the result of `call_expr` through `backend`. A
/// literal and an expression are bound first and wrapped with the eager operation; a closure
/// is bound first and handed to the lazy operation; a function is handed to the lazy
/// operation by its path. The lazy operation alone calls what it is handed.
pub open spec fn with_context(backend: Backend, call_expr: Seq<char>, data: ContextDataView) -> Seq<
    char,
> {
    match data {
        ContextDataView::Literal { lit, args } => {
            "{ let __errify_cx = "@ + paths(backend).format + "("@ + lit + ", "@ + each_followed(
                args,
                ", "@,
            ) + ") ; "@ + wrapped(paths(backend).eager, call_expr, "__errify_cx"@) + " }"@
        },
        ContextDataView::Expr { expr } => {
            "{ let __errify_cx = "@ + expr + " ; "@ + wrapped(
                paths(backend).eager,
                call_expr,
                "__errify_cx"@,
            ) + " }"@
        },
        ContextDataView::Closure { def } => {
            "{ let __errify_cx = "@ + def + " ; "@ + wrapped(
                paths(backend).lazy,
                call_expr,
                "__errify_cx"@,
            ) + " }"@
        },
        ContextDataView::Function { path } => wrapped(paths(backend).lazy, call_expr, path),
    }
}

/// The expression that attaches `data` through the single backend that `backends` selects.
pub open spec fn provided_context(
    call_expr: Seq<char>,
    data: ContextDataView,
    backends: Backends,
) -> Result<Seq<char>, DiagnosticView> {
    match selected(
        backends,
        "Ambiguous using errify_macro provider. Choose either `anyhow` or `eyre`"@,
    ) {
        Ok(backend) => Ok(with_context(backend, call_expr, data)),
        Err(e) => Err(e),
    }
}

/// Appends a call of `operation` on `call_expr` and `context`.
fn push_wrapped(out: &mut String, operation: &str, call_expr: &str, context: &str)
    ensures
        final(out)@ == old(out)@ + wrapped(operation@, call_expr@, context@),
{
    out.append(operation);
    out.append("( ");
    out.append(call_expr);
    out.append(", ");
    out.append(context);
    out.append(" )");
    assert(out@ =~= old(out)@ + wrapped(operation@, call_expr@, context@));
}

/// The path of the macro of `backend` that formats a message.
fn format_path(backend: Backend) -> (path: &'static str)
    ensures
        path@ == paths(backend).format,
{
    match backend {
        Backend::Anyhow => "::errify::__private::anyhow::anyhow!",
        Backend::Eyre => "::errify::__private::eyre::eyre!",
    }
}

/// The path of the operation of `backend` that wraps with a value.
fn eager_path(backend: Backend) -> (path: &'static str)
    ensures
        path@ == paths(backend).eager,
{
    match backend {
        Backend::Anyhow => "::errify::__private::anyhow::Context::context",
        Backend::Eyre => "::errify::__private::eyre::WrapErr::wrap_err",
    }
}

/// The path of the operation of `backend` that wraps with a callable.
fn lazy_path(backend: Backend) -> (path: &'static str)
    ensures
        path@ == paths(backend).lazy,
{
    match backend {
        Backend::Anyhow => "::errify::__private::anyhow::Context::with_context",
        Backend::Eyre => "::errify::__private::eyre::WrapErr::wrap_err_with",
    }
}

/// Builds the expression that attaches `data` to the result of `call_expr` through `backend`.
fn attach(backend: Backend, call_expr: &str, data: &ContextData) -> (expr: String)
    ensures
        expr@ == with_context(backend, call_expr@, data@),
{
    match data {
        ContextData::Literal { lit, args } => {
            let mut out = String::from_str("{ let __errify_cx = ");
            out.append(format_path(backend));
            out.append("(");
            out.append(lit.as_str());
            out.append(", ");
            push_each(&mut out, args, ", ");
            out.append(") ; ");
            push_wrapped(&mut out, eager_path(backend), call_expr, "__errify_cx");
            out.append(" }");
            out
        },
        ContextData::Expr { expr } => {
            let mut out = String::from_str("{ let __errify_cx = ");
            out.append(expr.as_str());
            out.append(" ; ");
            push_wrapped(&mut out, eager_path(backend), call_expr, "__errify_cx");
            out.append(" }");
            out
        },
        ContextData::Closure { def } => {
            let mut out = String::from_str("{ let __errify_cx = ");
            out.append(def.as_str());
            out.append(" ; ");
            push_wrapped(&mut out, lazy_path(backend), call_expr, "__errify_cx");
            out.append(" }");
            out
        },
        ContextData::Function { path } => {
            let mut out = String::new();
            push_wrapped(&mut out, lazy_path(backend), call_expr, path.as_str());
            assert(out@ =~= wrapped(paths(backend).lazy, call_expr@, path@));
            out
        },
    }
}

/// Builds the expression that attaches `data` to the result of `call_expr` through the
/// backend that the build selects. With both backends switched on, or none, there is no such
/// expression.
pub fn generic(call_expr: String, data: ContextData, backends: Backends) -> (r: Result<
    String,
    Diagnostic,
>)
    ensures
        outcome(r) == provided_context(call_expr@, data@, backends),
        backends.anyhow && backends.eyre ==> r is Err,
{
    match backends.select(
        "Ambiguous using errify_macro provider. Choose either `anyhow` or `eyre`",
    ) {
        Ok(Backend::Anyhow) => Ok(anyhow(call_expr, data)),
        Ok(Backend::Eyre) => Ok(eyre(call_expr, data)),
        Err(e) => Err(e),
    }
}

/// Builds the expression that attaches `data` through `anyhow`.
pub fn anyhow(call_expr: String, data: ContextData) -> (expr: String)
    ensures
        expr@ == with_context(Backend::Anyhow, call_expr@, data@),
{
    attach(Backend::Anyhow, call_expr.as_str(), &data)
}

/// Builds the expression that attaches `data` through `eyre`.
pub fn eyre(call_expr: String, data: ContextData) -> (expr: String)
    ensures
        expr@ == with_context(Backend::Eyre, call_expr@, data@),
{
    attach(Backend::Eyre, call_expr.as_str(), &data)
}

} // verus!

//! The rewritten function where the error type is the caller's or the backend's.
use vstd::prelude::*;

use crate::backend::{selected, Backend, Backends};
use crate::errify_macro::input::{
    Args, ArgsView, Context, ContextView, ExplicitContext, Input, LazyContext,
};
use crate::error::{at_call_site, outcome, Diagnostic, DiagnosticView, ErrorKind};
use crate::input::{ImmediateContextView, LazyContextView};
use crate::item::{function_text, Function, FunctionView};
use crate::output::{binding, build_call_expression, call_expression};
use crate::syntax::{optional_text, Signature, SignatureView};
use crate::text::{each_followed, push_each};
use crate::utils::{no_return_type, ok_ty, success_type};

verus! {

/// The message for a build that switches on both backends.
pub open spec fn ambiguous() -> Seq<char> {
    "Ambiguous error type. Choose either `anyhow` or `eyre`"@
}

/// The failure for a build that switches on both backends.
pub open spec fn ambiguous_error_type() -> DiagnosticView {
    at_call_site(ErrorKind::Configuration, ambiguous())
}

/// The error type of the rewritten function. A build that switches on both backends has none,
/// whatever the arguments name. Else it is the type that the arguments name, and without one
/// the error type of the backend that the build selects.
pub open spec fn error_type_of(err_ty: Option<Seq<char>>, backends: Backends) -> Result<
    Seq<char>,
    DiagnosticView,
> {
    if backends.anyhow && backends.eyre {
        Err(ambiguous_error_type())
    } else {
        match err_ty {
            Some(ty) => Ok(ty),
            None => match selected(backends, ambiguous()) {
                Ok(backend) => Ok(crate::error_provider::error_type(backend)),
                Err(e) => Err(e),
            },
        }
    }
}

/// The return type of the rewritten function.
pub open spec fn result_type(ok: Seq<char>, err: Seq<char>) -> Seq<char> {
    "::errify::__private::Result < "@ + ok + " , "@ + err + " >"@
}

/// The arm for a success: the value is handed on as it is. No context stands in it.
pub open spec fn success_arm() -> Seq<char> {
    "::errify::__private::Ok(v) => Ok(v),"@
}

/// The arm for a failure: the error is wrapped as an `err_ty` with the value of the expression
/// `context`.
pub open spec fn failure_arm(err_ty: Seq<char>, context: Seq<char>) -> Seq<char> {
    "::errify::__private::Err(err) => Err(<"@ + err_ty + " as ::errify::WrapErr>::wrap_err(err, "@
        + context + ")),"@
}

/// The statements that run `call_expr` and hand its result on. The expression `context`
/// stands in the arm for a failure alone, so it is evaluated only once the call has failed.
pub open spec fn intercepted(call_expr: Seq<char>, err_ty: Seq<char>, context: Seq<char>) -> Seq<
    char,
> {
    "let __errify_res = "@ + call_expr + " ; match __errify_res { "@ + success_arm() + " "@
        + failure_arm(err_ty, context) + " }"@
}

/// What the body binds to `__errify_cx` before it runs the call: the value of an explicit
/// context, or the closure of a lazy one, which is not called there. A function is not bound.
pub open spec fn bound_context(cx: ContextView) -> Option<Seq<char>> {
    match cx {
        ContextView::Explicit(ImmediateContextView::Literal { lit, args }) => Some(
            "::errify::error!("@ + lit + ", "@ + each_followed(args, ", "@) + ")"@,
        ),
        ContextView::Explicit(ImmediateContextView::Expr { expr }) => Some(expr),
        ContextView::Lazy(LazyContextView::Closure { def }) => Some(def),
        ContextView::Lazy(LazyContextView::Function { path }) => None,
    }
}

/// The expression that gives the context once the call has failed: the bound value of an
/// explicit context, a call of the bound closure, or a call of the function.
pub open spec fn failure_context(cx: ContextView) -> Seq<char> {
    match cx {
        ContextView::Explicit(_) => "__errify_cx"@,
        ContextView::Lazy(LazyContextView::Closure { def }) => "(__errify_cx)()"@,
        ContextView::Lazy(LazyContextView::Function { path }) => path + "()"@,
    }
}

/// The body that applies the context `cx` to `call_expr`: it binds what there is to bind, runs
/// the call, and evaluates the context in the arm for a failure, where the error is wrapped
/// as an `err_ty`.
pub open spec fn context_applied(call_expr: Seq<char>, cx: ContextView, err_ty: Seq<char>) -> Seq<
    char,
> {
    "{ "@ + binding(bound_context(cx)) + intercepted(call_expr, err_ty, failure_context(cx))
        + " }"@
}

/// The function that replaces `input` where its declared return type is `declared`, with the
/// success type `ok`, and errors are wrapped as `err`.
pub open spec fn assembled(
    cx: ContextView,
    input: FunctionView,
    declared: Seq<char>,
    ok: Seq<char>,
    err: Seq<char>,
) -> FunctionView {
    FunctionView {
        sig: SignatureView { output: Some(result_type(ok, err)), ..input.sig },
        block: "{ "@ + context_applied(call_expression(input.sig, input.block, declared), cx, err)
            + " }"@,
        ..input
    }
}

/// The function that replaces `input`: everything but the return type and the body is kept.
/// The return type carries the success type of `input` and the error type of the expansion;
/// the body applies the context to the call of the body it had. Failures are found in this
/// order: no return type is declared, both backends are switched on, no error type is named
/// or selected, the return type is not shaped like `Result<...>`.
pub open spec fn rewritten(args: ArgsView, input: FunctionView, backends: Backends) -> Result<
    FunctionView,
    DiagnosticView,
> {
    match input.sig.output {
        None => Err(no_return_type()),
        Some(declared) => match error_type_of(args.err_ty, backends) {
            Err(e) => Err(e),
            Ok(err) => match success_type(Some(declared)) {
                Err(e) => Err(e),
                Ok(ok) => Ok(assembled(args.cx, input, declared, ok, err)),
            },
        },
    }
}

/// Appends the statements that run `call_expr` and wrap its error with `context`.
pub fn push_intercepted(out: &mut String, call_expr: &str, err_ty: &str, context: &str)
    ensures
        final(out)@ == old(out)@ + intercepted(call_expr@, err_ty@, context@),
{
    out.append("let __errify_res = ");
    out.append(call_expr);
    out.append(" ; match __errify_res { ");
    out.append("::errify::__private::Ok(v) => Ok(v),");
    out.append(" ");
    out.append("::errify::__private::Err(err) => Err(<");
    out.append(err_ty);
    out.append(" as ::errify::WrapErr>::wrap_err(err, ");
    out.append(context);
    out.append(")),");
    out.append(" }");
    assert(out@ =~= old(out)@ + intercepted(call_expr@, err_ty@, context@));
}

/// Builds the body that applies the context `cx` to the call `call_expr`, wrapping errors as
/// `err_ty`.
pub fn apply_context(call_expr: &str, cx: &Context, err_ty: &str) -> (body: String)
    ensures
        body@ == context_applied(call_expr@, cx@, err_ty@),
{
    let mut out = String::from_str("{ ");
    match cx {
        Context::Explicit(ExplicitContext::Literal { lit, args }) => {
            out.append("let __errify_cx = ");
            out.append("::errify::error!(");
            out.append(lit.as_str());
            out.append(", ");
            push_each(&mut out, args, ", ");
            out.append(")");
            out.append(" ; ");
            push_intercepted(&mut out, call_expr, err_ty, "__errify_cx");
        },
        Context::Explicit(ExplicitContext::Expr { expr }) => {
            out.append("let __errify_cx = ");
            out.append(expr.as_str());
            out.append(" ; ");
            push_intercepted(&mut out, call_expr, err_ty, "__errify_cx");
        },
        Context::Lazy(LazyContext::Closure { def }) => {
            out.append("let __errify_cx = ");
            out.append(def.as_str());
            out.append(" ; ");
            push_intercepted(&mut out, call_expr, err_ty, "(__errify_cx)()");
        },
        Context::Lazy(LazyContext::Function { path }) => {
            let mut call = path.clone();
            call.append("()");
            push_intercepted(&mut out, call_expr, err_ty, call.as_str());
        },
    }
    out.append(" }");
    assert(out@ =~= context_applied(call_expr@, cx@, err_ty@));
    out
}

/// Picks the error type of the rewritten function.
pub fn error_type(err_ty: Option<String>, backends: Backends) -> (r: Result<String, Diagnostic>)
    ensures
        outcome(r) == error_type_of(optional_text(err_ty), backends),
        backends.anyhow && backends.eyre ==> outcome(r) == Err::<Seq<char>, DiagnosticView>(
            ambiguous_error_type(),
        ),
{
    if backends.anyhow && backends.eyre {
        return Err(
            Diagnostic::call_site(
                ErrorKind::Configuration,
                "Ambiguous error type. Choose either `anyhow` or `eyre`",
            ),
        );
    }
    match err_ty {
        Some(ty) => Ok(ty),
        None => match backends.select("Ambiguous error type. Choose either `anyhow` or `eyre`") {
            Ok(Backend::Anyhow) => Ok(crate::error_provider::anyhow()),
            Ok(Backend::Eyre) => Ok(crate::error_provider::eyre()),
            Err(e) => Err(e),
        },
    }
}

/// The function that an attribute leaves in place of the one it stands on.
#[derive(Clone, Debug, PartialEq, Eq)]
pub struct Output {
    pub func: Function,
}

impl View for Output {
    type V = FunctionView;

    open spec fn view(&self) -> FunctionView {
        self.func@
    }
}

impl Output {
    /// Puts the rewritten function together from `func`, whose declared return type is
    /// `declared` with the success type `ok`, for errors wrapped as `err`.
    pub fn assemble(cx: &Context, func: Function, declared: &str, ok: &str, err: &str) -> (output:
        Self)
        ensures
            output@ == assembled(cx@, func@, declared@, ok@, err@),
    {
        let Function { attrs, vis, defaultness, sig, block } = func;
        let call_expr = build_call_expression(&sig, block.as_str(), declared);
        let cx_expr = apply_context(call_expr.as_str(), cx, err);
        let mut body = String::from_str("{ ");
        body.append(cx_expr.as_str());
        body.append(" }");
        let mut ret = String::from_str("::errify::__private::Result < ");
        ret.append(ok);
        ret.append(" , ");
        ret.append(err);
        ret.append(" >");
        let Signature {
            constness,
            asyncness,
            unsafety,
            abi,
            ident,
            generics,
            inputs,
            output,
            where_clause,
        } = sig;
        let sig = Signature {
            constness,
            asyncness,
            unsafety,
            abi,
            ident,
            generics,
            inputs,
            output: Some(ret),
            where_clause,
        };
        Output { func: Function { attrs, vis, defaultness, sig, block: body } }
    }

    /// Rewrites `input` so that every error it returns carries the context of `args`.
    ///
    /// The result keeps the attributes, the visibility, the qualifiers, the name, the generic
    /// parameters, the arguments and the `where` clause of `input`. With both backends
    /// switched on there is no result, whatever the arguments are: a function that declares a
    /// return type gets the failure for an ambiguous error type.
    pub fn from_ast(args: Args, input: Input, backends: Backends) -> (r: Result<Self, Diagnostic>)
        ensures
            outcome(r) == rewritten(args@, input@, backends),
            r matches Ok(output) ==> {
                &&& output@.attrs == input@.attrs
                &&& output@.vis == input@.vis
                &&& output@.defaultness == input@.defaultness
                &&& output@.sig.constness == input@.sig.constness
                &&& output@.sig.asyncness == input@.sig.asyncness
                &&& output@.sig.unsafety == input@.sig.unsafety
                &&& output@.sig.abi == input@.sig.abi
                &&& output@.sig.ident == input@.sig.ident
                &&& output@.sig.generics == input@.sig.generics
                &&& output@.sig.inputs == input@.sig.inputs
                &&& output@.sig.where_clause == input@.sig.where_clause
            },
            backends.anyhow && backends.eyre ==> r is Err,
            backends.anyhow && backends.eyre && input@.sig.output is Some ==> outcome(r) == Err::<
                FunctionView,
                DiagnosticView,
            >(ambiguous_error_type()),
    {
        let Args { err_ty, cx } = args;
        let declared = match &input.func.sig.output {
            None => {
                return Err(
                    Diagnostic::call_site(
                        ErrorKind::Shape,
                        "Invalid return type. Expected `Result<...>`",
                    ),
                );
            },
            Some(declared) => declared.clone(),
        };
        let err = match error_type(err_ty, backends) {
            Ok(err) => err,
            Err(e) => {
                return Err(e);
            },
        };
        let ok = match ok_ty(&input.func.sig.output) {
            Ok(ok) => ok,
            Err(e) => {
                return Err(e);
            },
        };
        Ok(Self::assemble(&cx, input.func, declared.as_str(), ok.as_str(), err.as_str()))
    }

    /// Writes the rewritten function out as source text.
    pub fn to_tokens(&self) -> (tokens: String)
        ensures
            tokens@ == function_text(self@),
    {
        self.func.to_tokens()
    }
}

} // verus!

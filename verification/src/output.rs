//! The rewritten function: the body moved into a closure, called, and its error
//! wrapped with the context.
use vstd::prelude::*;

use crate::error::{outcome, Diagnostic, DiagnosticView, ErrorKind};
use crate::input::{
    Args, Context, ContextView, ImmediateContext, ImmediateContextView, Input, LazyContext,
    LazyContextView,
};
use crate::item::{function_text, Function, FunctionView};
use crate::syntax::{Signature, SignatureView};
use crate::text::{each_followed, optional, push_each, push_optional};
use crate::utils::{expected_result, no_return_type, ok_ty, success_type};

verus! {

/// The closure that takes over the body of the function: it keeps the qualifiers that the body
/// was written under and takes no arguments.
pub open spec fn inner_closure(sig: SignatureView, block: Seq<char>) -> Seq<char> {
    optional(sig.constness, "const"@, " "@) + "move | | { "@ + optional(
        sig.asyncness,
        "async move"@,
        " "@,
    ) + "{ "@ + optional(sig.unsafety, "unsafe"@, " "@) + "{ "@ + block + " } } }"@
}

/// The expression that runs the body: it binds the closure, calls it once, awaits the result
/// where the function is `async`, and holds the result under the declared return type.
pub open spec fn call_expression(sig: SignatureView, block: Seq<char>, output: Seq<char>) -> Seq<
    char,
> {
    "{ let __errify_fn = "@ + inner_closure(sig, block) + " ; let __errify_fn_res : "@ + output
        + " = (__errify_fn)()"@ + optional(sig.asyncness, ".await"@, ""@) + " ; __errify_fn_res }"@
}

/// The arm for a success: the value is handed on as it is. No context stands in it.
pub open spec fn success_arm() -> Seq<char> {
    "::errify::__private::Ok(v) => ::errify::__private::Ok(v),"@
}

/// The arm for a failure: the error is wrapped with the value of the expression `context`.
pub open spec fn failure_arm(context: Seq<char>) -> Seq<char> {
    "::errify::__private::Err(err) => ::errify::__private::Err(::errify::WrapErr::wrap_err(err, "@
        + context + ")),"@
}

/// The statements that run `call_expr` and hand its result on. The expression `context`
/// stands in the arm for a failure alone, so it is evaluated only once the call has failed.
pub open spec fn intercepted(call_expr: Seq<char>, context: Seq<char>) -> Seq<char> {
    "let __errify_res = "@ + call_expr + " ; match __errify_res { "@ + success_arm() + " "@
        + failure_arm(context) + " }"@
}

/// What the body binds to `__errify_cx` before it runs the call: the value of an immediate
/// context, or the closure of a lazy one, which is not called there. A function is not bound.
pub open spec fn bound_context(cx: ContextView) -> Option<Seq<char>> {
    match cx {
        ContextView::Immediate(ImmediateContextView::Literal { lit, args }) => Some(
            "::errify::format_cx!("@ + lit + ", "@ + each_followed(args, ", "@) + ")"@,
        ),
        ContextView::Immediate(ImmediateContextView::Expr { expr }) => Some(expr),
        ContextView::Lazy(LazyContextView::Closure { def }) => Some(def),
        ContextView::Lazy(LazyContextView::Function { path }) => None,
    }
}

/// The expression that gives the context once the call has failed: the bound value of an
/// immediate context, a call of the bound closure, or a call of the function.
pub open spec fn failure_context(cx: ContextView) -> Seq<char> {
    match cx {
        ContextView::Immediate(_) => "__errify_cx"@,
        ContextView::Lazy(LazyContextView::Closure { def }) => "(__errify_cx)()"@,
        ContextView::Lazy(LazyContextView::Function { path }) => path + "()"@,
    }
}

/// The statement that binds `bound` to `__errify_cx`, if there is anything to bind.
pub open spec fn binding(bound: Option<Seq<char>>) -> Seq<char> {
    match bound {
        Some(value) => "let __errify_cx = "@ + value + " ; "@,
        None => Seq::empty(),
    }
}

/// The body that applies the context `cx` to `call_expr`: it binds what there is to bind, runs
/// the call, and evaluates the context in the arm for a failure.
pub open spec fn context_applied(call_expr: Seq<char>, cx: ContextView) -> Seq<char> {
    "{ "@ + binding(bound_context(cx)) + intercepted(call_expr, failure_context(cx)) + " }"@
}

/// The function that replaces `input`: everything but the body is kept, and the body applies
/// the context to the call of the body it had. A function that declares no return type, or one
/// that is not shaped like `Result<...>`, is not rewritten: it gets the one failure for such a
/// return type.
pub open spec fn rewritten(cx: ContextView, input: FunctionView) -> Result<
    FunctionView,
    DiagnosticView,
> {
    match input.sig.output {
        None => Err(no_return_type()),
        Some(output) => match success_type(Some(output)) {
            Err(e) => Err(e),
            Ok(_) => Ok(
                FunctionView {
                    block: "{ "@ + context_applied(
                        call_expression(input.sig, input.block, output),
                        cx,
                    ) + " }"@,
                    ..input
                },
            ),
        },
    }
}

/// Rewriting keeps everything of a function but its body.
pub proof fn lemma_rewriting_keeps_signature(cx: ContextView, input: FunctionView)
    ensures
        rewritten(cx, input) matches Ok(output) ==> {
            &&& output.attrs == input.attrs
            &&& output.vis == input.vis
            &&& output.defaultness == input.defaultness
            &&& output.sig == input.sig
        },
{
}

/// Appends the statements that run `call_expr` and wrap its error with `context`.
pub fn push_intercepted(out: &mut String, call_expr: &str, context: &str)
    ensures
        final(out)@ == old(out)@ + intercepted(call_expr@, context@),
{
    out.append("let __errify_res = ");
    out.append(call_expr);
    out.append(" ; match __errify_res { ");
    out.append("::errify::__private::Ok(v) => ::errify::__private::Ok(v),");
    out.append(" ");
    out.append(
        "::errify::__private::Err(err) => ::errify::__private::Err(::errify::WrapErr::wrap_err(err, ",
    );
    out.append(context);
    out.append(")),");
    out.append(" }");
    assert(out@ =~= old(out)@ + intercepted(call_expr@, context@));
}

/// Builds the body that applies the context `cx` to the call `call_expr`.
pub fn apply_context(call_expr: &str, cx: &Context) -> (body: String)
    ensures
        body@ == context_applied(call_expr@, cx@),
{
    let mut out = String::from_str("{ ");
    match cx {
        Context::Immediate(ImmediateContext::Literal { lit, args }) => {
            out.append("let __errify_cx = ");
            out.append("::errify::format_cx!(");
            out.append(lit.as_str());
            out.append(", ");
            push_each(&mut out, args, ", ");
            out.append(")");
            out.append(" ; ");
            push_intercepted(&mut out, call_expr, "__errify_cx");
        },
        Context::Immediate(ImmediateContext::Expr { expr }) => {
            out.append("let __errify_cx = ");
            out.append(expr.as_str());
            out.append(" ; ");
            push_intercepted(&mut out, call_expr, "__errify_cx");
        },
        Context::Lazy(LazyContext::Closure { def }) => {
            out.append("let __errify_cx = ");
            out.append(def.as_str());
            out.append(" ; ");
            push_intercepted(&mut out, call_expr, "(__errify_cx)()");
        },
        Context::Lazy(LazyContext::Function { path }) => {
            let mut call = path.clone();
            call.append("()");
            push_intercepted(&mut out, call_expr, call.as_str());
        },
    }
    out.append(" }");
    assert(out@ =~= context_applied(call_expr@, cx@));
    out
}

/// Builds the closure that takes over `block`.
pub fn build_inner_closure(sig: &Signature, block: &str) -> (closure: String)
    ensures
        closure@ == inner_closure(sig@, block@),
{
    let mut out = String::new();
    push_optional(&mut out, sig.constness, "const", " ");
    out.append("move | | { ");
    push_optional(&mut out, sig.asyncness, "async move", " ");
    out.append("{ ");
    push_optional(&mut out, sig.unsafety, "unsafe", " ");
    out.append("{ ");
    out.append(block);
    out.append(" } } }");
    assert(out@ =~= inner_closure(sig@, block@));
    out
}

/// Builds the expression that runs `block` through a closure.
pub fn build_call_expression(sig: &Signature, block: &str, output: &str) -> (call: String)
    ensures
        call@ == call_expression(sig@, block@, output@),
{
    let inner = build_inner_closure(sig, block);
    let mut out = String::from_str("{ let __errify_fn = ");
    out.append(inner.as_str());
    out.append(" ; let __errify_fn_res : ");
    out.append(output);
    out.append(" = (__errify_fn)()");
    push_optional(&mut out, sig.asyncness, ".await", "");
    out.append(" ; __errify_fn_res }");
    out
}

/// The function that an attribute leaves in place of the one it stands on.
#[derive(Clone, Debug, PartialEq, Eq)]
pub struct Output {
    pub func: Function,
}

impl View for Output {
    type V = FunctionView;

    open spec fn view(&self) -> FunctionView {
        self.func@
    }
}

impl Output {
    /// Rewrites `input` so that every error it returns carries the context of `args`.
    ///
    /// The result keeps the attributes, the visibility, the qualifiers, the name, the generic
    /// parameters, the arguments, the return type and the `where` clause of `input`. There is
    /// a result exactly where the return type is shaped like `Result<...>`, and every failure
    /// is the one for a return type of another shape.
    pub fn from_ast(args: Args, input: Input) -> (r: Result<Self, Diagnostic>)
        ensures
            outcome(r) == rewritten(args@, input@),
            r matches Ok(output) ==> {
                &&& output@.attrs == input@.attrs
                &&& output@.vis == input@.vis
                &&& output@.defaultness == input@.defaultness
                &&& output@.sig == input@.sig
            },
            r is Ok <==> success_type(input@.sig.output) is Ok,
            r matches Err(e) ==> e@.kind == ErrorKind::Shape && e@.message == expected_result(),
    {
        let Function { attrs, vis, defaultness, sig, block } = input.func;
        let call_expr = match &sig.output {
            None => {
                return Err(
                    Diagnostic::call_site(
                        ErrorKind::Shape,
                        "Invalid return type. Expected `Result<...>`",
                    ),
                );
            },
            Some(output) => build_call_expression(&sig, block.as_str(), output.as_str()),
        };
        match ok_ty(&sig.output) {
            Err(e) => {
                return Err(e);
            },
            Ok(_) => {},
        }
        let cx_expr = apply_context(call_expr.as_str(), &args.cx);
        let mut body = String::from_str("{ ");
        body.append(cx_expr.as_str());
        body.append(" }");
        Ok(Output { func: Function { attrs, vis, defaultness, sig, block: body } })
    }

    /// Writes the rewritten function out as source text.
    pub fn to_tokens(&self) -> (tokens: String)
        ensures
            tokens@ == function_text(self@),
    {
        self.func.to_tokens()
    }
}

} // verus!

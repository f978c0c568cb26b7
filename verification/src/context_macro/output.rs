//! The rewritten function: the annotated one moved into a nested function, called with the same
//! arguments, and its error wrapped through the backend.
use vstd::prelude::*;

use crate::backend::Backends;
use crate::context_macro::input::{Args, ArgsView, Input, InputView};
use crate::context_provider::{provided_context, ContextData, ContextDataView};
use crate::error::{at_call_site, outcome, Diagnostic, DiagnosticView, ErrorKind};
use crate::error_provider::provided_error;
use crate::item::{function_text, push_signature, signature_text, Function, FunctionView};
use crate::syntax::{Signature, SignatureView};
use crate::text::{each_followed, optional, push_optional};
use crate::utils::{
    call_inputs, clean_args_text, clean_args_tokens, clean_views, clear_inputs, cleared_inputs,
    names, ok_ty, success_type, CleanFnArg, CleanFnArgView,
};

verus! {

/// The signature of the nested function that takes over the body: that of the function under
/// a name with an underscore in front.
pub open spec fn inner_signature(sig: SignatureView) -> SignatureView {
    SignatureView { ident: "_"@ + sig.ident, ..sig }
}

/// The nested function that takes over the body of `func`.
pub open spec fn inner_function(func: FunctionView) -> Seq<char> {
    signature_text(inner_signature(func.sig)) + func.block
}

/// The call of the nested function with the arguments `names`, in their order: awaited where
/// the function is `async`, inside an `unsafe` block where it is `unsafe`.
pub open spec fn forwarding_call(sig: SignatureView, names: Seq<Seq<char>>) -> Seq<char> {
    optional(sig.unsafety, "unsafe {"@, " "@) + "_"@ + sig.ident + "( "@ + each_followed(
        names,
        ", "@,
    ) + ")"@ + optional(sig.asyncness, ".await"@, ""@) + optional(sig.unsafety, " }"@, ""@)
}

/// The failure for an attribute without arguments.
pub open spec fn arguments_required() -> Seq<char> {
    "The macro requires arguments (literal with positions arguments or custom error) above the function"@
}

/// The context that the arguments ask for; there is none without arguments.
pub open spec fn context_data(args: ArgsView) -> Result<ContextDataView, DiagnosticView> {
    match args {
        ArgsView::Empty { span } => Err(
            DiagnosticView { kind: ErrorKind::Grammar, message: arguments_required(), span },
        ),
        ArgsView::Literal { lit, args } => Ok(ContextDataView::Literal { lit, args }),
        ArgsView::ErrorType { expr } => Ok(ContextDataView::Expr { expr }),
        ArgsView::Closure { def } => Ok(ContextDataView::Closure { def }),
        ArgsView::Function { path } => Ok(ContextDataView::Function { path }),
    }
}

/// The return type of the rewritten function.
pub open spec fn result_type(ok: Seq<char>, err: Seq<char>) -> Seq<char> {
    "::core::result::Result < "@ + ok + " , "@ + err + " >"@
}

/// The function that replaces `input` where its arguments were cleaned to `outer_args`, its
/// context is attached by `cx_expr`, and it returns `ok` or `err`.
pub open spec fn assembled(
    input: FunctionView,
    outer_args: Seq<CleanFnArgView>,
    cx_expr: Seq<char>,
    ok: Seq<char>,
    err: Seq<char>,
) -> FunctionView {
    FunctionView {
        sig: SignatureView {
            inputs: clean_args_text(outer_args),
            output: Some(result_type(ok, err)),
            ..input.sig
        },
        block: "{ "@ + inner_function(input) + " "@ + cx_expr + " }"@,
        ..input
    }
}

/// The function that replaces `input`. The attributes, the visibility, the qualifiers, the
/// name, the generic parameters and the `where` clause are kept; every argument gets a name
/// to forward it by; the return type carries the success type of `input` and the error type
/// of the backend; the body holds the function itself as a nested function and the call that
/// attaches the context. Failures are found in this order: an argument is a receiver, the
/// attribute has no arguments, no single backend is selected, the return type is not shaped
/// like `Result<...>`.
pub open spec fn rewritten(args: ArgsView, input: FunctionView, backends: Backends) -> Result<
    FunctionView,
    DiagnosticView,
> {
    match cleared_inputs(input.sig.inputs) {
        Err(e) => Err(e),
        Ok(outer_args) => match context_data(args) {
            Err(e) => Err(e),
            Ok(data) => match provided_context(
                forwarding_call(input.sig, names(outer_args)),
                data,
                backends,
            ) {
                Err(e) => Err(e),
                Ok(cx_expr) => match success_type(input.sig.output) {
                    Err(e) => Err(e),
                    Ok(ok) => match provided_error(backends) {
                        Err(e) => Err(e),
                        Ok(err) => Ok(assembled(input, outer_args, cx_expr, ok, err)),
                    },
                },
            },
        },
    }
}

/// The failure for a method.
pub open spec fn method_unsupported() -> DiagnosticView {
    at_call_site(
        ErrorKind::Shape,
        "Using the macro with a method (with the Self argument) is not yet supported"@,
    )
}

/// The failure for an entry of an impl block.
pub open spec fn impl_unsupported() -> DiagnosticView {
    at_call_site(ErrorKind::Shape, "Using the macro with a impl block is not yet supported"@)
}

/// What an attribute leaves in place of the item it stands on.
#[derive(Clone, Debug, PartialEq, Eq)]
pub enum Output {
    /// A rewritten function.
    Function(Function),
    /// A rewritten method.
    Method(Function),
    /// A rewritten entry of an impl block, as source text.
    Impl(String),
}

/// The mathematical value of an [`Output`].
pub enum OutputView {
    Function(FunctionView),
    Method(FunctionView),
    Impl(Seq<char>),
}

impl View for Output {
    type V = OutputView;

    open spec fn view(&self) -> OutputView {
        match self {
            Output::Function(func) => OutputView::Function(func@),
            Output::Method(func) => OutputView::Method(func@),
            Output::Impl(item) => OutputView::Impl(item@),
        }
    }
}

/// The rewritten function as an output.
pub open spec fn function_output(func: Result<FunctionView, DiagnosticView>) -> Result<
    OutputView,
    DiagnosticView,
> {
    match func {
        Ok(func) => Ok(OutputView::Function(func)),
        Err(e) => Err(e),
    }
}

/// What replaces the item `input`: a function is rewritten; a method and any other entry of
/// an impl block are failures.
pub open spec fn rewritten_target(args: ArgsView, input: InputView, backends: Backends) -> Result<
    OutputView,
    DiagnosticView,
> {
    match input {
        InputView::Function(func) => function_output(rewritten(args, func, backends)),
        InputView::Method(_) => Err(method_unsupported()),
        InputView::Impl(_) => Err(impl_unsupported()),
    }
}

/// The source text of an output.
pub open spec fn output_text(output: OutputView) -> Seq<char> {
    match output {
        OutputView::Function(func) => function_text(func),
        OutputView::Method(func) => function_text(func),
        OutputView::Impl(item) => item,
    }
}

/// Picks the context that the arguments ask for.
pub fn context_of(args: Args) -> (r: Result<ContextData, Diagnostic>)
    ensures
        outcome(r) == context_data(args@),
{
    match args {
        Args::Empty { span } => Err(
            Diagnostic {
                kind: ErrorKind::Grammar,
                message: String::from_str(
                    "The macro requires arguments (literal with positions arguments or custom error) above the function",
                ),
                span,
            },
        ),
        Args::Literal { lit, args } => Ok(ContextData::Literal { lit, args }),
        Args::ErrorType { expr } => Ok(ContextData::Expr { expr }),
        Args::Closure { def } => Ok(ContextData::Closure { def }),
        Args::Function { path } => Ok(ContextData::Function { path }),
    }
}

/// Builds the call of the nested function of `sig` with the arguments `args`.
pub fn build_forwarding_call(sig: &Signature, args: &Vec<CleanFnArg>) -> (call: String)
    ensures
        call@ == forwarding_call(sig@, names(clean_views(args@))),
{
    let call_args = call_inputs(args);
    let mut out = String::new();
    push_optional(&mut out, sig.unsafety, "unsafe {", " ");
    out.append("_");
    out.append(sig.ident.as_str());
    out.append("( ");
    out.append(call_args.as_str());
    out.append(")");
    push_optional(&mut out, sig.asyncness, ".await", "");
    push_optional(&mut out, sig.unsafety, " }", "");
    assert(out@ =~= forwarding_call(sig@, names(clean_views(args@))));
    out
}

/// Copies the signature `sig` under the name `ident`, with the arguments `inputs` and the
/// return type `output`.
fn signature_with(sig: &Signature, ident: String, inputs: String, output: Option<String>) -> (r:
    Signature)
    ensures
        r@ == (SignatureView {
            ident: ident@,
            inputs: inputs@,
            output: crate::syntax::optional_text(output),
            ..sig@
        }),
{
    Signature {
        constness: sig.constness,
        asyncness: sig.asyncness,
        unsafety: sig.unsafety,
        abi: match &sig.abi {
            Some(abi) => Some(abi.clone()),
            None => None,
        },
        ident,
        generics: sig.generics.clone(),
        inputs,
        output,
        where_clause: sig.where_clause.clone(),
    }
}

impl Output {
    /// Rewrites the item `input` so that every error it returns carries the context of `args`.
    ///
    /// With both backends switched on there is no result, whatever the arguments are.
    pub fn parse(args: Args, input: Input, backends: Backends) -> (r: Result<Self, Diagnostic>)
        ensures
            outcome(r) == rewritten_target(args@, input@, backends),
            backends.anyhow && backends.eyre ==> r is Err,
    {
        match input {
            Input::Function(f) => Self::parse_func(args, f, backends),
            Input::Method(f) => Self::parse_method(args, f),
            Input::Impl(i) => Self::parse_impl(args, i),
        }
    }

    /// Puts the rewritten function together from `input`, whose arguments were cleaned to
    /// `outer_args`, for the context attached by `cx_expr` and the return type made of `ok`
    /// and `err`.
    pub fn assemble(
        input: Function,
        outer_args: &Vec<CleanFnArg>,
        cx_expr: &str,
        ok: &str,
        err: &str,
    ) -> (func: Function)
        ensures
            func@ == assembled(input@, clean_views(outer_args@), cx_expr@, ok@, err@),
    {
        let mut inner_name = String::from_str("_");
        inner_name.append(input.sig.ident.as_str());
        let inner = signature_with(
            &input.sig,
            inner_name,
            input.sig.inputs.clone(),
            match &input.sig.output {
                Some(output) => Some(output.clone()),
                None => None,
            },
        );
        assert(inner@ == inner_signature(input.sig@));
        let mut body = String::from_str("{ ");
        let ghost start = body@;
        push_signature(&mut body, &inner);
        body.append(input.block.as_str());
        assert(body@ =~= start + inner_function(input@));
        body.append(" ");
        body.append(cx_expr);
        body.append(" }");
        let mut ret = String::from_str("::core::result::Result < ");
        ret.append(ok);
        ret.append(" , ");
        ret.append(err);
        ret.append(" >");
        let sig = signature_with(
            &input.sig,
            input.sig.ident.clone(),
            clean_args_tokens(outer_args),
            Some(ret),
        );
        let Function { attrs, vis, defaultness, sig: _, block: _ } = input;
        Function { attrs, vis, defaultness, sig, block: body }
    }

    /// Rewrites the function `input`.
    ///
    /// The result keeps the attributes, the visibility, the qualifiers, the name, the generic
    /// parameters and the `where` clause of `input`.
    pub fn parse_func(args: Args, input: Function, backends: Backends) -> (r: Result<
        Self,
        Diagnostic,
    >)
        ensures
            outcome(r) == function_output(rewritten(args@, input@, backends)),
            r matches Ok(Output::Function(func)) ==> {
                &&& func@.attrs == input@.attrs
                &&& func@.vis == input@.vis
                &&& func@.defaultness == input@.defaultness
                &&& func@.sig.constness == input@.sig.constness
                &&& func@.sig.asyncness == input@.sig.asyncness
                &&& func@.sig.unsafety == input@.sig.unsafety
                &&& func@.sig.abi == input@.sig.abi
                &&& func@.sig.ident == input@.sig.ident
                &&& func@.sig.generics == input@.sig.generics
                &&& func@.sig.where_clause == input@.sig.where_clause
            },
            backends.anyhow && backends.eyre ==> r is Err,
    {
        let outer_args = match clear_inputs(input.sig.inputs.as_str()) {
            Ok(outer_args) => outer_args,
            Err(e) => {
                return Err(e);
            },
        };
        let call_expr = build_forwarding_call(&input.sig, &outer_args);
        let cx_data = match context_of(args) {
            Ok(cx_data) => cx_data,
            Err(e) => {
                return Err(e);
            },
        };
        let cx_expr = match crate::context_provider::generic(call_expr, cx_data, backends) {
            Ok(cx_expr) => cx_expr,
            Err(e) => {
                return Err(e);
            },
        };
        let ok = match ok_ty(&input.sig.output) {
            Ok(ok) => ok,
            Err(e) => {
                return Err(e);
            },
        };
        let err = match crate::error_provider::generic(backends) {
            Ok(err) => err,
            Err(e) => {
                return Err(e);
            },
        };
        Ok(
            Output::Function(
                Self::assemble(input, &outer_args, cx_expr.as_str(), ok.as_str(), err.as_str()),
            ),
        )
    }

    /// Rejects a method: the attribute does not take one yet.
    pub fn parse_method(_args: Args, _input: Function) -> (r: Result<Self, Diagnostic>)
        ensures
            r matches Err(e) && e@ == method_unsupported(),
    {
        Err(
            Diagnostic::call_site(
                ErrorKind::Shape,
                "Using the macro with a method (with the Self argument) is not yet supported",
            ),
        )
    }

    /// Rejects an entry of an impl block: the attribute does not take one yet.
    pub fn parse_impl(_args: Args, _input: String) -> (r: Result<Self, Diagnostic>)
        ensures
            r matches Err(e) && e@ == impl_unsupported(),
    {
        Err(
            Diagnostic::call_site(
                ErrorKind::Shape,
                "Using the macro with a impl block is not yet supported",
            ),
        )
    }

    /// Writes the rewritten item out as source text.
    pub fn to_tokens(&self) -> (tokens: String)
        ensures
            tokens@ == output_text(self@),
    {
        match self {
            Output::Function(f) => f.to_tokens(),
            Output::Method(f) => f.to_tokens(),
            Output::Impl(i) => i.clone(),
        }
    }
}

} // verus!

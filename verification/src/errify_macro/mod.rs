//! The two attributes that wrap errors through `WrapErr` and let the caller name the error type.
use vstd::prelude::*;

use crate::backend::{both, Backends};
use crate::errify_macro::input::{
    errify_args, errify_with_args, Args, ArgsView, ContextView, ErrifyMacroArgs,
    ErrifyMacroArgsView, ErrifyWithMacroArgs, ErrifyWithMacroArgsView, Input,
};
use crate::errify_macro::output::{ambiguous_error_type, rewritten, Output};
use crate::error::{outcome, Diagnostic, DiagnosticView};
use crate::input::impl_function;
use crate::item::{function_text, FunctionView};

pub mod input;
pub mod output;

verus! {

/// The arguments of either attribute, from those of the attribute with an explicit context.
pub open spec fn explicit_args(args: ErrifyMacroArgsView) -> ArgsView {
    ArgsView { err_ty: args.err_ty, cx: ContextView::Explicit(args.cx) }
}

/// The arguments of either attribute, from those of the attribute with a lazy context.
pub open spec fn lazy_args(args: ErrifyWithMacroArgsView) -> ArgsView {
    ArgsView { err_ty: args.err_ty, cx: ContextView::Lazy(args.cx) }
}

/// One expansion from parsed arguments: the item is read, then rewritten.
pub open spec fn expanded(
    args: Result<ArgsView, DiagnosticView>,
    input: Seq<char>,
    backends: Backends,
) -> Result<FunctionView, DiagnosticView> {
    match args {
        Err(e) => Err(e),
        Ok(args) => match impl_function(input) {
            Err(e) => Err(e),
            Ok(func) => rewritten(args, func, backends),
        },
    }
}

/// The function that the attribute with an explicit context leaves for the item `input`: the
/// arguments are read first, then the item, then the item is rewritten. The first failure is
/// the result.
pub open spec fn errify_expansion(args: Seq<char>, input: Seq<char>, backends: Backends) -> Result<
    FunctionView,
    DiagnosticView,
> {
    expanded(
        match errify_args(args) {
            Ok(args) => Ok(explicit_args(args)),
            Err(e) => Err(e),
        },
        input,
        backends,
    )
}

/// The function that the attribute with a lazy context leaves for the item `input`.
pub open spec fn errify_with_expansion(
    args: Seq<char>,
    input: Seq<char>,
    backends: Backends,
) -> Result<FunctionView, DiagnosticView> {
    expanded(
        match errify_with_args(args) {
            Ok(args) => Ok(lazy_args(args)),
            Err(e) => Err(e),
        },
        input,
        backends,
    )
}

/// The source text of an expansion.
pub open spec fn expansion_text(expansion: Result<FunctionView, DiagnosticView>) -> Result<
    Seq<char>,
    DiagnosticView,
> {
    match expansion {
        Ok(func) => Ok(function_text(func)),
        Err(e) => Err(e),
    }
}

/// With both backends switched on no rewriting succeeds, whatever the arguments are, an error
/// type among them or not; a function that declares a return type gets the failure for an
/// ambiguous error type.
pub proof fn lemma_both_backends_never_rewrite(args: ArgsView, input: FunctionView)
    ensures
        rewritten(args, input, both()) is Err,
        input.sig.output is Some ==> rewritten(args, input, both()) == Err::<
            FunctionView,
            DiagnosticView,
        >(ambiguous_error_type()),
{
}

/// With both backends switched on no expansion succeeds, whatever the arguments and the item
/// are.
pub proof fn lemma_both_backends_never_expand(args: Seq<char>, input: Seq<char>)
    ensures
        errify_expansion(args, input, both()) is Err,
        errify_with_expansion(args, input, both()) is Err,
{
}

/// An expansion keeps the attributes, the visibility, the qualifiers, the name, the generic
/// parameters, the arguments and the `where` clause of the item it stands on.
pub proof fn lemma_expansion_keeps_signature(
    args: Result<ArgsView, DiagnosticView>,
    input: Seq<char>,
    backends: Backends,
)
    ensures
        expanded(args, input, backends) matches Ok(output) ==> impl_function(input) matches Ok(func)
            && {
            &&& output.attrs == func.attrs
            &&& output.vis == func.vis
            &&& output.defaultness == func.defaultness
            &&& output.sig.constness == func.sig.constness
            &&& output.sig.asyncness == func.sig.asyncness
            &&& output.sig.unsafety == func.sig.unsafety
            &&& output.sig.abi == func.sig.abi
            &&& output.sig.ident == func.sig.ident
            &&& output.sig.generics == func.sig.generics
            &&& output.sig.inputs == func.sig.inputs
            &&& output.sig.where_clause == func.sig.where_clause
        },
{
}

/// Expands the attribute with an explicit context: `args` are the tokens between its
/// parentheses, `input` is the item it stands on. The result is the source text of the
/// rewritten item. With both backends switched on there is none.
pub fn errify_impl(args: &str, input: &str, backends: Backends) -> (r: Result<String, Diagnostic>)
    ensures
        outcome(r) == expansion_text(errify_expansion(args@, input@, backends)),
        backends.anyhow && backends.eyre ==> r is Err,
{
    match ErrifyMacro::from_ast(args, input, backends) {
        Ok(m) => Ok(m.to_tokens()),
        Err(e) => Err(e),
    }
}

/// One expansion of the attribute with an explicit context.
pub struct ErrifyMacro {
    pub output: Output,
}

impl View for ErrifyMacro {
    type V = FunctionView;

    open spec fn view(&self) -> FunctionView {
        self.output@
    }
}

impl ErrifyMacro {
    /// Reads the arguments and the item, and rewrites the item. With both backends switched
    /// on there is no result.
    pub fn from_ast(args: &str, input: &str, backends: Backends) -> (r: Result<Self, Diagnostic>)
        ensures
            outcome(r) == errify_expansion(args@, input@, backends),
            backends.anyhow && backends.eyre ==> r is Err,
    {
        let args = match ErrifyMacroArgs::parse(args) {
            Ok(args) => args,
            Err(e) => {
                return Err(e);
            },
        };
        let input = match Input::parse(input) {
            Ok(input) => input,
            Err(e) => {
                return Err(e);
            },
        };
        let ghost parsed = args@;
        let args = Args::from(args);
        assert(args@ == explicit_args(parsed));
        match Output::from_ast(args, input, backends) {
            Ok(output) => Ok(ErrifyMacro { output }),
            Err(e) => Err(e),
        }
    }

    /// Writes the rewritten item out as source text.
    pub fn to_tokens(&self) -> (tokens: String)
        ensures
            tokens@ == function_text(self@),
    {
        self.output.to_tokens()
    }
}

/// Expands the attribute with a lazy context: `args` are the tokens between its parentheses,
/// `input` is the item it stands on. The result is the source text of the rewritten item.
/// With both backends switched on there is none.
pub fn errify_with_impl(args: &str, input: &str, backends: Backends) -> (r: Result<
    String,
    Diagnostic,
>)
    ensures
        outcome(r) == expansion_text(errify_with_expansion(args@, input@, backends)),
        backends.anyhow && backends.eyre ==> r is Err,
{
    match ErrifyWithMacro::from_ast(args, input, backends) {
        Ok(m) => Ok(m.to_tokens()),
        Err(e) => Err(e),
    }
}

/// One expansion of the attribute with a lazy context.
pub struct ErrifyWithMacro {
    pub output: Output,
}

impl View for ErrifyWithMacro {
    type V = FunctionView;

    open spec fn view(&self) -> FunctionView {
        self.output@
    }
}

impl ErrifyWithMacro {
    /// Reads the arguments and the item, and rewrites the item. With both backends switched
    /// on there is no result.
    pub fn from_ast(args: &str, input: &str, backends: Backends) -> (r: Result<Self, Diagnostic>)
        ensures
            outcome(r) == errify_with_expansion(args@, input@, backends),
            backends.anyhow && backends.eyre ==> r is Err,
    {
        let args = match ErrifyWithMacroArgs::parse(args) {
            Ok(args) => args,
            Err(e) => {
                return Err(e);
            },
        };
        let input = match Input::parse(input) {
            Ok(input) => input,
            Err(e) => {
                return Err(e);
            },
        };
        let ghost parsed = args@;
        let args = Args::from(args);
        assert(args@ == lazy_args(parsed));
        match Output::from_ast(args, input, backends) {
            Ok(output) => Ok(ErrifyWithMacro { output }),
            Err(e) => Err(e),
        }
    }

    /// Writes the rewritten item out as source text.
    pub fn to_tokens(&self) -> (tokens: String)
        ensures
            tokens@ == function_text(self@),
    {
        self.output.to_tokens()
    }
}

} // verus!

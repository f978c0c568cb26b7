//! The two attributes that attach a context through the backend's own extension trait.
use vstd::prelude::*;

use crate::backend::{both, Backends};
use crate::context_macro::input::{
    context_args, from_context_args, from_with_context_args, target, with_context_args, Args,
    ArgsView, ContextArgs, Input, WithContextArgs,
};
use crate::context_macro::output::{
    output_text, rewritten, rewritten_target, Output, OutputView,
};
use crate::error::{at_call_site, outcome, Diagnostic, DiagnosticView, ErrorKind};
use crate::item::FunctionView;
use crate::utils::cleared_inputs;

pub mod input;
pub mod output;

verus! {

/// One expansion from parsed arguments: the item is read, then rewritten.
pub open spec fn expanded(
    args: Result<ArgsView, DiagnosticView>,
    input: Seq<char>,
    backends: Backends,
) -> Result<OutputView, DiagnosticView> {
    match args {
        Err(e) => Err(e),
        Ok(args) => match target(input) {
            Err(e) => Err(e),
            Ok(item) => rewritten_target(args, item, backends),
        },
    }
}

/// What the attribute with an immediate context leaves for the item `input`: the arguments
/// are read first, then the item, then the item is rewritten. The first failure is the
/// result.
pub open spec fn context_expansion(args: Seq<char>, input: Seq<char>, backends: Backends) -> Result<
    OutputView,
    DiagnosticView,
> {
    expanded(
        match context_args(args) {
            Ok(args) => Ok(from_context_args(args)),
            Err(e) => Err(e),
        },
        input,
        backends,
    )
}

/// What the attribute with a lazy context leaves for the item `input`.
pub open spec fn with_context_expansion(
    args: Seq<char>,
    input: Seq<char>,
    backends: Backends,
) -> Result<OutputView, DiagnosticView> {
    expanded(
        match with_context_args(args) {
            Ok(args) => Ok(from_with_context_args(args)),
            Err(e) => Err(e),
        },
        input,
        backends,
    )
}

/// The source text of an expansion.
pub open spec fn expansion_text(expansion: Result<OutputView, DiagnosticView>) -> Result<
    Seq<char>,
    DiagnosticView,
> {
    match expansion {
        Ok(output) => Ok(output_text(output)),
        Err(e) => Err(e),
    }
}

/// The failure for a build that switches on both backends.
pub open spec fn ambiguous_backends() -> DiagnosticView {
    at_call_site(
        ErrorKind::Configuration,
        "Ambiguous using errify_macro provider. Choose either `anyhow` or `eyre`"@,
    )
}

/// With both backends switched on no expansion succeeds, whatever the arguments and the item
/// are.
pub proof fn lemma_both_backends_never_expand(args: Seq<char>, input: Seq<char>)
    ensures
        context_expansion(args, input, both()) is Err,
        with_context_expansion(args, input, both()) is Err,
{
}

/// With both backends switched on, a function whose arguments can be forwarded gets the
/// failure for ambiguous backends, whatever shape the context has.
pub proof fn lemma_both_backends_are_ambiguous(args: ArgsView, input: FunctionView)
    requires
        cleared_inputs(input.sig.inputs) is Ok,
        !(args is Empty),
    ensures
        rewritten(args, input, both()) == Err::<FunctionView, DiagnosticView>(ambiguous_backends()),
{
}

/// An expansion keeps the attributes, the visibility, the qualifiers, the name, the generic
/// parameters and the `where` clause of the function it rewrites.
pub proof fn lemma_expansion_keeps_signature(
    args: ArgsView,
    input: FunctionView,
    backends: Backends,
)
    ensures
        rewritten(args, input, backends) matches Ok(output) ==> {
            &&& output.attrs == input.attrs
            &&& output.vis == input.vis
            &&& output.defaultness == input.defaultness
            &&& output.sig.constness == input.sig.constness
            &&& output.sig.asyncness == input.sig.asyncness
            &&& output.sig.unsafety == input.sig.unsafety
            &&& output.sig.abi == input.sig.abi
            &&& output.sig.ident == input.sig.ident
            &&& output.sig.generics == input.sig.generics
            &&& output.sig.where_clause == input.sig.where_clause
        },
{
}

/// Expands the attribute with an immediate context: `args` are the tokens between its
/// parentheses, `input` is the item it stands on. The result is the source text of the
/// rewritten item. With both backends switched on there is none.
pub fn context_impl(args: &str, input: &str, backends: Backends) -> (r: Result<String, Diagnostic>)
    ensures
        outcome(r) == expansion_text(context_expansion(args@, input@, backends)),
        backends.anyhow && backends.eyre ==> r is Err,
{
    match ContextMacro::parse(args, input, backends) {
        Ok(m) => Ok(m.to_tokens()),
        Err(e) => Err(e),
    }
}

/// One expansion of the attribute with an immediate context.
pub struct ContextMacro {
    pub output: Output,
}

impl View for ContextMacro {
    type V = OutputView;

    open spec fn view(&self) -> OutputView {
        self.output@
    }
}

impl ContextMacro {
    /// Reads the arguments and the item, and rewrites the item.
    pub fn parse(args: &str, input: &str, backends: Backends) -> (r: Result<Self, Diagnostic>)
        ensures
            outcome(r) == context_expansion(args@, input@, backends),
            backends.anyhow && backends.eyre ==> r is Err,
    {
        let args = match ContextArgs::parse(args) {
            Ok(args) => args,
            Err(e) => {
                return Err(e);
            },
        };
        let input = match Input::parse(input) {
            Ok(input) => input,
            Err(e) => {
                return Err(e);
            },
        };
        let ghost parsed = args@;
        let args = Args::from(args);
        assert(args@ == from_context_args(parsed));
        match Output::parse(args, input, backends) {
            Ok(output) => Ok(ContextMacro { output }),
            Err(e) => Err(e),
        }
    }

    /// Writes the rewritten item out as source text.
    pub fn to_tokens(&self) -> (tokens: String)
        ensures
            tokens@ == output_text(self@),
    {
        self.output.to_tokens()
    }
}

/// Expands the attribute with a lazy context: `args` are the tokens between its parentheses,
/// `input` is the item it stands on. The result is the source text of the rewritten item.
/// With both backends switched on there is none.
pub fn with_context_impl(args: &str, input: &str, backends: Backends) -> (r: Result<
    String,
    Diagnostic,
>)
    ensures
        outcome(r) == expansion_text(with_context_expansion(args@, input@, backends)),
        backends.anyhow && backends.eyre ==> r is Err,
{
    match WithContextMacro::parse(args, input, backends) {
        Ok(m) => Ok(m.to_tokens()),
        Err(e) => Err(e),
    }
}

/// One expansion of the attribute with a lazy context.
pub struct WithContextMacro {
    pub output: Output,
}

impl View for WithContextMacro {
    type V = OutputView;

    open spec fn view(&self) -> OutputView {
        self.output@
    }
}

impl WithContextMacro {
    /// Reads the arguments and the item, and rewrites the item.
    pub fn parse(args: &str, input: &str, backends: Backends) -> (r: Result<Self, Diagnostic>)
        ensures
            outcome(r) == with_context_expansion(args@, input@, backends),
            backends.anyhow && backends.eyre ==> r is Err,
    {
        let args = match WithContextArgs::parse(args) {
            Ok(args) => args,
            Err(e) => {
                return Err(e);
            },
        };
        let input = match Input::parse(input) {
            Ok(input) => input,
            Err(e) => {
                return Err(e);
            },
        };
        let ghost parsed = args@;
        let args = Args::from(args);
        assert(args@ == from_with_context_args(parsed));
        match Output::parse(args, input, backends) {
            Ok(output) => Ok(WithContextMacro { output }),
            Err(e) => Err(e),
        }
    }

    /// Writes the rewritten item out as source text.
    pub fn to_tokens(&self) -> (tokens: String)
        ensures
            tokens@ == output_text(self@),
    {
        self.output.to_tokens()
    }
}

} // verus!

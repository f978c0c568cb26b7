//! The arguments of the two attributes and the item that they stand on.
use vstd::prelude::*;

use crate::error::{at_source, outcome, Diagnostic, DiagnosticView, ErrorKind};
use crate::item::{assemble, malformed, Function, FunctionView};
use crate::syntax::{
    impl_item_fn, leading_bars, leading_closure, leading_expr, leading_lit_str, leading_path,
    parse_impl_item_fn, parse_impl_item_fn_signature, parse_terminated_exprs, peek_bars, read,
    read_texts, split_closure, split_expr, split_lit_str, split_path, terminated_exprs, Split,
    SplitComma, SplitCommaView, SplitView,
};
use crate::text::texts;

verus! {

/// The failure for tokens behind a complete argument.
pub open spec fn unexpected_tokens(rest: Seq<char>) -> DiagnosticView {
    at_source(ErrorKind::Grammar, "Unexpected tokens"@, rest)
}

/// The failure for arguments that the parser of the host language rejected with `message`.
pub open spec fn rejected(message: Seq<char>, source: Seq<char>) -> DiagnosticView {
    at_source(ErrorKind::Grammar, message, source)
}

/// The node that makes up all of `src`: the node read at its start, unless tokens follow it.
pub open spec fn whole(split: Result<SplitView, Seq<char>>, src: Seq<char>) -> Result<
    Seq<char>,
    DiagnosticView,
> {
    match split {
        Ok(split) => if split.at_end {
            Ok(split.node)
        } else {
            Err(unexpected_tokens(split.rest))
        },
        Err(message) => Err(rejected(message, src)),
    }
}

/// Accepts the node read at the start of `src` where nothing follows it.
pub fn whole_node(split: Result<Split, String>, src: &str) -> (r: Result<String, Diagnostic>)
    ensures
        outcome(r) == whole(read(split), src@),
{
    match split {
        Ok(split) => if split.at_end {
            Ok(split.node)
        } else {
            Err(Diagnostic::new(ErrorKind::Grammar, "Unexpected tokens", split.rest.as_str()))
        },
        Err(message) => Err(Diagnostic::rejected(ErrorKind::Grammar, message, src)),
    }
}

/// The failure for arguments that are neither a literal nor an expression.
pub open spec fn literal_or_expression_only(src: Seq<char>) -> DiagnosticView {
    at_source(
        ErrorKind::Grammar,
        "The macro supports literal with positions arguments and custom error only"@,
        src,
    )
}

/// The failure for arguments that are neither a closure nor a function.
pub open spec fn closure_or_function_only(src: Seq<char>) -> DiagnosticView {
    at_source(ErrorKind::Grammar, "The macro supports closure and function only"@, src)
}

/// The node that makes up all of `src`, where a node that cannot be read is the failure
/// `unsupported`, which names the shapes that are supported.
pub open spec fn whole_or(
    split: Result<SplitView, Seq<char>>,
    unsupported: DiagnosticView,
) -> Result<Seq<char>, DiagnosticView> {
    match split {
        Ok(split) => if split.at_end {
            Ok(split.node)
        } else {
            Err(unexpected_tokens(split.rest))
        },
        Err(_) => Err(unsupported),
    }
}

/// Accepts the node read at the start of the arguments where nothing follows it; a node that
/// could not be read is reported as `message` about `src`.
pub fn whole_node_or(split: Result<Split, String>, message: &str, src: &str) -> (r: Result<
    String,
    Diagnostic,
>)
    ensures
        outcome(r) == whole_or(read(split), at_source(ErrorKind::Grammar, message@, src@)),
{
    match split {
        Ok(split) => if split.at_end {
            Ok(split.node)
        } else {
            Err(Diagnostic::new(ErrorKind::Grammar, "Unexpected tokens", split.rest.as_str()))
        },
        Err(_) => Err(Diagnostic::new(ErrorKind::Grammar, message, src)),
    }
}

/// A context that is built before the function runs.
#[derive(Clone, Debug, PartialEq, Eq)]
pub enum ImmediateContext {
    /// A format string and the expressions that it takes.
    Literal {
        /// The string literal, quotes included.
        lit: String,
        /// The arguments of the format string, in order.
        args: Vec<String>,
    },
    /// An expression whose value is the context.
    Expr {
        /// The source text of the expression.
        expr: String,
    },
}

/// The mathematical value of an [`ImmediateContext`].
pub enum ImmediateContextView {
    Literal { lit: Seq<char>, args: Seq<Seq<char>> },
    Expr { expr: Seq<char> },
}

impl View for ImmediateContext {
    type V = ImmediateContextView;

    open spec fn view(&self) -> ImmediateContextView {
        match self {
            ImmediateContext::Literal { lit, args } => ImmediateContextView::Literal {
                lit: lit@,
                args: texts(args@),
            },
            ImmediateContext::Expr { expr } => ImmediateContextView::Expr { expr: expr@ },
        }
    }
}

/// The context that starts with a string literal. Behind a comma the rest is the list of
/// arguments, `args`; without a comma nothing may follow the literal, and `args` is not
/// looked at.
pub open spec fn literal_context(
    split: SplitCommaView,
    args: Result<Seq<Seq<char>>, Seq<char>>,
) -> Result<ImmediateContextView, DiagnosticView> {
    if split.comma {
        match args {
            Ok(args) => Ok(ImmediateContextView::Literal { lit: split.node, args }),
            Err(message) => Err(rejected(message, split.rest)),
        }
    } else if split.at_end {
        Ok(ImmediateContextView::Literal { lit: split.node, args: Seq::empty() })
    } else {
        Err(unexpected_tokens(split.rest))
    }
}

/// The context that is a single expression.
pub open spec fn expr_context(expr: Result<Seq<char>, DiagnosticView>) -> Result<
    ImmediateContextView,
    DiagnosticView,
> {
    match expr {
        Ok(expr) => Ok(ImmediateContextView::Expr { expr }),
        Err(e) => Err(e),
    }
}

/// The grammar of an immediate context: a string literal with its arguments where the tokens
/// start with a string literal, a single expression where they do not. What has neither shape
/// is a failure that names both, and tokens behind a complete argument are a failure too.
pub open spec fn immediate_context(src: Seq<char>) -> Result<ImmediateContextView, DiagnosticView> {
    match leading_lit_str(src) {
        Ok(split) => literal_context(split, terminated_exprs(split.rest)),
        Err(_) => expr_context(whole_or(leading_expr(src), literal_or_expression_only(src))),
    }
}

impl ImmediateContext {
    /// Builds the context that starts with the string literal of `split`; `args` is what the
    /// tokens behind the comma hold.
    pub fn literal(split: SplitComma, args: Result<Vec<String>, String>) -> (r: Result<
        Self,
        Diagnostic,
    >)
        ensures
            outcome(r) == literal_context(split@, read_texts(args)),
    {
        if split.comma {
            match args {
                Ok(args) => Ok(ImmediateContext::Literal { lit: split.node, args }),
                Err(message) => Err(
                    Diagnostic::rejected(ErrorKind::Grammar, message, split.rest.as_str()),
                ),
            }
        } else if split.at_end {
            let args: Vec<String> = Vec::new();
            assert(texts(args@) =~= Seq::<Seq<char>>::empty());
            Ok(ImmediateContext::Literal { lit: split.node, args })
        } else {
            Err(Diagnostic::new(ErrorKind::Grammar, "Unexpected tokens", split.rest.as_str()))
        }
    }

    /// Builds the context that is the single expression `expr`.
    pub fn expr(expr: Result<String, Diagnostic>) -> (r: Result<Self, Diagnostic>)
        ensures
            outcome(r) == expr_context(outcome(expr)),
    {
        match expr {
            Ok(expr) => Ok(ImmediateContext::Expr { expr }),
            Err(e) => Err(e),
        }
    }

    /// Reads an immediate context from the arguments of the attribute.
    pub fn parse(src: &str) -> (r: Result<Self, Diagnostic>)
        ensures
            outcome(r) == immediate_context(src@),
    {
        match split_lit_str(src) {
            Ok(split) => {
                let args = if split.comma {
                    parse_terminated_exprs(split.rest.as_str())
                } else {
                    Ok(Vec::new())
                };
                Self::literal(split, args)
            },
            Err(_) => Self::expr(
                whole_node_or(
                    split_expr(src),
                    "The macro supports literal with positions arguments and custom error only",
                    src,
                ),
            ),
        }
    }
}

/// A context that is built only once the function has failed.
#[derive(Clone, Debug, PartialEq, Eq)]
pub enum LazyContext {
    /// A closure without parameters that returns the context.
    Closure {
        /// The source text of the closure.
        def: String,
    },
    /// A function without parameters that returns the context.
    Function {
        /// The path of the function.
        path: String,
    },
}

/// The mathematical value of a [`LazyContext`].
pub enum LazyContextView {
    Closure { def: Seq<char> },
    Function { path: Seq<char> },
}

impl View for LazyContext {
    type V = LazyContextView;

    open spec fn view(&self) -> LazyContextView {
        match self {
            LazyContext::Closure { def } => LazyContextView::Closure { def: def@ },
            LazyContext::Function { path } => LazyContextView::Function { path: path@ },
        }
    }
}

/// The lazy context that is the closure `def`.
pub open spec fn closure_context(def: Result<Seq<char>, DiagnosticView>) -> Result<
    LazyContextView,
    DiagnosticView,
> {
    match def {
        Ok(def) => Ok(LazyContextView::Closure { def }),
        Err(e) => Err(e),
    }
}

/// The lazy context that is the function at `path`.
pub open spec fn function_context(path: Result<Seq<char>, DiagnosticView>) -> Result<
    LazyContextView,
    DiagnosticView,
> {
    match path {
        Ok(path) => Ok(LazyContextView::Function { path }),
        Err(e) => Err(e),
    }
}

/// The grammar of a lazy context: a closure where the tokens start with two bars, the path of
/// a function where they do not. What has neither shape is a failure that names both, and
/// tokens behind a complete argument are a failure too.
pub open spec fn lazy_context(src: Seq<char>) -> Result<LazyContextView, DiagnosticView> {
    match leading_bars(src) {
        Err(message) => Err(rejected(message, src)),
        Ok(bars) => if bars.0 && bars.1 {
            closure_context(whole(leading_closure(src), src))
        } else {
            function_context(whole_or(leading_path(src), closure_or_function_only(src)))
        },
    }
}

impl LazyContext {
    /// Builds the context that is the closure `def`.
    pub fn closure(def: Result<String, Diagnostic>) -> (r: Result<Self, Diagnostic>)
        ensures
            outcome(r) == closure_context(outcome(def)),
    {
        match def {
            Ok(def) => Ok(LazyContext::Closure { def }),
            Err(e) => Err(e),
        }
    }

    /// Builds the context that is the function at `path`.
    pub fn function(path: Result<String, Diagnostic>) -> (r: Result<Self, Diagnostic>)
        ensures
            outcome(r) == function_context(outcome(path)),
    {
        match path {
            Ok(path) => Ok(LazyContext::Function { path }),
            Err(e) => Err(e),
        }
    }

    /// Reads a lazy context from the arguments of the attribute.
    pub fn parse(src: &str) -> (r: Result<Self, Diagnostic>)
        ensures
            outcome(r) == lazy_context(src@),
    {
        match peek_bars(src) {
            Err(message) => Err(Diagnostic::rejected(ErrorKind::Grammar, message, src)),
            Ok(bars) => if bars.0 && bars.1 {
                Self::closure(whole_node(split_closure(src), src))
            } else {
                Self::function(
                    whole_node_or(
                        split_path(src),
                        "The macro supports closure and function only",
                        src,
                    ),
                )
            },
        }
    }
}

/// The context that an attribute asks for.
#[derive(Clone, Debug, PartialEq, Eq)]
pub enum Context {
    /// Built before the function runs.
    Immediate(ImmediateContext),
    /// Built once the function has failed.
    Lazy(LazyContext),
}

/// The mathematical value of a [`Context`].
pub enum ContextView {
    Immediate(ImmediateContextView),
    Lazy(LazyContextView),
}

impl View for Context {
    type V = ContextView;

    open spec fn view(&self) -> ContextView {
        match self {
            Context::Immediate(cx) => ContextView::Immediate(cx@),
            Context::Lazy(cx) => ContextView::Lazy(cx@),
        }
    }
}

impl From<ImmediateContext> for Context {
    fn from(value: ImmediateContext) -> (cx: Self) {
        Context::Immediate(value)
    }
}

impl vstd::std_specs::convert::FromSpecImpl<ImmediateContext> for Context {
    open spec fn obeys_from_spec() -> bool {
        true
    }

    open spec fn from_spec(value: ImmediateContext) -> Self {
        Context::Immediate(value)
    }
}

impl From<LazyContext> for Context {
    fn from(value: LazyContext) -> (cx: Self) {
        Context::Lazy(value)
    }
}

impl vstd::std_specs::convert::FromSpecImpl<LazyContext> for Context {
    open spec fn obeys_from_spec() -> bool {
        true
    }

    open spec fn from_spec(value: LazyContext) -> Self {
        Context::Lazy(value)
    }
}

/// The arguments of the attribute that attaches an immediate context.
#[derive(Clone, Debug, PartialEq, Eq)]
pub struct ErrifyMacroArgs {
    pub cx: ImmediateContext,
}

impl View for ErrifyMacroArgs {
    type V = ImmediateContextView;

    open spec fn view(&self) -> ImmediateContextView {
        self.cx@
    }
}

impl ErrifyMacroArgs {
    /// Reads the arguments of the attribute.
    pub fn parse(src: &str) -> (r: Result<Self, Diagnostic>)
        ensures
            outcome(r) == immediate_context(src@),
    {
        match ImmediateContext::parse(src) {
            Ok(cx) => Ok(ErrifyMacroArgs { cx }),
            Err(e) => Err(e),
        }
    }
}

/// The arguments of the attribute that attaches a lazy context.
#[derive(Clone, Debug, PartialEq, Eq)]
pub struct ErrifyWithMacroArgs {
    pub cx: LazyContext,
}

impl View for ErrifyWithMacroArgs {
    type V = LazyContextView;

    open spec fn view(&self) -> LazyContextView {
        self.cx@
    }
}

impl ErrifyWithMacroArgs {
    /// Reads the arguments of the attribute.
    pub fn parse(src: &str) -> (r: Result<Self, Diagnostic>)
        ensures
            outcome(r) == lazy_context(src@),
    {
        match LazyContext::parse(src) {
            Ok(cx) => Ok(ErrifyWithMacroArgs { cx }),
            Err(e) => Err(e),
        }
    }
}

/// The arguments of either attribute.
#[derive(Clone, Debug, PartialEq, Eq)]
pub struct Args {
    pub cx: Context,
}

impl View for Args {
    type V = ContextView;

    open spec fn view(&self) -> ContextView {
        self.cx@
    }
}

impl From<ErrifyMacroArgs> for Args {
    fn from(value: ErrifyMacroArgs) -> (args: Self) {
        Args { cx: Context::Immediate(value.cx) }
    }
}

impl vstd::std_specs::convert::FromSpecImpl<ErrifyMacroArgs> for Args {
    open spec fn obeys_from_spec() -> bool {
        true
    }

    open spec fn from_spec(value: ErrifyMacroArgs) -> Self {
        Args { cx: Context::Immediate(value.cx) }
    }
}

impl From<ErrifyWithMacroArgs> for Args {
    fn from(value: ErrifyWithMacroArgs) -> (args: Self) {
        Args { cx: Context::Lazy(value.cx) }
    }
}

impl vstd::std_specs::convert::FromSpecImpl<ErrifyWithMacroArgs> for Args {
    open spec fn obeys_from_spec() -> bool {
        true
    }

    open spec fn from_spec(value: ErrifyWithMacroArgs) -> Self {
        Args { cx: Context::Lazy(value.cx) }
    }
}

/// The function read from `src` as an entry of an impl block, or the failure for a text that
/// is none.
pub open spec fn impl_function(src: Seq<char>) -> Result<FunctionView, DiagnosticView> {
    match impl_item_fn(src) {
        Err(message) => Err(malformed(message, src)),
        Ok(item) => Ok(assemble(item.parts, item.sig)),
    }
}

/// The item that an attribute stands on.
#[derive(Clone, Debug, PartialEq, Eq)]
pub struct Input {
    pub func: Function,
}

impl View for Input {
    type V = FunctionView;

    open spec fn view(&self) -> FunctionView {
        self.func@
    }
}

impl Input {
    /// Reads the annotated item: a function, free or in an impl block.
    pub fn parse(src: &str) -> (r: Result<Self, Diagnostic>)
        ensures
            outcome(r) == impl_function(src@),
    {
        let parts = match parse_impl_item_fn(src) {
            Ok(parts) => parts,
            Err(message) => {
                return Err(Diagnostic::rejected(ErrorKind::Shape, message, src));
            },
        };
        // Both answers come from one reading of `src`: the second fails only where the first
        // did.
        match parse_impl_item_fn_signature(src) {
            Ok(sig) => Ok(Input { func: Function::from_parts(parts, sig) }),
            Err(message) => Err(Diagnostic::rejected(ErrorKind::Shape, message, src)),
        }
    }
}

} // verus!

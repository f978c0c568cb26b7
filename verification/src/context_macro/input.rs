//! The arguments of the two attributes that go through a backend, and the item they stand on.
use vstd::prelude::*;

use crate::error::{at_source, outcome, Diagnostic, DiagnosticView, ErrorKind, Span, SpanView};
use crate::input::{
    closure_or_function_only, literal_context, literal_or_expression_only, rejected, whole,
    whole_node, whole_node_or, whole_or, ImmediateContext, ImmediateContextView,
};
use crate::item::{assemble, Function, FunctionView};
use crate::syntax::{
    impl_item, is_empty, item_fn, leading_bars, leading_closure, leading_expr, leading_lit_str,
    leading_path, no_tokens, parse_impl_item, parse_item_fn, parse_item_fn_signature,
    parse_terminated_exprs, peek_bars, split_closure, split_expr, split_lit_str, split_path,
    terminated_exprs,
};
use crate::text::{each_followed, push_each, texts};

verus! {

/// The arguments of the attribute that attaches a context built before the call.
#[derive(Clone, Debug, PartialEq, Eq)]
pub enum ContextArgs {
    /// No argument at all.
    Empty {
        /// The place where an argument is missing.
        span: Span,
    },
    /// A format string and the expressions that it takes.
    Literal {
        /// The string literal, quotes included.
        lit: String,
        /// The arguments of the format string, in order.
        args: Vec<String>,
    },
    /// An expression whose value is the context.
    Expr {
        /// The source text of the expression.
        expr: String,
    },
}

/// The mathematical value of [`ContextArgs`].
pub enum ContextArgsView {
    Empty { span: SpanView },
    Literal { lit: Seq<char>, args: Seq<Seq<char>> },
    Expr { expr: Seq<char> },
}

impl View for ContextArgs {
    type V = ContextArgsView;

    open spec fn view(&self) -> ContextArgsView {
        match self {
            ContextArgs::Empty { span } => ContextArgsView::Empty { span: span@ },
            ContextArgs::Literal { lit, args } => ContextArgsView::Literal {
                lit: lit@,
                args: texts(args@),
            },
            ContextArgs::Expr { expr } => ContextArgsView::Expr { expr: expr@ },
        }
    }
}

/// The arguments that start with a string literal.
pub open spec fn literal_args(context: Result<ImmediateContextView, DiagnosticView>) -> Result<
    ContextArgsView,
    DiagnosticView,
> {
    match context {
        Ok(ImmediateContextView::Literal { lit, args }) => Ok(
            ContextArgsView::Literal { lit, args },
        ),
        Ok(ImmediateContextView::Expr { expr }) => Ok(ContextArgsView::Expr { expr }),
        Err(e) => Err(e),
    }
}

/// The arguments that are a single expression.
pub open spec fn expr_args(expr: Result<Seq<char>, DiagnosticView>) -> Result<
    ContextArgsView,
    DiagnosticView,
> {
    match expr {
        Ok(expr) => Ok(ContextArgsView::Expr { expr }),
        Err(e) => Err(e),
    }
}

/// The grammar of the arguments, by priority: nothing at all; a string literal with its
/// arguments; a single expression. What has none of these shapes is a failure, and so are
/// tokens behind a complete argument.
pub open spec fn context_args(src: Seq<char>) -> Result<ContextArgsView, DiagnosticView> {
    match no_tokens(src) {
        Err(message) => Err(rejected(message, src)),
        Ok(empty) => if empty {
            Ok(ContextArgsView::Empty { span: SpanView::CallSite })
        } else {
            match leading_lit_str(src) {
                Ok(split) => literal_args(literal_context(split, terminated_exprs(split.rest))),
                Err(_) => expr_args(whole_or(leading_expr(src), literal_or_expression_only(src))),
            }
        },
    }
}

impl ContextArgs {
    /// Turns the context that starts with a string literal into arguments.
    pub fn literal(context: Result<ImmediateContext, Diagnostic>) -> (r: Result<Self, Diagnostic>)
        ensures
            outcome(r) == literal_args(outcome(context)),
    {
        match context {
            Ok(ImmediateContext::Literal { lit, args }) => Ok(ContextArgs::Literal { lit, args }),
            Ok(ImmediateContext::Expr { expr }) => Ok(ContextArgs::Expr { expr }),
            Err(e) => Err(e),
        }
    }

    /// Turns the single expression `expr` into arguments.
    pub fn expr(expr: Result<String, Diagnostic>) -> (r: Result<Self, Diagnostic>)
        ensures
            outcome(r) == expr_args(outcome(expr)),
    {
        match expr {
            Ok(expr) => Ok(ContextArgs::Expr { expr }),
            Err(e) => Err(e),
        }
    }

    /// Reads the arguments of the attribute.
    pub fn parse(src: &str) -> (r: Result<Self, Diagnostic>)
        ensures
            outcome(r) == context_args(src@),
    {
        match is_empty(src) {
            Err(message) => Err(Diagnostic::rejected(ErrorKind::Grammar, message, src)),
            Ok(true) => Ok(ContextArgs::Empty { span: Span::CallSite }),
            Ok(false) => match split_lit_str(src) {
                Ok(split) => {
                    let args = if split.comma {
                        parse_terminated_exprs(split.rest.as_str())
                    } else {
                        Ok(Vec::new())
                    };
                    Self::literal(ImmediateContext::literal(split, args))
                },
                Err(_) => Self::expr(
                    whole_node_or(
                        split_expr(src),
                        "The macro supports literal with positions arguments and custom error only",
                        src,
                    ),
                ),
            },
        }
    }
}

/// The arguments of the attribute that attaches a context built after a failure.
#[derive(Clone, Debug, PartialEq, Eq)]
pub enum WithContextArgs {
    /// A closure without parameters that returns the context.
    Closure {
        /// The source text of the closure.
        def: String,
    },
    /// A function without parameters that returns the context.
    Function {
        /// The path of the function.
        path: String,
    },
}

/// The mathematical value of [`WithContextArgs`].
pub enum WithContextArgsView {
    Closure { def: Seq<char> },
    Function { path: Seq<char> },
}

impl View for WithContextArgs {
    type V = WithContextArgsView;

    open spec fn view(&self) -> WithContextArgsView {
        match self {
            WithContextArgs::Closure { def } => WithContextArgsView::Closure { def: def@ },
            WithContextArgs::Function { path } => WithContextArgsView::Function { path: path@ },
        }
    }
}

/// The arguments that are the closure `def`.
pub open spec fn closure_args(def: Result<Seq<char>, DiagnosticView>) -> Result<
    WithContextArgsView,
    DiagnosticView,
> {
    match def {
        Ok(def) => Ok(WithContextArgsView::Closure { def }),
        Err(e) => Err(e),
    }
}

/// The arguments that are the function at `path`.
pub open spec fn function_args(path: Result<Seq<char>, DiagnosticView>) -> Result<
    WithContextArgsView,
    DiagnosticView,
> {
    match path {
        Ok(path) => Ok(WithContextArgsView::Function { path }),
        Err(e) => Err(e),
    }
}

/// The grammar of the arguments, by priority: a closure where the tokens start with two bars;
/// the path of a function. What has neither shape is a failure, and so are tokens behind a
/// complete argument.
pub open spec fn with_context_args(src: Seq<char>) -> Result<WithContextArgsView, DiagnosticView> {
    match leading_bars(src) {
        Err(message) => Err(rejected(message, src)),
        Ok(bars) => if bars.0 && bars.1 {
            closure_args(whole(leading_closure(src), src))
        } else {
            function_args(whole_or(leading_path(src), closure_or_function_only(src)))
        },
    }
}

impl WithContextArgs {
    /// Turns the closure `def` into arguments.
    pub fn closure(def: Result<String, Diagnostic>) -> (r: Result<Self, Diagnostic>)
        ensures
            outcome(r) == closure_args(outcome(def)),
    {
        match def {
            Ok(def) => Ok(WithContextArgs::Closure { def }),
            Err(e) => Err(e),
        }
    }

    /// Turns the function at `path` into arguments.
    pub fn function(path: Result<String, Diagnostic>) -> (r: Result<Self, Diagnostic>)
        ensures
            outcome(r) == function_args(outcome(path)),
    {
        match path {
            Ok(path) => Ok(WithContextArgs::Function { path }),
            Err(e) => Err(e),
        }
    }

    /// Reads the arguments of the attribute.
    pub fn parse(src: &str) -> (r: Result<Self, Diagnostic>)
        ensures
            outcome(r) == with_context_args(src@),
    {
        match peek_bars(src) {
            Err(message) => Err(Diagnostic::rejected(ErrorKind::Grammar, message, src)),
            Ok(bars) => if bars.0 && bars.1 {
                Self::closure(whole_node(split_closure(src), src))
            } else {
                Self::function(
                    whole_node_or(
                        split_path(src),
                        "The macro supports closure and function only",
                        src,
                    ),
                )
            },
        }
    }
}

/// The arguments of either attribute.
#[derive(Clone, Debug, PartialEq, Eq)]
pub enum Args {
    /// No argument at all.
    Empty {
        /// The place where an argument is missing.
        span: Span,
    },
    /// A format string and the expressions that it takes.
    Literal {
        /// The string literal, quotes included.
        lit: String,
        /// The arguments of the format string, in order.
        args: Vec<String>,
    },
    /// An expression whose value is the context.
    ErrorType {
        /// The source text of the expression.
        expr: String,
    },
    /// A closure without parameters that returns the context.
    Closure {
        /// The source text of the closure.
        def: String,
    },
    /// A function without parameters that returns the context.
    Function {
        /// The path of the function.
        path: String,
    },
}

/// The mathematical value of [`Args`].
pub enum ArgsView {
    Empty { span: SpanView },
    Literal { lit: Seq<char>, args: Seq<Seq<char>> },
    ErrorType { expr: Seq<char> },
    Closure { def: Seq<char> },
    Function { path: Seq<char> },
}

impl View for Args {
    type V = ArgsView;

    open spec fn view(&self) -> ArgsView {
        match self {
            Args::Empty { span } => ArgsView::Empty { span: span@ },
            Args::Literal { lit, args } => ArgsView::Literal { lit: lit@, args: texts(args@) },
            Args::ErrorType { expr } => ArgsView::ErrorType { expr: expr@ },
            Args::Closure { def } => ArgsView::Closure { def: def@ },
            Args::Function { path } => ArgsView::Function { path: path@ },
        }
    }
}

/// The arguments of either attribute, from those of the first.
pub open spec fn from_context_args(args: ContextArgsView) -> ArgsView {
    match args {
        ContextArgsView::Empty { span } => ArgsView::Empty { span },
        ContextArgsView::Literal { lit, args } => ArgsView::Literal { lit, args },
        ContextArgsView::Expr { expr } => ArgsView::ErrorType { expr },
    }
}

/// The arguments of either attribute, from those of the second.
pub open spec fn from_with_context_args(args: WithContextArgsView) -> ArgsView {
    match args {
        WithContextArgsView::Closure { def } => ArgsView::Closure { def },
        WithContextArgsView::Function { path } => ArgsView::Function { path },
    }
}

impl From<ContextArgs> for Args {
    fn from(value: ContextArgs) -> (args: Self) {
        match value {
            ContextArgs::Empty { span } => Args::Empty { span },
            ContextArgs::Literal { lit, args } => Args::Literal { lit, args },
            ContextArgs::Expr { expr } => Args::ErrorType { expr },
        }
    }
}

impl vstd::std_specs::convert::FromSpecImpl<ContextArgs> for Args {
    open spec fn obeys_from_spec() -> bool {
        true
    }

    open spec fn from_spec(value: ContextArgs) -> Self {
        match value {
            ContextArgs::Empty { span } => Args::Empty { span },
            ContextArgs::Literal { lit, args } => Args::Literal { lit, args },
            ContextArgs::Expr { expr } => Args::ErrorType { expr },
        }
    }
}

impl From<WithContextArgs> for Args {
    fn from(value: WithContextArgs) -> (args: Self) {
        match value {
            WithContextArgs::Closure { def } => Args::Closure { def },
            WithContextArgs::Function { path } => Args::Function { path },
        }
    }
}

impl vstd::std_specs::convert::FromSpecImpl<WithContextArgs> for Args {
    open spec fn obeys_from_spec() -> bool {
        true
    }

    open spec fn from_spec(value: WithContextArgs) -> Self {
        match value {
            WithContextArgs::Closure { def } => Args::Closure { def },
            WithContextArgs::Function { path } => Args::Function { path },
        }
    }
}

/// The tokens that a literal and its arguments cover.
pub open spec fn literal_source(lit: Seq<char>, args: Seq<Seq<char>>) -> Seq<char> {
    lit + ", "@ + each_followed(args, ", "@)
}

/// The place that the arguments take up: the missing argument's own place, and else the
/// tokens of the argument.
pub open spec fn args_span(args: ArgsView) -> SpanView {
    match args {
        ArgsView::Empty { span } => span,
        ArgsView::Literal { lit, args } => SpanView::Source(literal_source(lit, args)),
        ArgsView::ErrorType { expr } => SpanView::Source(expr),
        ArgsView::Closure { def } => SpanView::Source(def),
        ArgsView::Function { path } => SpanView::Source(path),
    }
}

impl Args {
    /// The place in the source that the arguments take up.
    pub fn span(&self) -> (span: Span)
        ensures
            span@ == args_span(self@),
    {
        match self {
            Args::Empty { span } => match span {
                Span::CallSite => Span::CallSite,
                Span::Source(text) => Span::Source(text.clone()),
            },
            Args::Literal { lit, args } => {
                let mut source = lit.clone();
                source.append(", ");
                push_each(&mut source, args, ", ");
                Span::Source(source)
            },
            Args::ErrorType { expr } => Span::Source(expr.clone()),
            Args::Closure { def } => Span::Source(def.clone()),
            Args::Function { path } => Span::Source(path.clone()),
        }
    }
}

/// The item that an attribute stands on.
#[derive(Clone, Debug, PartialEq, Eq)]
pub enum Input {
    /// A function without a receiver.
    Function(Function),
    /// A function whose first argument is a receiver.
    Method(Function),
    /// Another entry of an impl block, as source text.
    Impl(String),
}

/// The mathematical value of an [`Input`].
pub enum InputView {
    Function(FunctionView),
    Method(FunctionView),
    Impl(Seq<char>),
}

impl View for Input {
    type V = InputView;

    open spec fn view(&self) -> InputView {
        match self {
            Input::Function(func) => InputView::Function(func@),
            Input::Method(func) => InputView::Method(func@),
            Input::Impl(item) => InputView::Impl(item@),
        }
    }
}

/// The failure for an item that is neither a function nor an entry of an impl block.
pub open spec fn function_or_impl_only(src: Seq<char>) -> DiagnosticView {
    at_source(ErrorKind::Shape, "The macro supports only impl block or function"@, src)
}

/// The function `func` by what its first argument is: a method where that is a receiver.
pub open spec fn classified(func: FunctionView, receiver: bool) -> InputView {
    if receiver {
        InputView::Method(func)
    } else {
        InputView::Function(func)
    }
}

/// The item read from `src`: a function where `src` is one, a method where its first argument
/// is a receiver; else whatever entry of an impl block `src` is.
pub open spec fn target(src: Seq<char>) -> Result<InputView, DiagnosticView> {
    match item_fn(src) {
        Ok(item) => Ok(classified(assemble(item.parts, item.sig), item.parts.receiver)),
        Err(_) => match impl_item(src) {
            Ok(item) => Ok(InputView::Impl(item)),
            Err(_) => Err(function_or_impl_only(src)),
        },
    }
}

impl Input {
    /// Tells a method from a function: `receiver` says whether the first argument is one.
    pub fn classify(func: Function, receiver: bool) -> (input: Self)
        ensures
            input@ == classified(func@, receiver),
    {
        if receiver {
            Input::Method(func)
        } else {
            Input::Function(func)
        }
    }

    /// Reads the annotated item.
    pub fn parse(src: &str) -> (r: Result<Self, Diagnostic>)
        ensures
            outcome(r) == target(src@),
    {
        match parse_item_fn(src) {
            Ok(parts) => {
                let receiver = parts.receiver;
                // Both answers come from one reading of `src`: the second fails only where
                // the first did.
                match parse_item_fn_signature(src) {
                    Ok(sig) => Ok(Self::classify(Function::from_parts(parts, sig), receiver)),
                    Err(message) => Err(Diagnostic::rejected(ErrorKind::Shape, message, src)),
                }
            },
            Err(_) => match parse_impl_item(src) {
                Ok(item) => Ok(Input::Impl(item)),
                Err(_) => Err(
                    Diagnostic::new(
                        ErrorKind::Shape,
                        "The macro supports only impl block or function",
                        src,
                    ),
                ),
            },
        }
    }
}

} // verus!

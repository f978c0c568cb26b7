use std::cell::Cell;
use std::error::Error;
use std::fmt::{Display, Formatter};
use std::ops::Deref;

use errify_core::backend::Backends;
use errify_core::errify_macro::errify_with_impl;
use errify_core::error::{Diagnostic, ErrorKind, Span};
use errify_core::input::{Args, Context, ErrifyWithMacroArgs, Input, LazyContext};
use errify_core::output::{apply_context, Output};
use errify_core::WrapErr;

#[derive(Debug)]
pub struct ContextExpr(i32);

impl ContextExpr {
    pub fn new(i: i32) -> Self {
        Self(i)
    }
}

impl Display for ContextExpr {
    fn fmt(&self, f: &mut Formatter<'_>) -> std::fmt::Result {
        f.write_str(&format!("ContextExpr({})", self.0))
    }
}

impl Error for ContextExpr {}

#[derive(Debug)]
pub struct StringError(pub String);

impl Display for StringError {
    fn fmt(&self, f: &mut Formatter<'_>) -> std::fmt::Result {
        f.write_str(&self.0)
    }
}

impl Error for StringError {}

impl Deref for StringError {
    type Target = String;

    fn deref(&self) -> &Self::Target {
        &self.0
    }
}

impl From<String> for StringError {
    fn from(value: String) -> Self {
        Self(value)
    }
}

#[derive(Debug)]
pub struct ErrorWithContext {
    pub msg: StringError,
    pub cx: Option<String>,
}

impl ErrorWithContext {
    pub fn new(msg: impl Display) -> Self {
        Self {
            msg: format!("{msg}").into(),
            cx: None,
        }
    }
}

impl Display for ErrorWithContext {
    fn fmt(&self, f: &mut Formatter<'_>) -> std::fmt::Result {
        match &self.cx {
            None => f.write_str(&self.msg),
            Some(cx) => f.write_str(cx),
        }
    }
}

impl Error for ErrorWithContext {
    fn source(&self) -> Option<&(dyn Error + 'static)> {
        Some(&self.msg)
    }
}

impl WrapErr for ErrorWithContext {
    fn wrap_err<C>(self, context: C) -> Self
    where
        C: Display + Send + Sync + 'static,
    {
        Self {
            msg: self.msg,
            cx: Some(context.to_string()),
        }
    }
}

/// Runs a future that never has to wait.
fn block_on<F: std::future::Future>(future: F) -> F::Output {
    struct Idle;

    impl std::task::Wake for Idle {
        fn wake(self: std::sync::Arc<Self>) {}
    }

    let waker = std::task::Waker::from(std::sync::Arc::new(Idle));
    let mut cx = std::task::Context::from_waker(&waker);
    let mut future = Box::pin(future);
    loop {
        if let std::task::Poll::Ready(output) = future.as_mut().poll(&mut cx) {
            return output;
        }
    }
}

/// Expands the attribute with a lazy context on `item`.
fn expand(args: &str, item: &str) -> String {
    let args = Args::from(ErrifyWithMacroArgs::parse(args).unwrap());
    let input = Input::parse(item).unwrap();
    Output::from_ast(args, input).unwrap().to_tokens()
}

/// The body that the expansion gives a function that wraps with the value of `context`.
fn wrapped(binding: &str, closure: &str, ret: &str, call: &str, context: &str) -> String {
    format!(
        "{{ {{ {binding}let __errify_res = {{ let __errify_fn = {closure} ; \
         let __errify_fn_res : {ret} = {call} ; __errify_fn_res }} ; match __errify_res {{ \
         ::errify::__private::Ok(v) => ::errify::__private::Ok(v), \
         ::errify::__private::Err(err) => \
         ::errify::__private::Err(::errify::WrapErr::wrap_err(err, {context})), }} }} }}"
    )
}

const BODY: &str = "{ Err (ErrorWithContext :: new (arg)) }";
const RET: &str = "Result < i32 , ErrorWithContext >";
const CLOSURE: &str = "let __errify_cx = | | format ! (\"closure {arg}\") ; ";

#[test]
fn simple_closure() {
    let tokens = expand(
        "|| format!(\"closure {arg}\")",
        "fn func(arg: i32) -> Result<i32, ErrorWithContext> { Err(ErrorWithContext::new(arg)) }",
    );
    assert_eq!(
        tokens,
        "fn func(arg : i32) -> Result < i32 , ErrorWithContext > { { let __errify_cx = | | format \
         ! (\"closure {arg}\") ; let __errify_res = { let __errify_fn = move | | { { { { Err \
         (ErrorWithContext :: new (arg)) } } } } ; let __errify_fn_res : Result < i32 , \
         ErrorWithContext > = (__errify_fn)() ; __errify_fn_res } ; match __errify_res { \
         ::errify::__private::Ok(v) => ::errify::__private::Ok(v), \
         ::errify::__private::Err(err) => \
         ::errify::__private::Err(::errify::WrapErr::wrap_err(err, (__errify_cx)())), } } }"
    );

    // The function that these tokens define.
    fn func(arg: i32) -> Result<i32, ErrorWithContext> {
        {
            let __errify_cx = || format!("closure {arg}");
            let __errify_res = {
                let __errify_fn = move || { { { { Err(ErrorWithContext::new(arg)) } } } };
                let __errify_fn_res: Result<i32, ErrorWithContext> = (__errify_fn)();
                __errify_fn_res
            };
            match __errify_res {
                Ok(v) => Ok(v),
                Err(err) => Err(WrapErr::wrap_err(err, (__errify_cx)())),
            }
        }
    }

    let err = func(1).unwrap_err();
    assert_eq!(err.msg.deref(), "1");
    assert_eq!(err.cx.as_deref(), Some("closure 1"));
}

#[test]
fn simple_fn() {
    let tokens = expand(
        "context",
        "fn func(arg: i32) -> Result<i32, ErrorWithContext> { Err(ErrorWithContext::new(arg)) }",
    );
    let body = wrapped(
        "",
        &format!("move | | {{ {{ {{ {BODY} }} }} }}"),
        RET,
        "(__errify_fn)()",
        "context()",
    );
    assert_eq!(tokens, format!("fn func(arg : i32) -> {RET} {body}"));

    fn context() -> impl Display {
        ContextExpr::new(2)
    }

    fn func(arg: i32) -> Result<i32, ErrorWithContext> {
        {
            let __errify_res = {
                let __errify_fn = move || { { { { Err(ErrorWithContext::new(arg)) } } } };
                let __errify_fn_res: Result<i32, ErrorWithContext> = (__errify_fn)();
                __errify_fn_res
            };
            match __errify_res {
                Ok(v) => Ok(v),
                Err(err) => Err(WrapErr::wrap_err(err, context())),
            }
        }
    }

    let err = func(1).unwrap_err();
    assert_eq!(err.msg.deref(), "1");
    assert_eq!(err.cx.as_deref(), Some("ContextExpr(2)"));
}

#[test]
fn async_closure() {
    let tokens = expand(
        "|| format!(\"closure {arg}\")",
        "async fn func(arg: i32) -> Result<i32, ErrorWithContext> { Err(ErrorWithContext::new(arg)) }",
    );
    let body = wrapped(
        CLOSURE,
        &format!("move | | {{ async move {{ {{ {BODY} }} }} }}"),
        RET,
        "(__errify_fn)().await",
        "(__errify_cx)()",
    );
    assert_eq!(tokens, format!("async fn func(arg : i32) -> {RET} {body}"));

    async fn func(arg: i32) -> Result<i32, ErrorWithContext> {
        {
            let __errify_cx = || format!("closure {arg}");
            let __errify_res = {
                let __errify_fn = move || { async move { { { Err(ErrorWithContext::new(arg)) } } } };
                let __errify_fn_res: Result<i32, ErrorWithContext> = (__errify_fn)().await;
                __errify_fn_res
            };
            match __errify_res {
                Ok(v) => Ok(v),
                Err(err) => Err(WrapErr::wrap_err(err, (__errify_cx)())),
            }
        }
    }

    let err = block_on(func(1)).unwrap_err();
    assert_eq!(err.msg.deref(), "1");
    assert_eq!(err.cx.as_deref(), Some("closure 1"));
}

#[test]
fn async_fn() {
    let tokens = expand(
        "context",
        "async fn func(arg: i32) -> Result<i32, ErrorWithContext> { Err(ErrorWithContext::new(arg)) }",
    );
    let body = wrapped(
        "",
        &format!("move | | {{ async move {{ {{ {BODY} }} }} }}"),
        RET,
        "(__errify_fn)().await",
        "context()",
    );
    assert_eq!(tokens, format!("async fn func(arg : i32) -> {RET} {body}"));

    fn context() -> impl Display {
        ContextExpr::new(2)
    }

    async fn func(arg: i32) -> Result<i32, ErrorWithContext> {
        {
            let __errify_res = {
                let __errify_fn = move || { async move { { { Err(ErrorWithContext::new(arg)) } } } };
                let __errify_fn_res: Result<i32, ErrorWithContext> = (__errify_fn)().await;
                __errify_fn_res
            };
            match __errify_res {
                Ok(v) => Ok(v),
                Err(err) => Err(WrapErr::wrap_err(err, context())),
            }
        }
    }

    let err = block_on(func(1)).unwrap_err();
    assert_eq!(err.msg.deref(), "1");
    assert_eq!(err.cx.as_deref(), Some("ContextExpr(2)"));
}

#[test]
fn unsafe_closure() {
    let tokens = expand(
        "|| format!(\"closure {arg}\")",
        "unsafe fn func(arg: i32) -> Result<i32, ErrorWithContext> { Err(ErrorWithContext::new(arg)) }",
    );
    let body = wrapped(
        CLOSURE,
        &format!("move | | {{ {{ unsafe {{ {BODY} }} }} }}"),
        RET,
        "(__errify_fn)()",
        "(__errify_cx)()",
    );
    assert_eq!(tokens, format!("unsafe fn func(arg : i32) -> {RET} {body}"));
}

#[test]
fn unsafe_fn() {
    let tokens = expand(
        "context",
        "unsafe fn func(arg: i32) -> Result<i32, ErrorWithContext> { Err(ErrorWithContext::new(arg)) }",
    );
    let body = wrapped(
        "",
        &format!("move | | {{ {{ unsafe {{ {BODY} }} }} }}"),
        RET,
        "(__errify_fn)()",
        "context()",
    );
    assert_eq!(tokens, format!("unsafe fn func(arg : i32) -> {RET} {body}"));
}

#[test]
fn async_unsafe_closure() {
    let tokens = expand(
        "|| format!(\"closure {arg}\")",
        "async unsafe fn func(arg: i32) -> Result<i32, ErrorWithContext> { Err(ErrorWithContext::new(arg)) }",
    );
    let body = wrapped(
        CLOSURE,
        &format!("move | | {{ async move {{ unsafe {{ {BODY} }} }} }}"),
        RET,
        "(__errify_fn)().await",
        "(__errify_cx)()",
    );
    assert_eq!(tokens, format!("async unsafe fn func(arg : i32) -> {RET} {body}"));
}

#[test]
fn async_unsafe_fn() {
    let tokens = expand(
        "context",
        "async unsafe fn func(arg: i32) -> Result<i32, ErrorWithContext> { Err(ErrorWithContext::new(arg)) }",
    );
    let body = wrapped(
        "",
        &format!("move | | {{ async move {{ unsafe {{ {BODY} }} }} }}"),
        RET,
        "(__errify_fn)().await",
        "context()",
    );
    assert_eq!(tokens, format!("async unsafe fn func(arg : i32) -> {RET} {body}"));
}

#[test]
fn errify_with_method() {
    let tokens = expand(
        "|| format!(\"closure self = {self:?}\")",
        "fn func(&self, arg: String) -> Result<i32, ErrorWithContext> { Err(ErrorWithContext::new(arg)) }",
    );
    let body = wrapped(
        "let __errify_cx = | | format ! (\"closure self = {self:?}\") ; ",
        &format!("move | | {{ {{ {{ {BODY} }} }} }}"),
        RET,
        "(__errify_fn)()",
        "(__errify_cx)()",
    );
    assert_eq!(tokens, format!("fn func(& self , arg : String) -> {RET} {body}"));

    #[derive(Debug)]
    struct Struct;

    impl Struct {
        fn func(&self, arg: String) -> Result<i32, ErrorWithContext> {
            {
                let __errify_cx = || format!("closure self = {self:?}");
                let __errify_res = {
                    let __errify_fn = move || { { { { Err(ErrorWithContext::new(arg)) } } } };
                    let __errify_fn_res: Result<i32, ErrorWithContext> = (__errify_fn)();
                    __errify_fn_res
                };
                match __errify_res {
                    Ok(v) => Ok(v),
                    Err(err) => Err(WrapErr::wrap_err(err, (__errify_cx)())),
                }
            }
        }
    }

    let err = Struct.func("argument".to_owned()).unwrap_err();
    assert_eq!(err.msg.deref(), "argument");
    assert_eq!(err.cx.as_deref(), Some("closure self = Struct"));
}

#[test]
fn errify_with_trait_method() {
    let tokens = expand(
        "|| format!(\"closure self = {self:?}\")",
        "fn func(&self, arg: String) -> Result<i32, ErrorWithContext> { Err(ErrorWithContext::new(arg)) }",
    );
    assert!(syn::parse_str::<syn::ImplItemFn>(&tokens).is_ok());

    trait Trait {
        fn func(&self, arg: String) -> Result<i32, ErrorWithContext>;
    }

    #[derive(Debug)]
    struct Struct;

    impl Trait for Struct {
        fn func(&self, arg: String) -> Result<i32, ErrorWithContext> {
            {
                let __errify_cx = || format!("closure self = {self:?}");
                let __errify_res = {
                    let __errify_fn = move || { { { { Err(ErrorWithContext::new(arg)) } } } };
                    let __errify_fn_res: Result<i32, ErrorWithContext> = (__errify_fn)();
                    __errify_fn_res
                };
                match __errify_res {
                    Ok(v) => Ok(v),
                    Err(err) => Err(WrapErr::wrap_err(err, (__errify_cx)())),
                }
            }
        }
    }

    let err = Trait::func(&Struct, "argument".to_owned()).unwrap_err();
    assert_eq!(err.msg.deref(), "argument");
    assert_eq!(err.cx.as_deref(), Some("closure self = Struct"));
}

#[test]
fn errify_with_check_visibility() {
    let tokens = expand(
        "|| format!(\"closure {arg}\")",
        "pub fn func(arg: i32) -> Result<i32, ErrorWithContext> { Err(ErrorWithContext::new(arg)) }",
    );
    let body = wrapped(
        CLOSURE,
        &format!("move | | {{ {{ {{ {BODY} }} }} }}"),
        RET,
        "(__errify_fn)()",
        "(__errify_cx)()",
    );
    assert_eq!(tokens, format!("pub fn func(arg : i32) -> {RET} {body}"));
    let item = syn::parse_str::<syn::ItemFn>(&tokens).unwrap();
    assert!(matches!(item.vis, syn::Visibility::Public(_)));

    pub fn func(arg: i32) -> Result<i32, ErrorWithContext> {
        {
            let __errify_cx = || format!("closure {arg}");
            let __errify_res = {
                let __errify_fn = move || { { { { Err(ErrorWithContext::new(arg)) } } } };
                let __errify_fn_res: Result<i32, ErrorWithContext> = (__errify_fn)();
                __errify_fn_res
            };
            match __errify_res {
                Ok(v) => Ok(v),
                Err(err) => Err(WrapErr::wrap_err(err, (__errify_cx)())),
            }
        }
    }

    let err = func(1).unwrap_err();
    assert_eq!(err.msg.deref(), "1");
    assert_eq!(err.cx.as_deref(), Some("closure 1"));
}

#[test]
fn errify_with_anyhow_error() {
    let tokens = errify_with_impl(
        "|| format!(\"closure {arg} = {}\", arg)",
        "fn func(arg: i32) -> Result<i32, anyhow::Error> { Err(anyhow::anyhow!(\"error {}\", arg)) }",
        Backends { anyhow: true, eyre: false },
    )
    .unwrap();
    assert_eq!(
        tokens,
        "fn func(arg : i32) -> ::errify::__private::Result < i32 , \
         ::errify::__private::anyhow::Error > { { let __errify_cx = | | format ! (\"closure {arg} \
         = {}\" , arg) ; let __errify_res = { let __errify_fn = move | | { { { { Err (anyhow :: \
         anyhow ! (\"error {}\" , arg)) } } } } ; let __errify_fn_res : Result < i32 , anyhow :: \
         Error > = (__errify_fn)() ; __errify_fn_res } ; match __errify_res { \
         ::errify::__private::Ok(v) => Ok(v), ::errify::__private::Err(err) => \
         Err(<::errify::__private::anyhow::Error as ::errify::WrapErr>::wrap_err(err, \
         (__errify_cx)())), } } }"
    );

    fn func(arg: i32) -> Result<i32, anyhow::Error> {
        {
            let __errify_cx = || format!("closure {arg} = {}", arg);
            let __errify_res = {
                let __errify_fn = move || { { { { Err(anyhow::Error::msg(format!("error {}", arg))) } } } };
                let __errify_fn_res: Result<i32, anyhow::Error> = (__errify_fn)();
                __errify_fn_res
            };
            match __errify_res {
                Ok(v) => Ok(v),
                Err(err) => Err(<anyhow::Error as WrapErr>::wrap_err(err, (__errify_cx)())),
            }
        }
    }

    let err = func(1).unwrap_err();
    let context_err = err.to_string();
    let root_err = err.root_cause().to_string();
    assert_eq!(context_err, "closure 1 = 1");
    assert_eq!(root_err, "error 1");
}

#[test]
fn errify_with_eyre_error() {
    let tokens = errify_with_impl(
        "|| format!(\"closure {arg} = {}\", arg)",
        "fn func(arg: i32) -> Result<i32, eyre::Report> { Err(eyre::eyre!(\"error {}\", arg)) }",
        Backends { anyhow: false, eyre: true },
    )
    .unwrap();
    assert!(tokens.starts_with(
        "fn func(arg : i32) -> ::errify::__private::Result < i32 , ::errify::__private::eyre::Report > {"
    ));
    assert!(tokens.ends_with(
        "Err(<::errify::__private::eyre::Report as ::errify::WrapErr>::wrap_err(err, (__errify_cx)())), } } }"
    ));

    fn func(arg: i32) -> Result<i32, eyre::Report> {
        {
            let __errify_cx = || format!("closure {arg} = {}", arg);
            let __errify_res = {
                let __errify_fn = move || { { { { Err(eyre::Report::msg(format!("error {}", arg))) } } } };
                let __errify_fn_res: Result<i32, eyre::Report> = (__errify_fn)();
                __errify_fn_res
            };
            match __errify_res {
                Ok(v) => Ok(v),
                Err(err) => Err(<eyre::Report as WrapErr>::wrap_err(err, (__errify_cx)())),
            }
        }
    }

    let err = func(1).unwrap_err();
    let context_err = err.to_string();
    let root_err = err.root_cause().to_string();
    assert_eq!(context_err, "closure 1 = 1");
    assert_eq!(root_err, "error 1");
}

/// The function that the expansion defines for a closure that counts its calls.
fn counted(arg: i32, fail: bool, calls: &Cell<u32>) -> Result<i32, ErrorWithContext> {
    {
        let __errify_cx = || {
            calls.set(calls.get() + 1);
            format!("closure {arg}")
        };
        let __errify_res = {
            let __errify_fn =
                move || { { { { if fail { Err(ErrorWithContext::new(arg)) } else { Ok(arg) } } } } };
            let __errify_fn_res: Result<i32, ErrorWithContext> = (__errify_fn)();
            __errify_fn_res
        };
        match __errify_res {
            Ok(v) => Ok(v),
            Err(err) => Err(WrapErr::wrap_err(err, (__errify_cx)())),
        }
    }
}

#[test]
fn closure_is_not_called_on_success() {
    let calls = Cell::new(0);
    assert_eq!(counted(1, false, &calls).unwrap(), 1);
    assert_eq!(calls.get(), 0);
}

#[test]
fn closure_is_called_once_on_failure() {
    let calls = Cell::new(0);
    let err = counted(1, true, &calls).unwrap_err();
    assert_eq!(err.cx.as_deref(), Some("closure 1"));
    assert_eq!(calls.get(), 1);
}

#[test]
fn lazy_context_grammar() {
    assert_eq!(
        LazyContext::parse("|| format!(\"closure {arg}\")").unwrap(),
        LazyContext::Closure { def: "| | format ! (\"closure {arg}\")".to_string() }
    );
    assert_eq!(
        LazyContext::parse("| | 1").unwrap(),
        LazyContext::Closure { def: "| | 1".to_string() }
    );
    assert_eq!(
        LazyContext::parse("context").unwrap(),
        LazyContext::Function { path: "context".to_string() }
    );
    assert_eq!(
        LazyContext::parse("some::module::context").unwrap(),
        LazyContext::Function { path: "some :: module :: context".to_string() }
    );
}

#[test]
fn lazy_context_failures() {
    assert_eq!(
        LazyContext::parse("context()").unwrap_err(),
        Diagnostic {
            kind: ErrorKind::Grammar,
            message: "Unexpected tokens".to_string(),
            span: Span::Source("()".to_string()),
        }
    );
    assert_eq!(
        LazyContext::parse("|| 1, 2").unwrap_err(),
        Diagnostic {
            kind: ErrorKind::Grammar,
            message: "Unexpected tokens".to_string(),
            span: Span::Source(", 2".to_string()),
        }
    );
    // what is neither a closure nor a path: the failure names both shapes
    let unsupported = |source: &str| Diagnostic {
        kind: ErrorKind::Grammar,
        message: "The macro supports closure and function only".to_string(),
        span: Span::Source(source.to_string()),
    };
    // a closure with parameters does not start with two bars, and is no path
    assert_eq!(LazyContext::parse("|x| 1").unwrap_err(), unsupported("|x| 1"));
    assert_eq!(LazyContext::parse("\"literal\"").unwrap_err(), unsupported("\"literal\""));
    assert_eq!(LazyContext::parse("").unwrap_err(), unsupported(""));
    assert_eq!(ErrifyWithMacroArgs::parse("1").unwrap_err(), unsupported("1"));
    // two bars that start no closure: the parser's own failure
    assert_eq!(LazyContext::parse("|| ,").unwrap_err().kind, ErrorKind::Grammar);
}

#[test]
fn lazy_conversions_keep_the_context() {
    let cx = LazyContext::Function { path: "context".to_string() };
    assert_eq!(Context::from(cx.clone()), Context::Lazy(cx.clone()));
    assert_eq!(Args::from(ErrifyWithMacroArgs { cx: cx.clone() }), Args { cx: Context::Lazy(cx) });
}

#[test]
fn apply_context_calls_a_function_in_the_error_branch_only() {
    let cx = Context::Lazy(LazyContext::Function { path: "context".to_string() });
    let body = apply_context("CALL", &cx);
    assert_eq!(
        body,
        "{ let __errify_res = CALL ; match __errify_res { ::errify::__private::Ok(v) => \
         ::errify::__private::Ok(v), ::errify::__private::Err(err) => \
         ::errify::__private::Err(::errify::WrapErr::wrap_err(err, context())), } }"
    );
    assert_eq!(body.matches("context()").count(), 1);
    assert!(body.find("context()").unwrap() > body.find("::errify::__private::Err(err) =>").unwrap());
}

#[test]
fn apply_context_calls_a_closure_in_the_error_branch_only() {
    let cx = Context::Lazy(LazyContext::Closure { def: "|| make()".to_string() });
    let body = apply_context("CALL", &cx);
    assert_eq!(
        body,
        "{ let __errify_cx = || make() ; let __errify_res = CALL ; match __errify_res { \
         ::errify::__private::Ok(v) => ::errify::__private::Ok(v), \
         ::errify::__private::Err(err) => \
         ::errify::__private::Err(::errify::WrapErr::wrap_err(err, (__errify_cx)())), } }"
    );
    assert_eq!(body.matches("(__errify_cx)()").count(), 1);
    assert!(
        body.find("(__errify_cx)()").unwrap() > body.find("::errify::__private::Err(err) =>").unwrap()
    );
}

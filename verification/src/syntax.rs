//! The boundary to the parser of the host language.
//!
//! Source text goes in, and what `syn` reads in it comes back as plain text and flags. A syntax
//! node is handed out as the text of its tokens (`ToTokens::to_token_stream`, then
//! `to_string`), a failure as the message of the `syn::Error`. Every function here only asks
//! `syn`; none of them decides anything.
//!
//! What `syn` answers is a function of the text alone, so each answer has a name that
//! contracts can speak of. Nothing is proved of these functions. Each one's contract claims
//! one thing of the outside code: that its answer is the value of that name, the same for the
//! same text. A function item has more fields than one of these functions may hand out, so
//! two of them read the same text and each hands out its part of the one named answer.
//!
//! Inside a procedural macro `proc_macro2` would hand the text to the compiler, whose tokens
//! print in their own way. Every function here therefore switches `proc_macro2` to its own
//! tokenizer first (`proc_macro2::fallback::force`), so that a text is read and written in one
//! way wherever the library runs.
use quote::ToTokens;
use syn::parse::Parser;
use syn::punctuated::Punctuated;
use syn::ReturnType;
use vstd::prelude::*;

use crate::text::texts;

verus! {

/// A syntax node at the start of some tokens, and what follows it.
pub struct Split {
    /// The source text of the node.
    pub node: String,
    /// The tokens behind the node.
    pub rest: String,
    /// Whether no token is behind the node.
    pub at_end: bool,
}

/// The mathematical value of a [`Split`].
pub struct SplitView {
    pub node: Seq<char>,
    pub rest: Seq<char>,
    pub at_end: bool,
}

impl View for Split {
    type V = SplitView;

    open spec fn view(&self) -> SplitView {
        SplitView { node: self.node@, rest: self.rest@, at_end: self.at_end }
    }
}

/// A syntax node at the start of some tokens, the comma that may follow it, and what follows
/// both.
pub struct SplitComma {
    /// The source text of the node.
    pub node: String,
    /// Whether a comma stands directly behind the node.
    pub comma: bool,
    /// The tokens behind the node and its comma.
    pub rest: String,
    /// Whether no token is behind the node and its comma.
    pub at_end: bool,
}

/// The mathematical value of a [`SplitComma`].
pub struct SplitCommaView {
    pub node: Seq<char>,
    pub comma: bool,
    pub rest: Seq<char>,
    pub at_end: bool,
}

impl View for SplitComma {
    type V = SplitCommaView;

    open spec fn view(&self) -> SplitCommaView {
        SplitCommaView {
            node: self.node@,
            comma: self.comma,
            rest: self.rest@,
            at_end: self.at_end,
        }
    }
}

/// The parts of a function item around its signature.
pub struct FnParts {
    /// The attributes, one text each.
    pub attrs: Vec<String>,
    /// The visibility; empty where it is inherited.
    pub vis: String,
    /// Whether the item starts with `default`.
    pub defaultness: bool,
    /// Whether the first formal argument is a receiver.
    pub receiver: bool,
    /// The body with its braces.
    pub block: String,
}

/// The mathematical value of [`FnParts`].
pub struct FnPartsView {
    pub attrs: Seq<Seq<char>>,
    pub vis: Seq<char>,
    pub defaultness: bool,
    pub receiver: bool,
    pub block: Seq<char>,
}

impl View for FnParts {
    type V = FnPartsView;

    open spec fn view(&self) -> FnPartsView {
        FnPartsView {
            attrs: texts(self.attrs@),
            vis: self.vis@,
            defaultness: self.defaultness,
            receiver: self.receiver,
            block: self.block@,
        }
    }
}

/// The signature of a function, part by part.
#[derive(Clone, Debug, PartialEq, Eq)]
pub struct Signature {
    /// Whether the function is `const`.
    pub constness: bool,
    /// Whether the function is `async`.
    pub asyncness: bool,
    /// Whether the function is `unsafe`.
    pub unsafety: bool,
    /// The calling convention, `extern` included.
    pub abi: Option<String>,
    /// The name of the function.
    pub ident: String,
    /// The generic parameters with their angle brackets and without defaults; empty where
    /// there are none.
    pub generics: String,
    /// The formal arguments, without the parentheses.
    pub inputs: String,
    /// The declared return type, without the arrow.
    pub output: Option<String>,
    /// The `where` clause; empty where there is none.
    pub where_clause: String,
}

/// The mathematical value of a [`Signature`].
pub struct SignatureView {
    pub constness: bool,
    pub asyncness: bool,
    pub unsafety: bool,
    pub abi: Option<Seq<char>>,
    pub ident: Seq<char>,
    pub generics: Seq<char>,
    pub inputs: Seq<char>,
    pub output: Option<Seq<char>>,
    pub where_clause: Seq<char>,
}

/// The text of an optional string.
pub open spec fn optional_text(text: Option<String>) -> Option<Seq<char>> {
    match text {
        Some(text) => Some(text@),
        None => None,
    }
}

impl View for Signature {
    type V = SignatureView;

    open spec fn view(&self) -> SignatureView {
        SignatureView {
            constness: self.constness,
            asyncness: self.asyncness,
            unsafety: self.unsafety,
            abi: optional_text(self.abi),
            ident: self.ident@,
            generics: self.generics@,
            inputs: self.inputs@,
            output: optional_text(self.output),
            where_clause: self.where_clause@,
        }
    }
}

/// One formal argument of a function.
pub enum FnArg {
    /// The receiver of a method.
    Receiver {
        /// The source text of the receiver.
        text: String,
    },
    /// An argument taken by pattern and type.
    Typed {
        /// The attributes on the argument, one text each.
        attrs: Vec<String>,
        /// The name that the pattern binds, where the pattern is a single binding.
        ident: Option<String>,
        /// The type of the argument.
        ty: String,
    },
}

/// The mathematical value of a [`FnArg`].
pub enum FnArgView {
    Receiver { text: Seq<char> },
    Typed { attrs: Seq<Seq<char>>, ident: Option<Seq<char>>, ty: Seq<char> },
}

impl View for FnArg {
    type V = FnArgView;

    open spec fn view(&self) -> FnArgView {
        match self {
            FnArg::Receiver { text } => FnArgView::Receiver { text: text@ },
            FnArg::Typed { attrs, ident, ty } => FnArgView::Typed {
                attrs: texts(attrs@),
                ident: optional_text(*ident),
                ty: ty@,
            },
        }
    }
}

/// One argument between the angle brackets of a path segment.
pub enum GenericArgument {
    /// A type.
    Type(String),
    /// A lifetime, a constant, a binding or a constraint.
    Other(String),
}

/// The mathematical value of a [`GenericArgument`].
pub enum GenericArgumentView {
    Type(Seq<char>),
    Other(Seq<char>),
}

impl View for GenericArgument {
    type V = GenericArgumentView;

    open spec fn view(&self) -> GenericArgumentView {
        match self {
            GenericArgument::Type(text) => GenericArgumentView::Type(text@),
            GenericArgument::Other(text) => GenericArgumentView::Other(text@),
        }
    }
}

/// The last segment of a type that is a path.
pub struct LastSegment {
    /// The source text of the segment.
    pub text: String,
    /// The arguments between the angle brackets of the segment, where it has angle brackets.
    pub arguments: Option<Vec<GenericArgument>>,
}

/// The mathematical value of a [`LastSegment`].
pub struct LastSegmentView {
    pub text: Seq<char>,
    pub arguments: Option<Seq<GenericArgumentView>>,
}

impl View for LastSegment {
    type V = LastSegmentView;

    open spec fn view(&self) -> LastSegmentView {
        LastSegmentView {
            text: self.text@,
            arguments: match self.arguments {
                Some(args) => Some(generic_argument_views(args@)),
                None => None,
            },
        }
    }
}

/// A function item as one reading of its text gives it: the parts around the signature, and
/// the signature.
pub struct ItemView {
    pub parts: FnPartsView,
    pub sig: SignatureView,
}

/// The parts around the signature of an item that was read, or the message of the failure.
pub open spec fn parts_of(item: Result<ItemView, Seq<char>>) -> Result<FnPartsView, Seq<char>> {
    match item {
        Ok(item) => Ok(item.parts),
        Err(message) => Err(message),
    }
}

/// The signature of an item that was read, or the message of the failure.
pub open spec fn signature_of(item: Result<ItemView, Seq<char>>) -> Result<
    SignatureView,
    Seq<char>,
> {
    match item {
        Ok(item) => Ok(item.sig),
        Err(message) => Err(message),
    }
}

/// The mathematical value of what the parser handed back: that of the result, or the text of
/// its message.
pub open spec fn read<T: View>(r: Result<T, String>) -> Result<T::V, Seq<char>> {
    match r {
        Ok(value) => Ok(value@),
        Err(message) => Err(message@),
    }
}

/// The mathematical value of a list of texts that the parser handed back.
pub open spec fn read_texts(r: Result<Vec<String>, String>) -> Result<Seq<Seq<char>>, Seq<char>> {
    match r {
        Ok(items) => Ok(texts(items@)),
        Err(message) => Err(message@),
    }
}

/// The mathematical value of the formal arguments that the parser handed back.
pub open spec fn read_fn_args(r: Result<Vec<FnArg>, String>) -> Result<Seq<FnArgView>, Seq<char>> {
    match r {
        Ok(args) => Ok(fn_arg_views(args@)),
        Err(message) => Err(message@),
    }
}

/// The mathematical value of the segment that the parser handed back.
pub open spec fn read_segment(r: Result<Option<LastSegment>, String>) -> Result<
    Option<LastSegmentView>,
    Seq<char>,
> {
    match r {
        Ok(Some(segment)) => Ok(Some(segment@)),
        Ok(None) => Ok(None),
        Err(message) => Err(message@),
    }
}

/// Whether `src` holds no token at all, or the message with which the tokenizer rejects `src`.
pub uninterp spec fn no_tokens(src: Seq<char>) -> Result<bool, Seq<char>>;

/// The string literal that `syn` reads at the start of `src`, or the message with which it
/// finds none.
pub uninterp spec fn leading_lit_str(src: Seq<char>) -> Result<SplitCommaView, Seq<char>>;

/// The type that `syn` reads at the start of `src`, or the message with which it finds none.
pub uninterp spec fn leading_type(src: Seq<char>) -> Result<SplitCommaView, Seq<char>>;

/// The expression that `syn` reads at the start of `src`, or the message with which it finds
/// none.
pub uninterp spec fn leading_expr(src: Seq<char>) -> Result<SplitView, Seq<char>>;

/// The closure that `syn` reads at the start of `src`, or the message with which it finds
/// none.
pub uninterp spec fn leading_closure(src: Seq<char>) -> Result<SplitView, Seq<char>>;

/// The path that `syn` reads at the start of `src`, or the message with which it finds none.
pub uninterp spec fn leading_path(src: Seq<char>) -> Result<SplitView, Seq<char>>;

/// Whether the first token of `src` is a `|`, and whether the second is, as `syn` peeks them.
pub uninterp spec fn leading_bars(src: Seq<char>) -> Result<(bool, bool), Seq<char>>;

/// The expressions that `syn` reads in `src` as a list separated by commas, or the message
/// with which it rejects `src`.
pub uninterp spec fn terminated_exprs(src: Seq<char>) -> Result<Seq<Seq<char>>, Seq<char>>;

/// The function that `syn` reads in `src` as a free function, or the message with which it
/// rejects `src`.
pub uninterp spec fn item_fn(src: Seq<char>) -> Result<ItemView, Seq<char>>;

/// The function that `syn` reads in `src` as a function inside an impl block, or the message
/// with which it rejects `src`.
pub uninterp spec fn impl_item_fn(src: Seq<char>) -> Result<ItemView, Seq<char>>;

/// The text of `src` read by `syn` as any entry of an impl block, or the message with which it
/// rejects `src`.
pub uninterp spec fn impl_item(src: Seq<char>) -> Result<Seq<char>, Seq<char>>;

/// The formal arguments that `syn` reads in `src`, or the message with which it rejects `src`.
pub uninterp spec fn fn_args(src: Seq<char>) -> Result<Seq<FnArgView>, Seq<char>>;

/// The last segment of `src` where `syn` reads it as a type that is a path, `None` where it
/// reads another type, or the message with which it rejects `src`.
pub uninterp spec fn last_segment(src: Seq<char>) -> Result<Option<LastSegmentView>, Seq<char>>;

/// The views of `args`, in order.
pub open spec fn fn_arg_views(args: Seq<FnArg>) -> Seq<FnArgView> {
    args.map_values(|arg: FnArg| arg@)
}

/// The views of `args`, in order.
pub open spec fn generic_argument_views(args: Seq<GenericArgument>) -> Seq<GenericArgumentView> {
    args.map_values(|arg: GenericArgument| arg@)
}

/// Calls `proc_macro2::TokenStream::from_str` on `src` and `TokenStream::is_empty` on the
/// tokens. The answer is `no_tokens(src)`.
#[verifier::external_body]
pub(crate) fn is_empty(src: &str) -> (r: Result<bool, String>)
    ensures
        read(r) == no_tokens(src@),
{
    proc_macro2::fallback::force();
    match src.parse::<proc_macro2::TokenStream>() {
        Ok(tokens) => Ok(tokens.is_empty()),
        Err(e) => Err(e.to_string()),
    }
}

/// Calls `syn::parse::Parser::parse_str` on `src` with a parser that reads a `syn::LitStr`
/// and an optional `syn::token::Comma` (`ParseBuffer::parse`), asks `ParseBuffer::is_empty`,
/// and takes the tokens that are left. The answer is `leading_lit_str(src)`.
#[verifier::external_body]
pub(crate) fn split_lit_str(src: &str) -> (r: Result<SplitComma, String>)
    ensures
        read(r) == leading_lit_str(src@),
{
    proc_macro2::fallback::force();
    let parser = |input: syn::parse::ParseStream| {
        let node = input.parse::<syn::LitStr>()?.to_token_stream().to_string();
        let comma = input.parse::<Option<syn::token::Comma>>()?.is_some();
        let at_end = input.is_empty();
        let rest = input.parse::<proc_macro2::TokenStream>()?.to_string();
        Ok(SplitComma { node, comma, rest, at_end })
    };
    parser.parse_str(src).map_err(|e| e.to_string())
}

/// Calls `syn::parse::Parser::parse_str` on `src` with a parser that reads a `syn::Type` and
/// an optional `syn::token::Comma` (`ParseBuffer::parse`), asks `ParseBuffer::is_empty`, and
/// takes the tokens that are left. The answer is `leading_type(src)`.
#[verifier::external_body]
pub(crate) fn split_type(src: &str) -> (r: Result<SplitComma, String>)
    ensures
        read(r) == leading_type(src@),
{
    proc_macro2::fallback::force();
    let parser = |input: syn::parse::ParseStream| {
        let node = input.parse::<syn::Type>()?.to_token_stream().to_string();
        let comma = input.parse::<Option<syn::token::Comma>>()?.is_some();
        let at_end = input.is_empty();
        let rest = input.parse::<proc_macro2::TokenStream>()?.to_string();
        Ok(SplitComma { node, comma, rest, at_end })
    };
    parser.parse_str(src).map_err(|e| e.to_string())
}

/// Calls `syn::parse::Parser::parse_str` on `src` with a parser that reads a `syn::Expr`
/// (`ParseBuffer::parse`), asks `ParseBuffer::is_empty`, and takes the tokens that are left.
/// The answer is `leading_expr(src)`.
#[verifier::external_body]
pub(crate) fn split_expr(src: &str) -> (r: Result<Split, String>)
    ensures
        read(r) == leading_expr(src@),
{
    proc_macro2::fallback::force();
    let parser = |input: syn::parse::ParseStream| {
        let node = input.parse::<syn::Expr>()?.to_token_stream().to_string();
        let at_end = input.is_empty();
        let rest = input.parse::<proc_macro2::TokenStream>()?.to_string();
        Ok(Split { node, rest, at_end })
    };
    parser.parse_str(src).map_err(|e| e.to_string())
}

/// Calls `syn::parse::Parser::parse_str` on `src` with a parser that reads a
/// `syn::ExprClosure` (`ParseBuffer::parse`), asks `ParseBuffer::is_empty`, and takes the
/// tokens that are left. The answer is `leading_closure(src)`.
#[verifier::external_body]
pub(crate) fn split_closure(src: &str) -> (r: Result<Split, String>)
    ensures
        read(r) == leading_closure(src@),
{
    proc_macro2::fallback::force();
    let parser = |input: syn::parse::ParseStream| {
        let node = input.parse::<syn::ExprClosure>()?.to_token_stream().to_string();
        let at_end = input.is_empty();
        let rest = input.parse::<proc_macro2::TokenStream>()?.to_string();
        Ok(Split { node, rest, at_end })
    };
    parser.parse_str(src).map_err(|e| e.to_string())
}

/// Calls `syn::parse::Parser::parse_str` on `src` with a parser that reads a `syn::Path`
/// (`ParseBuffer::parse`), asks `ParseBuffer::is_empty`, and takes the tokens that are left.
/// The answer is `leading_path(src)`.
#[verifier::external_body]
pub(crate) fn split_path(src: &str) -> (r: Result<Split, String>)
    ensures
        read(r) == leading_path(src@),
{
    proc_macro2::fallback::force();
    let parser = |input: syn::parse::ParseStream| {
        let node = input.parse::<syn::Path>()?.to_token_stream().to_string();
        let at_end = input.is_empty();
        let rest = input.parse::<proc_macro2::TokenStream>()?.to_string();
        Ok(Split { node, rest, at_end })
    };
    parser.parse_str(src).map_err(|e| e.to_string())
}

/// Calls `syn::parse::Parser::parse_str` on `src` with a parser that asks `ParseBuffer::peek`
/// and `ParseBuffer::peek2` for a `syn::token::Or` and then takes all tokens. The answer is
/// `leading_bars(src)`.
#[verifier::external_body]
pub(crate) fn peek_bars(src: &str) -> (r: Result<(bool, bool), String>)
    ensures
        read(r) == leading_bars(src@),
{
    proc_macro2::fallback::force();
    let parser = |input: syn::parse::ParseStream| {
        let bars = (input.peek(syn::token::Or), input.peek2(syn::token::Or));
        input.parse::<proc_macro2::TokenStream>()?;
        Ok(bars)
    };
    parser.parse_str(src).map_err(|e| e.to_string())
}

/// Calls `syn::parse::Parser::parse_str` on `src` with `Punctuated::parse_terminated` for
/// `syn::Expr` and `syn::token::Comma`. The answer is `terminated_exprs(src)`.
#[verifier::external_body]
pub(crate) fn parse_terminated_exprs(src: &str) -> (r: Result<Vec<String>, String>)
    ensures
        read_texts(r) == terminated_exprs(src@),
{
    proc_macro2::fallback::force();
    let parser = Punctuated::<syn::Expr, syn::token::Comma>::parse_terminated;
    match parser.parse_str(src) {
        Ok(exprs) => Ok(exprs.iter().map(|expr| expr.to_token_stream().to_string()).collect()),
        Err(e) => Err(e.to_string()),
    }
}

/// Calls `syn::parse_str` for a `syn::ItemFn` on `src` and hands out the fields of the item
/// around its signature, with what `Signature::receiver` finds. The answer is that part of
/// `item_fn(src)`; such an item has no `default` in front.
#[verifier::external_body]
pub(crate) fn parse_item_fn(src: &str) -> (r: Result<FnParts, String>)
    ensures
        read(r) == parts_of(item_fn(src@)),
        r matches Ok(parts) ==> !parts.defaultness,
{
    proc_macro2::fallback::force();
    let item = syn::parse_str::<syn::ItemFn>(src).map_err(|e| e.to_string())?;
    Ok(FnParts {
        attrs: item.attrs.iter().map(|attr| attr.to_token_stream().to_string()).collect(),
        vis: item.vis.to_token_stream().to_string(),
        defaultness: false,
        receiver: item.sig.receiver().is_some(),
        block: item.block.to_token_stream().to_string(),
    })
}

/// Calls `syn::parse_str` for a `syn::ItemFn` on `src` and hands out the fields of the
/// signature of the item; the generic parameters are those that `Generics::split_for_impl`
/// gives an impl. The answer is that part of `item_fn(src)`.
#[verifier::external_body]
pub(crate) fn parse_item_fn_signature(src: &str) -> (r: Result<Signature, String>)
    ensures
        read(r) == signature_of(item_fn(src@)),
{
    proc_macro2::fallback::force();
    let sig = syn::parse_str::<syn::ItemFn>(src).map_err(|e| e.to_string())?.sig;
    Ok(Signature {
        constness: sig.constness.is_some(),
        asyncness: sig.asyncness.is_some(),
        unsafety: sig.unsafety.is_some(),
        abi: sig.abi.as_ref().map(|abi| abi.to_token_stream().to_string()),
        ident: sig.ident.to_string(),
        generics: sig.generics.split_for_impl().0.to_token_stream().to_string(),
        inputs: sig.inputs.to_token_stream().to_string(),
        output: match &sig.output {
            ReturnType::Type(_, ty) => Some(ty.to_token_stream().to_string()),
            ReturnType::Default => None },
        where_clause: sig.generics.where_clause.to_token_stream().to_string(),
    })
}

/// Calls `syn::parse_str` for a `syn::ImplItemFn` on `src` and hands out the fields of the
/// item around its signature, with what `Signature::receiver` finds. The answer is that part
/// of `impl_item_fn(src)`.
#[verifier::external_body]
pub(crate) fn parse_impl_item_fn(src: &str) -> (r: Result<FnParts, String>)
    ensures
        read(r) == parts_of(impl_item_fn(src@)),
{
    proc_macro2::fallback::force();
    let item = syn::parse_str::<syn::ImplItemFn>(src).map_err(|e| e.to_string())?;
    Ok(FnParts {
        attrs: item.attrs.iter().map(|attr| attr.to_token_stream().to_string()).collect(),
        vis: item.vis.to_token_stream().to_string(),
        defaultness: item.defaultness.is_some(),
        receiver: item.sig.receiver().is_some(),
        block: item.block.to_token_stream().to_string(),
    })
}

/// Calls `syn::parse_str` for a `syn::ImplItemFn` on `src` and hands out the fields of the
/// signature of the item; the generic parameters are those that `Generics::split_for_impl`
/// gives an impl. The answer is that part of `impl_item_fn(src)`.
#[verifier::external_body]
pub(crate) fn parse_impl_item_fn_signature(src: &str) -> (r: Result<Signature, String>)
    ensures
        read(r) == signature_of(impl_item_fn(src@)),
{
    proc_macro2::fallback::force();
    let sig = syn::parse_str::<syn::ImplItemFn>(src).map_err(|e| e.to_string())?.sig;
    Ok(Signature {
        constness: sig.constness.is_some(),
        asyncness: sig.asyncness.is_some(),
        unsafety: sig.unsafety.is_some(),
        abi: sig.abi.as_ref().map(|abi| abi.to_token_stream().to_string()),
        ident: sig.ident.to_string(),
        generics: sig.generics.split_for_impl().0.to_token_stream().to_string(),
        inputs: sig.inputs.to_token_stream().to_string(),
        output: match &sig.output {
            ReturnType::Type(_, ty) => Some(ty.to_token_stream().to_string()),
            ReturnType::Default => None },
        where_clause: sig.generics.where_clause.to_token_stream().to_string(),
    })
}

/// Calls `syn::parse_str` for a `syn::ImplItem` on `src` and hands out the item. The answer
/// is `impl_item(src)`.
#[verifier::external_body]
pub(crate) fn parse_impl_item(src: &str) -> (r: Result<String, String>)
    ensures
        read(r) == impl_item(src@),
{
    proc_macro2::fallback::force();
    match syn::parse_str::<syn::ImplItem>(src) {
        Ok(item) => Ok(item.to_token_stream().to_string()),
        Err(e) => Err(e.to_string()),
    }
}

/// Calls `syn::parse::Parser::parse_str` on `src` with `Punctuated::parse_terminated` for
/// `syn::FnArg` and `syn::token::Comma`, and hands out each argument by its variant; the name
/// of an argument is the identifier of a `syn::Pat::Ident`. The answer is `fn_args(src)`.
#[verifier::external_body]
pub(crate) fn parse_fn_args(src: &str) -> (r: Result<Vec<FnArg>, String>)
    ensures
        read_fn_args(r) == fn_args(src@),
{
    proc_macro2::fallback::force();
    let parser = Punctuated::<syn::FnArg, syn::token::Comma>::parse_terminated;
    let args = parser.parse_str(src).map_err(|e| e.to_string())?;
    Ok(args.iter().map(|arg| match arg {
        syn::FnArg::Receiver(arg) => FnArg::Receiver { text: arg.to_token_stream().to_string() },
        syn::FnArg::Typed(typed) => FnArg::Typed {
            attrs: typed.attrs.iter().map(|attr| attr.to_token_stream().to_string()).collect(),
            ident: match &*typed.pat {
                syn::Pat::Ident(pat) => Some(pat.ident.to_string()),
                _ => None,
            },
            ty: typed.ty.to_token_stream().to_string(),
        },
    }).collect())
}

/// Calls `syn::parse_str` for a `syn::Type` on `src` and, where the type is a `Type::Path`,
/// hands out the last segment of its path and, where that segment has
/// `PathArguments::AngleBracketed`, each of those arguments by its variant. The answer is
/// `last_segment(src)`.
#[verifier::external_body]
pub(crate) fn parse_last_segment(src: &str) -> (r: Result<Option<LastSegment>, String>)
    ensures
        read_segment(r) == last_segment(src@),
{
    proc_macro2::fallback::force();
    let ty = syn::parse_str::<syn::Type>(src).map_err(|e| e.to_string())?;
    let syn::Type::Path(ty) = ty else { return Ok(None) };
    Ok(ty.path.segments.last().map(|segment| LastSegment {
        text: segment.to_token_stream().to_string(),
        arguments: match &segment.arguments {
            syn::PathArguments::AngleBracketed(list) => Some(list.args.iter().map(|arg| match arg {
                syn::GenericArgument::Type(ty) => GenericArgument::Type(ty.to_token_stream().to_string()),
                other => GenericArgument::Other(other.to_token_stream().to_string()),
            }).collect()),
            _ => None,
        },
    }))
}

} // verus!

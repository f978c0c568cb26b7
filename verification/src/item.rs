//! A function item as the rewriting sees it: plain text, part by part.
use vstd::prelude::*;

use crate::error::{at_source, DiagnosticView, ErrorKind};
use crate::syntax::{FnParts, FnPartsView, Signature, SignatureView};
use crate::text::{each_followed, optional, push_each, push_optional, push_spaced, spaced, texts};

verus! {

/// A function or method with its body.
#[derive(Clone, Debug, PartialEq, Eq)]
pub struct Function {
    /// The attributes, one text each.
    pub attrs: Vec<String>,
    /// The visibility; empty where it is inherited.
    pub vis: String,
    /// Whether the item starts with `default`.
    pub defaultness: bool,
    /// The signature.
    pub sig: Signature,
    /// The body with its braces.
    pub block: String,
}

/// The mathematical value of a [`Function`].
pub struct FunctionView {
    pub attrs: Seq<Seq<char>>,
    pub vis: Seq<char>,
    pub defaultness: bool,
    pub sig: SignatureView,
    pub block: Seq<char>,
}

impl View for Function {
    type V = FunctionView;

    open spec fn view(&self) -> FunctionView {
        FunctionView {
            attrs: texts(self.attrs@),
            vis: self.vis@,
            defaultness: self.defaultness,
            sig: self.sig@,
            block: self.block@,
        }
    }
}

/// The failure for an item, or a part of one, that the parser of the host language rejected
/// with `message`.
pub open spec fn malformed(message: Seq<char>, source: Seq<char>) -> DiagnosticView {
    at_source(ErrorKind::Shape, message, source)
}

/// The function made of the parts around a signature and of the signature, read apart.
pub open spec fn assemble(parts: FnPartsView, sig: SignatureView) -> FunctionView {
    FunctionView {
        attrs: parts.attrs,
        vis: parts.vis,
        defaultness: parts.defaultness,
        sig,
        block: parts.block,
    }
}

/// The text of a calling convention: the convention and a space, or nothing.
pub open spec fn abi_text(abi: Option<Seq<char>>) -> Seq<char> {
    match abi {
        Some(abi) => abi + " "@,
        None => Seq::empty(),
    }
}

/// The text of a declared return type: an arrow, the type and a space, or nothing.
pub open spec fn return_text(output: Option<Seq<char>>) -> Seq<char> {
    match output {
        Some(ty) => "-> "@ + ty + " "@,
        None => Seq::empty(),
    }
}

/// The qualifiers of a signature in the order in which the language wants them.
pub open spec fn qualifiers_text(sig: SignatureView) -> Seq<char> {
    optional(sig.constness, "const"@, " "@) + optional(sig.asyncness, "async"@, " "@)
        + optional(sig.unsafety, "unsafe"@, " "@) + abi_text(sig.abi)
}

/// The source text of a signature.
pub open spec fn signature_text(sig: SignatureView) -> Seq<char> {
    qualifiers_text(sig) + "fn "@ + sig.ident + sig.generics + "("@ + sig.inputs + ") "@
        + return_text(sig.output) + spaced(sig.where_clause)
}

/// The source text of a function item.
pub open spec fn function_text(func: FunctionView) -> Seq<char> {
    each_followed(func.attrs, " "@) + spaced(func.vis) + optional(
        func.defaultness,
        "default"@,
        " "@,
    ) + signature_text(func.sig) + func.block
}

/// Appends the calling convention to `out`.
pub fn push_abi(out: &mut String, abi: &Option<String>)
    ensures
        final(out)@ == old(out)@ + abi_text(crate::syntax::optional_text(*abi)),
{
    match abi {
        Some(abi) => {
            out.append(abi.as_str());
            out.append(" ");
            assert(out@ =~= old(out)@ + (abi@ + " "@));
        },
        None => {
            assert(out@ =~= old(out)@ + Seq::<char>::empty());
        },
    }
}

/// Appends the qualifiers of `sig` to `out`.
pub fn push_qualifiers(out: &mut String, sig: &Signature)
    ensures
        final(out)@ == old(out)@ + qualifiers_text(sig@),
{
    push_optional(out, sig.constness, "const", " ");
    push_optional(out, sig.asyncness, "async", " ");
    push_optional(out, sig.unsafety, "unsafe", " ");
    push_abi(out, &sig.abi);
    assert(out@ =~= old(out)@ + qualifiers_text(sig@));
}

/// Appends the declared return type to `out`.
pub fn push_return(out: &mut String, output: &Option<String>)
    ensures
        final(out)@ == old(out)@ + return_text(crate::syntax::optional_text(*output)),
{
    match output {
        Some(ty) => {
            out.append("-> ");
            out.append(ty.as_str());
            out.append(" ");
            assert(out@ =~= old(out)@ + ("-> "@ + ty@ + " "@));
        },
        None => {
            assert(out@ =~= old(out)@ + Seq::<char>::empty());
        },
    }
}

/// Appends the source text of `sig` to `out`.
pub fn push_signature(out: &mut String, sig: &Signature)
    ensures
        final(out)@ == old(out)@ + signature_text(sig@),
{
    push_qualifiers(out, sig);
    out.append("fn ");
    out.append(sig.ident.as_str());
    out.append(sig.generics.as_str());
    out.append("(");
    out.append(sig.inputs.as_str());
    out.append(") ");
    push_return(out, &sig.output);
    push_spaced(out, sig.where_clause.as_str());
    assert(out@ =~= old(out)@ + signature_text(sig@));
}

impl Function {
    /// Puts together what was read around the signature and the signature itself.
    pub fn from_parts(parts: FnParts, sig: Signature) -> (func: Function)
        ensures
            func@ == assemble(parts@, sig@),
    {
        Function {
            attrs: parts.attrs,
            vis: parts.vis,
            defaultness: parts.defaultness,
            sig,
            block: parts.block,
        }
    }

    /// Writes the item out as source text.
    pub fn to_tokens(&self) -> (tokens: String)
        ensures
            tokens@ == function_text(self@),
    {
        let mut out = String::new();
        push_each(&mut out, &self.attrs, " ");
        push_spaced(&mut out, self.vis.as_str());
        push_optional(&mut out, self.defaultness, "default", " ");
        push_signature(&mut out, &self.sig);
        out.append(self.block.as_str());
        assert(out@ =~= function_text(self@));
        out
    }
}

} // verus!

//! Helpers on signatures: the success type of a return type, and formal arguments that can be
//! forwarded by name.
use vstd::prelude::*;

use crate::error::{at_call_site, at_source, outcome, Diagnostic, DiagnosticView, ErrorKind};
use crate::item::malformed;
use crate::syntax::{
    fn_args, last_segment, optional_text, parse_fn_args, parse_last_segment, read_segment, FnArg,
    FnArgView, GenericArgument, GenericArgumentView, LastSegment, LastSegmentView,
};
use crate::text::{decimal, each_followed, push_decimal, push_each, texts};

verus! {

/// The message for every return type that is not shaped like `Result<...>`.
pub open spec fn expected_result() -> Seq<char> {
    "Invalid return type. Expected `Result<...>`"@
}

/// The failure for a return type that is not shaped like `Result<...>`, pointing at `source`.
pub open spec fn invalid_return_type(source: Seq<char>) -> DiagnosticView {
    at_source(ErrorKind::Shape, expected_result(), source)
}

/// The failure for a function that declares no return type, pointing at the invocation.
pub open spec fn no_return_type() -> DiagnosticView {
    at_call_site(ErrorKind::Shape, expected_result())
}

/// What the angle brackets of the last segment, `segment`, say about the success type, where
/// `arguments` is what stands between them. Without angle brackets, with nothing between
/// them, and with anything but a type in first place, the return type is invalid.
pub open spec fn first_type_argument(
    segment: Seq<char>,
    arguments: Option<Seq<GenericArgumentView>>,
) -> Result<Seq<char>, DiagnosticView> {
    match arguments {
        None => Err(invalid_return_type(segment)),
        Some(args) => if args.len() == 0 {
            Err(invalid_return_type(segment))
        } else {
            match args[0] {
                GenericArgumentView::Type(ok) => Ok(ok),
                GenericArgumentView::Other(other) => Err(invalid_return_type(other)),
            }
        },
    }
}

/// The success type of the return type `ty`, where `last` is the last segment of the type as
/// a path: the first of the arguments between the angle brackets of that segment, where the
/// type is a path and that argument is a type. Anything else is the one failure for a return
/// type of another shape, and it points at the most specific part that has the wrong shape.
pub open spec fn success_type_of(
    ty: Seq<char>,
    last: Result<Option<LastSegmentView>, Seq<char>>,
) -> Result<Seq<char>, DiagnosticView> {
    match last {
        Err(_) => Err(invalid_return_type(ty)),
        Ok(None) => Err(invalid_return_type(ty)),
        Ok(Some(segment)) => first_type_argument(segment.text, segment.arguments),
    }
}

/// The success type of a declared return type. A function without a declared return type has
/// none, and the failure points at the invocation.
pub open spec fn success_type(return_ty: Option<Seq<char>>) -> Result<Seq<char>, DiagnosticView> {
    match return_ty {
        None => Err(no_return_type()),
        Some(ty) => success_type_of(ty, last_segment(ty)),
    }
}

/// Picks the success type of the return type `ty` from the last segment read in it.
pub fn ok_ty_of(ty: &str, last: Result<Option<LastSegment>, String>) -> (r: Result<
    String,
    Diagnostic,
>)
    ensures
        outcome(r) == success_type_of(ty@, read_segment(last)),
        r matches Err(e) ==> e@.kind == ErrorKind::Shape && e@.message == expected_result(),
{
    let segment = match last {
        Ok(Some(segment)) => segment,
        Ok(None) => {
            return Err(
                Diagnostic::new(
                    ErrorKind::Shape,
                    "Invalid return type. Expected `Result<...>`",
                    ty,
                ),
            );
        },
        Err(_) => {
            return Err(
                Diagnostic::new(
                    ErrorKind::Shape,
                    "Invalid return type. Expected `Result<...>`",
                    ty,
                ),
            );
        },
    };
    let args = match &segment.arguments {
        Some(args) => args,
        None => {
            return Err(
                Diagnostic::new(
                    ErrorKind::Shape,
                    "Invalid return type. Expected `Result<...>`",
                    segment.text.as_str(),
                ),
            );
        },
    };
    if args.len() == 0 {
        return Err(
            Diagnostic::new(
                ErrorKind::Shape,
                "Invalid return type. Expected `Result<...>`",
                segment.text.as_str(),
            ),
        );
    }
    match &args[0] {
        GenericArgument::Type(ok) => Ok(ok.clone()),
        GenericArgument::Other(other) => Err(
            Diagnostic::new(
                ErrorKind::Shape,
                "Invalid return type. Expected `Result<...>`",
                other.as_str(),
            ),
        ),
    }
}

/// Extracts the success type `T` from a return type shaped like `Result<T, ..>`.
pub fn ok_ty(return_ty: &Option<String>) -> (r: Result<String, Diagnostic>)
    ensures
        outcome(r) == success_type(optional_text(*return_ty)),
        r matches Err(e) ==> e@.kind == ErrorKind::Shape && e@.message == expected_result(),
        r is Ok ==> return_ty is Some,
{
    match return_ty {
        Some(ty) => ok_ty_of(ty.as_str(), parse_last_segment(ty.as_str())),
        None => Err(
            Diagnostic::call_site(ErrorKind::Shape, "Invalid return type. Expected `Result<...>`"),
        ),
    }
}

/// A formal argument that a call can pass on by name.
#[derive(Clone, Debug, PartialEq, Eq)]
pub struct CleanFnArg {
    /// The attributes on the argument, one text each.
    pub attrs: Vec<String>,
    /// The name of the argument.
    pub ident: String,
    /// The type of the argument.
    pub ty: String,
}

/// The mathematical value of a [`CleanFnArg`].
pub struct CleanFnArgView {
    pub attrs: Seq<Seq<char>>,
    pub ident: Seq<char>,
    pub ty: Seq<char>,
}

impl View for CleanFnArg {
    type V = CleanFnArgView;

    open spec fn view(&self) -> CleanFnArgView {
        CleanFnArgView { attrs: texts(self.attrs@), ident: self.ident@, ty: self.ty@ }
    }
}

/// The views of `args`, in order.
pub open spec fn clean_views(args: Seq<CleanFnArg>) -> Seq<CleanFnArgView> {
    args.map_values(|arg: CleanFnArg| arg@)
}

/// The name that stands for the argument at `position` where its pattern gives none.
pub open spec fn positional_name(position: nat) -> Seq<char> {
    "arg"@ + decimal(position)
}

/// The argument at `position` with a name to forward it by: its own where its pattern is a
/// single binding, the positional one where it is not.
pub open spec fn cleaned(position: nat, arg: FnArgView) -> CleanFnArgView
    recommends
        arg is Typed,
{
    match arg {
        FnArgView::Typed { attrs, ident, ty } => CleanFnArgView {
            attrs,
            ident: match ident {
                Some(name) => name,
                None => positional_name(position),
            },
            ty,
        },
        FnArgView::Receiver { text } => CleanFnArgView {
            attrs: Seq::empty(),
            ident: text,
            ty: text,
        },
    }
}

/// The text of the first receiver among `args`, if there is one.
pub open spec fn first_receiver(args: Seq<FnArgView>) -> Option<Seq<char>>
    decreases args.len(),
{
    if args.len() == 0 {
        None
    } else {
        match first_receiver(args.drop_last()) {
            Some(text) => Some(text),
            None => match args.last() {
                FnArgView::Receiver { text } => Some(text),
                FnArgView::Typed { .. } => None,
            },
        }
    }
}

/// The failure for a receiver among the arguments.
pub open spec fn self_not_supported(receiver: Seq<char>) -> DiagnosticView {
    at_source(ErrorKind::Shape, "Self argument is not supported"@, receiver)
}

/// The arguments `args` made fit for forwarding: every argument keeps its place, its
/// attributes and its type. A receiver anywhere among them is a failure that points at the
/// first one.
pub open spec fn cleared(args: Seq<FnArgView>) -> Result<Seq<CleanFnArgView>, DiagnosticView> {
    match first_receiver(args) {
        Some(receiver) => Err(self_not_supported(receiver)),
        None => Ok(Seq::new(args.len(), |i: int| cleaned(i as nat, args[i]))),
    }
}

/// The arguments of `inputs` made fit for forwarding.
pub open spec fn cleared_inputs(inputs: Seq<char>) -> Result<Seq<CleanFnArgView>, DiagnosticView> {
    match fn_args(inputs) {
        Err(message) => Err(malformed(message, inputs)),
        Ok(args) => cleared(args),
    }
}

/// Clearing keeps the number and the order of the arguments: each keeps its place, its
/// attributes and its type, and a name of its own where it has one.
pub proof fn lemma_cleared_keeps_order(args: Seq<FnArgView>)
    ensures
        cleared(args) is Ok <==> forall|i: int| 0 <= i < args.len() ==> args[i] is Typed,
        cleared(args) matches Ok(clean) ==> {
            &&& clean.len() == args.len()
            &&& forall|i: int|
                0 <= i < args.len() ==> {
                    &&& (#[trigger] clean[i]).attrs == args[i]->Typed_attrs
                    &&& clean[i].ty == args[i]->Typed_ty
                    &&& args[i]->Typed_ident matches Some(name) ==> clean[i].ident == name
                    &&& args[i]->Typed_ident is None ==> clean[i].ident == positional_name(i as nat)
                }
        },
{
    lemma_first_receiver(args);
}

/// There is a first receiver among `args` exactly where one of them is a receiver.
pub proof fn lemma_first_receiver(args: Seq<FnArgView>)
    ensures
        first_receiver(args) is None <==> forall|i: int| 0 <= i < args.len() ==> args[i] is Typed,
    decreases args.len(),
{
    if args.len() > 0 {
        lemma_first_receiver(args.drop_last());
        if first_receiver(args) is None {
            assert forall|i: int| 0 <= i < args.len() implies args[i] is Typed by {
                if i < args.len() - 1 {
                    assert(args.drop_last()[i] is Typed);
                }
            }
        } else {
            if first_receiver(args.drop_last()) is Some {
                let i = choose|i: int| 0 <= i < args.len() - 1 && !(args.drop_last()[i] is Typed);
                assert(!(args[i] is Typed));
            } else {
                assert(!(args[args.len() - 1] is Typed));
            }
        }
    }
}

/// The source text of a cleaned argument.
pub open spec fn clean_arg_text(arg: CleanFnArgView) -> Seq<char> {
    each_followed(arg.attrs, " "@) + arg.ident + " : "@ + arg.ty
}

/// The source text of a list of cleaned arguments, a comma behind each.
pub open spec fn clean_args_text(args: Seq<CleanFnArgView>) -> Seq<char>
    decreases args.len(),
{
    if args.len() == 0 {
        Seq::empty()
    } else {
        clean_args_text(args.drop_last()) + clean_arg_text(args.last()) + ", "@
    }
}

/// The names of `args`, in order.
pub open spec fn names(args: Seq<CleanFnArgView>) -> Seq<Seq<char>> {
    args.map_values(|arg: CleanFnArgView| arg.ident)
}

impl CleanFnArg {
    /// Writes the argument out as source text.
    pub fn to_tokens(&self) -> (tokens: String)
        ensures
            tokens@ == clean_arg_text(self@),
    {
        let mut out = String::new();
        push_each(&mut out, &self.attrs, " ");
        out.append(self.ident.as_str());
        out.append(" : ");
        out.append(self.ty.as_str());
        assert(out@ =~= clean_arg_text(self@));
        out
    }
}

/// Gives every argument of `args` a name to forward it by, and rejects receivers.
pub fn clear_args(args: &Vec<FnArg>) -> (r: Result<Vec<CleanFnArg>, Diagnostic>)
    ensures
        match r {
            Ok(cleared_args) => cleared(crate::syntax::fn_arg_views(args@)) == Ok::<
                Seq<CleanFnArgView>,
                DiagnosticView,
            >(clean_views(cleared_args@)),
            Err(e) => cleared(crate::syntax::fn_arg_views(args@)) == Err::<
                Seq<CleanFnArgView>,
                DiagnosticView,
            >(e@),
        },
{
    let ghost all = crate::syntax::fn_arg_views(args@);
    let mut cleared_args: Vec<CleanFnArg> = Vec::new();
    let mut i: usize = 0;
    while i < args.len()
        invariant
            i <= args.len(),
            all == crate::syntax::fn_arg_views(args@),
            first_receiver(all.take(i as int)) is None,
            cleared_args.len() == i,
            forall|j: int| 0 <= j < i ==> all[j] is Typed,
            forall|j: int|
                0 <= j < i ==> (#[trigger] cleared_args[j])@ == cleaned(j as nat, all[j]),
        decreases args.len() - i,
    {
        proof {
            assert(all.take(i + 1).drop_last() =~= all.take(i as int));
            assert(all.take(i + 1).last() == args[i as int]@);
        }
        match &args[i] {
            FnArg::Receiver { text } => {
                proof {
                    assert(all.take(i + 1).last() == FnArgView::Receiver { text: text@ });
                    assert(first_receiver(all.take(i + 1)) == Some(text@));
                    lemma_first_receiver_prefix(all, i + 1);
                }
                return Err(
                    Diagnostic::new(
                        ErrorKind::Shape,
                        "Self argument is not supported",
                        text.as_str(),
                    ),
                );
            },
            FnArg::Typed { attrs, ident, ty } => {
                let name = match ident {
                    Some(name) => name.clone(),
                    None => {
                        let mut name = String::from_str("arg");
                        push_decimal(&mut name, i);
                        name
                    },
                };
                cleared_args.push(CleanFnArg { attrs: attrs.clone(), ident: name, ty: ty.clone() });
            },
        }
        i += 1;
    }
    proof {
        assert(all.take(i as int) =~= all);
        assert(clean_views(cleared_args@) =~= Seq::new(
            all.len(),
            |i: int| cleaned(i as nat, all[i]),
        ));
    }
    Ok(cleared_args)
}

/// Reads the arguments `inputs`, gives every one a name to forward it by, and rejects
/// receivers.
pub fn clear_inputs(inputs: &str) -> (r: Result<Vec<CleanFnArg>, Diagnostic>)
    ensures
        match r {
            Ok(args) => cleared_inputs(inputs@) == Ok::<Seq<CleanFnArgView>, DiagnosticView>(
                clean_views(args@),
            ),
            Err(e) => cleared_inputs(inputs@) == Err::<Seq<CleanFnArgView>, DiagnosticView>(e@),
        },
{
    match parse_fn_args(inputs) {
        Ok(args) => clear_args(&args),
        Err(message) => Err(Diagnostic::rejected(ErrorKind::Shape, message, inputs)),
    }
}

/// A receiver found in a prefix of `args` is the first receiver of `args`.
pub proof fn lemma_first_receiver_prefix(args: Seq<FnArgView>, n: int)
    requires
        0 <= n <= args.len(),
        first_receiver(args.take(n)) is Some,
    ensures
        first_receiver(args) == first_receiver(args.take(n)),
    decreases args.len() - n,
{
    if n < args.len() {
        assert(args.take(n + 1).drop_last() =~= args.take(n));
        lemma_first_receiver_prefix(args, n + 1);
    } else {
        assert(args.take(n) =~= args);
    }
}

/// Writes the names of `args` out as the arguments of a call, a comma behind each.
pub fn call_inputs(args: &Vec<CleanFnArg>) -> (call: String)
    ensures
        call@ == each_followed(names(clean_views(args@)), ", "@),
{
    let mut out = String::new();
    let ghost all = names(clean_views(args@));
    let mut i: usize = 0;
    assert(out@ =~= each_followed(all.take(0), ", "@));
    while i < args.len()
        invariant
            i <= args.len(),
            all == names(clean_views(args@)),
            out@ == each_followed(all.take(i as int), ", "@),
        decreases args.len() - i,
    {
        out.append(args[i].ident.as_str());
        out.append(", ");
        proof {
            assert(all.take(i + 1).drop_last() =~= all.take(i as int));
            assert(all.take(i + 1).last() == args[i as int].ident@);
            assert(out@ =~= each_followed(all.take(i + 1), ", "@));
        }
        i += 1;
    }
    assert(all.take(i as int) =~= all);
    out
}

/// Writes `args` out as the formal arguments of a function, a comma behind each.
pub fn clean_args_tokens(args: &Vec<CleanFnArg>) -> (tokens: String)
    ensures
        tokens@ == clean_args_text(clean_views(args@)),
{
    let mut out = String::new();
    let ghost all = clean_views(args@);
    let mut i: usize = 0;
    assert(out@ =~= clean_args_text(all.take(0)));
    while i < args.len()
        invariant
            i <= args.len(),
            all == clean_views(args@),
            out@ == clean_args_text(all.take(i as int)),
        decreases args.len() - i,
    {
        let arg = args[i].to_tokens();
        out.append(arg.as_str());
        out.append(", ");
        proof {
            assert(all.take(i + 1).drop_last() =~= all.take(i as int));
            assert(all.take(i + 1).last() == args[i as int]@);
        }
        i += 1;
    }
    assert(all.take(i as int) =~= all);
    out
}

} // verus!

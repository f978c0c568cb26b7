//! What a failed expansion reports.
use vstd::prelude::*;

verus! {

/// The families of failures that an expansion can end in.
#[derive(Clone, Copy, Debug, PartialEq, Eq, Structural)]
pub enum ErrorKind {
    /// The arguments of the macro are malformed or have none of the supported shapes.
    Grammar,
    /// The annotated item is malformed or not one that can be rewritten.
    Shape,
    /// The build selects no error backend, or more than one.
    Configuration,
}

/// The place in the source that a failure points at.
#[derive(Clone, Debug, PartialEq, Eq)]
pub enum Span {
    /// The invocation of the macro as a whole.
    CallSite,
    /// These tokens; an empty text stands for the end of the input.
    Source(String),
}

/// The mathematical value of a [`Span`].
pub enum SpanView {
    CallSite,
    Source(Seq<char>),
}

impl View for Span {
    type V = SpanView;

    open spec fn view(&self) -> SpanView {
        match self {
            Span::CallSite => SpanView::CallSite,
            Span::Source(text) => SpanView::Source(text@),
        }
    }
}

/// A failure of one expansion: its family, the message for the developer, and the place it
/// points at.
#[derive(Clone, Debug, PartialEq, Eq)]
pub struct Diagnostic {
    pub kind: ErrorKind,
    pub message: String,
    pub span: Span,
}

/// The mathematical value of a [`Diagnostic`].
pub struct DiagnosticView {
    pub kind: ErrorKind,
    pub message: Seq<char>,
    pub span: SpanView,
}

impl View for Diagnostic {
    type V = DiagnosticView;

    open spec fn view(&self) -> DiagnosticView {
        DiagnosticView { kind: self.kind, message: self.message@, span: self.span@ }
    }
}

/// The failure that reports `message` about the tokens `source`.
pub open spec fn at_source(
    kind: ErrorKind,
    message: Seq<char>,
    source: Seq<char>,
) -> DiagnosticView {
    DiagnosticView { kind, message, span: SpanView::Source(source) }
}

/// The failure that reports `message` about the invocation as a whole.
pub open spec fn at_call_site(kind: ErrorKind, message: Seq<char>) -> DiagnosticView {
    DiagnosticView { kind, message, span: SpanView::CallSite }
}

/// The family of a failure in words.
pub open spec fn kind_text(kind: ErrorKind) -> Seq<char> {
    match kind {
        ErrorKind::Grammar => "invalid arguments"@,
        ErrorKind::Shape => "invalid item"@,
        ErrorKind::Configuration => "invalid configuration"@,
    }
}

/// The place of a failure in words: nothing for the invocation as a whole, and else the tokens
/// that the failure points at.
pub open spec fn place_text(span: SpanView) -> Seq<char> {
    match span {
        SpanView::CallSite => Seq::empty(),
        SpanView::Source(source) => " (at `"@ + source + "`)"@,
    }
}

/// What a failure tells the developer: its family, its message and its place.
pub open spec fn report_text(failure: DiagnosticView) -> Seq<char> {
    kind_text(failure.kind) + ": "@ + failure.message + place_text(failure.span)
}

/// The mathematical value of an outcome: that of the result, or that of the failure.
pub open spec fn outcome<T: View>(r: Result<T, Diagnostic>) -> Result<T::V, DiagnosticView> {
    match r {
        Ok(value) => Ok(value@),
        Err(error) => Err(error@),
    }
}

impl Diagnostic {
    /// A failure that points at the tokens `source`.
    pub fn new(kind: ErrorKind, message: &str, source: &str) -> (error: Diagnostic)
        ensures
            error@ == at_source(kind, message@, source@),
    {
        Diagnostic {
            kind,
            message: String::from_str(message),
            span: Span::Source(String::from_str(source)),
        }
    }

    /// A failure that points at the invocation of the macro.
    pub fn call_site(kind: ErrorKind, message: &str) -> (error: Diagnostic)
        ensures
            error@ == at_call_site(kind, message@),
    {
        Diagnostic { kind, message: String::from_str(message), span: Span::CallSite }
    }

    /// Writes out what the failure tells the developer: its family, its message and the
    /// tokens that it points at.
    pub fn report(&self) -> (text: String)
        ensures
            text@ == report_text(self@),
    {
        let mut out = match self.kind {
            ErrorKind::Grammar => String::from_str("invalid arguments"),
            ErrorKind::Shape => String::from_str("invalid item"),
            ErrorKind::Configuration => String::from_str("invalid configuration"),
        };
        out.append(": ");
        out.append(self.message.as_str());
        match &self.span {
            Span::CallSite => {
                assert(out@ =~= report_text(self@));
            },
            Span::Source(source) => {
                out.append(" (at `");
                out.append(source.as_str());
                out.append("`)");
                assert(out@ =~= report_text(self@));
            },
        }
        out
    }

    /// The failure for the tokens `source` that the parser of the host language rejected with
    /// `message`.
    pub fn rejected(kind: ErrorKind, message: String, source: &str) -> (error: Diagnostic)
        ensures
            error@ == at_source(kind, message@, source@),
    {
        Diagnostic { kind, message, span: Span::Source(String::from_str(source)) }
    }
}

} // verus!

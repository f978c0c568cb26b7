//! The error type that a backend returns.
use vstd::prelude::*;

use crate::backend::{selected, Backend, Backends};
use crate::error::{outcome, Diagnostic, DiagnosticView};

verus! {

/// The error type of `backend`, by its path.
pub open spec fn error_type(backend: Backend) -> Seq<char> {
    match backend {
        Backend::Anyhow => "::errify::__private::anyhow::Error"@,
        Backend::Eyre => "::errify::__private::eyre::Report"@,
    }
}

/// The error type of the single backend that `backends` selects.
pub open spec fn provided_error(backends: Backends) -> Result<Seq<char>, DiagnosticView> {
    match selected(backends, "Ambiguous using error provider. Choose either `anyhow` or `eyre`"@) {
        Ok(backend) => Ok(error_type(backend)),
        Err(e) => Err(e),
    }
}

/// Names the error type of the backend that the build selects. With both backends switched
/// on, or none, there is no such type.
pub fn generic(backends: Backends) -> (r: Result<String, Diagnostic>)
    ensures
        outcome(r) == provided_error(backends),
        backends.anyhow && backends.eyre ==> r is Err,
{
    match backends.select("Ambiguous using error provider. Choose either `anyhow` or `eyre`") {
        Ok(Backend::Anyhow) => Ok(anyhow()),
        Ok(Backend::Eyre) => Ok(eyre()),
        Err(e) => Err(e),
    }
}

/// The error type of the `anyhow` backend.
pub fn anyhow() -> (ty: String)
    ensures
        ty@ == error_type(Backend::Anyhow),
{
    String::from_str("::errify::__private::anyhow::Error")
}

/// The error type of the `eyre` backend.
pub fn eyre() -> (ty: String)
    ensures
        ty@ == error_type(Backend::Eyre),
{
    String::from_str("::errify::__private::eyre::Report")
}

} // verus!

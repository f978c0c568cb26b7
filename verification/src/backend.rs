//! The error backends that a build can select.
use vstd::prelude::*;

use crate::error::{at_call_site, Diagnostic, DiagnosticView, ErrorKind};

verus! {

/// One of the two interchangeable error backends.
#[derive(Clone, Copy, Debug, PartialEq, Eq, Structural)]
pub enum Backend {
    Anyhow,
    Eyre,
}

/// The backends that the build has switched on. An expansion needs exactly one.
#[derive(Clone, Copy, Debug, PartialEq, Eq, Structural)]
pub struct Backends {
    pub anyhow: bool,
    pub eyre: bool,
}

/// The selection of a build that switches on both backends.
pub open spec fn both() -> Backends {
    Backends { anyhow: true, eyre: true }
}

/// The failure for a build that selects no backend.
pub open spec fn none_enabled() -> DiagnosticView {
    at_call_site(ErrorKind::Configuration, "None of the `anyhow` or `eyre` features are enabled"@)
}

/// The backend that `backends` selects: the one that is switched on where it is the only one.
/// Two backends are a failure that reports `ambiguous`, none is a failure too.
pub open spec fn selected(backends: Backends, ambiguous: Seq<char>) -> Result<
    Backend,
    DiagnosticView,
> {
    if backends.anyhow && backends.eyre {
        Err(at_call_site(ErrorKind::Configuration, ambiguous))
    } else if backends.anyhow {
        Ok(Backend::Anyhow)
    } else if backends.eyre {
        Ok(Backend::Eyre)
    } else {
        Err(none_enabled())
    }
}

impl Backends {
    /// Resolves the selection to a single backend; `ambiguous` is the message for a build that
    /// switches on both.
    pub fn select(&self, ambiguous: &str) -> (r: Result<Backend, Diagnostic>)
        ensures
            selected(*self, ambiguous@) == match r {
                Ok(backend) => Ok::<Backend, DiagnosticView>(backend),
                Err(e) => Err(e@),
            },
            self.anyhow && self.eyre ==> r is Err,
    {
        if self.anyhow && self.eyre {
            Err(Diagnostic::call_site(ErrorKind::Configuration, ambiguous))
        } else if self.anyhow {
            Ok(Backend::Anyhow)
        } else if self.eyre {
            Ok(Backend::Eyre)
        } else {
            Err(
                Diagnostic::call_site(
                    ErrorKind::Configuration,
                    "None of the `anyhow` or `eyre` features are enabled",
                ),
            )
        }
    }
}

} // verus!

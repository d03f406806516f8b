use vstd::prelude::*;

verus! {

#[derive(Clone, Copy, Debug, PartialEq, Eq, Structural)]
pub enum Severity {
    Info,
    Warning,
    Error,
}

/// What a diagnostic reports; each one leaves the walk going.
#[derive(Clone, Copy, Debug, PartialEq, Eq, Structural)]
pub enum DiagnosticKind {
    Comment,
    InterpolateWithoutCoordinates,
    MoveWithoutCoordinates,
    MissingArcOffset,
    ArcUnsupported,
    UnsupportedAperture,
    UnsupportedStrokeAperture,
    UnsupportedGCode,
    ScaleIgnored,
}

/// A diagnostic and the index of the command that raised it, if a command did.
#[derive(Clone, Copy, Debug, PartialEq, Eq, Structural)]
pub struct Diagnostic {
    pub kind: DiagnosticKind,
    pub command: Option<usize>,
}

pub open spec fn severity_of(k: DiagnosticKind) -> Severity {
    match k {
        DiagnosticKind::Comment => Severity::Info,
        DiagnosticKind::UnsupportedAperture => Severity::Error,
        DiagnosticKind::UnsupportedGCode => Severity::Error,
        _ => Severity::Warning,
    }
}

impl Diagnostic {
    pub fn severity(&self) -> (r: Severity)
        ensures
            r == severity_of(self.kind),
    {
        match self.kind {
            DiagnosticKind::Comment => Severity::Info,
            DiagnosticKind::UnsupportedAperture => Severity::Error,
            DiagnosticKind::UnsupportedGCode => Severity::Error,
            _ => Severity::Warning,
        }
    }
}

} // verus!

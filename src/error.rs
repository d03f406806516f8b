use vstd::prelude::*;

use crate::plotter::Gerber2SVG;

verus! {

/// Why a layer cannot be turned into a plotter.
pub enum ImportError {
    IOError(String),
    /// The parse failed and recovered nothing.
    ParseError(String),
    /// The parse failed after some commands: the plotter holds what was recovered.
    NonFatalError(Gerber2SVG, String),
    MissingCoordinatesFormat,
    MissingUnit,
}

pub enum ExportError {
    IOError(String),
}

pub enum ConversionError {
    PointToCoordError(String),
}

/// Why a walk over the commands stopped.
#[derive(Clone, Copy, Debug, PartialEq, Eq, Structural)]
pub enum BuildError {
    /// A flash, or a line drawn, with no aperture selected.
    NoApertureSelected,
    /// A selection of an aperture that the dictionary does not hold.
    UnknownApertureId(i32),
}

pub enum Gerber2SvgError {
    ImportError(ImportError),
    ExportError(ExportError),
    ConversionError(ConversionError),
    BuildError(BuildError),
}

impl From<ImportError> for Gerber2SvgError {
    fn from(val: ImportError) -> (r: Gerber2SvgError)
        ensures
            r == Gerber2SvgError::ImportError(val),
    {
        Gerber2SvgError::ImportError(val)
    }
}

impl vstd::std_specs::convert::FromSpecImpl<ImportError> for Gerber2SvgError {
    open spec fn obeys_from_spec() -> bool {
        true
    }

    open spec fn from_spec(v: ImportError) -> Gerber2SvgError {
        Gerber2SvgError::ImportError(v)
    }
}

impl From<ExportError> for Gerber2SvgError {
    fn from(val: ExportError) -> (r: Gerber2SvgError)
        ensures
            r == Gerber2SvgError::ExportError(val),
    {
        Gerber2SvgError::ExportError(val)
    }
}

impl vstd::std_specs::convert::FromSpecImpl<ExportError> for Gerber2SvgError {
    open spec fn obeys_from_spec() -> bool {
        true
    }

    open spec fn from_spec(v: ExportError) -> Gerber2SvgError {
        Gerber2SvgError::ExportError(v)
    }
}

impl From<ConversionError> for Gerber2SvgError {
    fn from(val: ConversionError) -> (r: Gerber2SvgError)
        ensures
            r == Gerber2SvgError::ConversionError(val),
    {
        Gerber2SvgError::ConversionError(val)
    }
}

impl vstd::std_specs::convert::FromSpecImpl<ConversionError> for Gerber2SvgError {
    open spec fn obeys_from_spec() -> bool {
        true
    }

    open spec fn from_spec(v: ConversionError) -> Gerber2SvgError {
        Gerber2SvgError::ConversionError(v)
    }
}

impl From<BuildError> for Gerber2SvgError {
    fn from(val: BuildError) -> (r: Gerber2SvgError)
        ensures
            r == Gerber2SvgError::BuildError(val),
    {
        Gerber2SvgError::BuildError(val)
    }
}

impl vstd::std_specs::convert::FromSpecImpl<BuildError> for Gerber2SvgError {
    open spec fn obeys_from_spec() -> bool {
        true
    }

    open spec fn from_spec(v: BuildError) -> Gerber2SvgError {
        Gerber2SvgError::BuildError(v)
    }
}

} // verus!

pub mod aperture;
pub mod bbox;
pub mod command;
pub mod diagnostics;
pub mod document;
pub mod error;
pub mod geometry;
pub mod laws;
pub mod model;
pub mod plotter;
pub mod units;

pub use error::{BuildError, ConversionError, ExportError, Gerber2SvgError, ImportError};
pub use geometry::Point;
pub use plotter::Gerber2SVG;

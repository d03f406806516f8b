use vstd::prelude::*;

use crate::aperture::Aperture;
use crate::geometry::Coordinates;

verus! {

#[derive(Clone, Copy, Debug, PartialEq, Eq, Structural)]
pub enum InterpolationMode {
    Linear,
    ClockwiseCircular,
    CounterclockwiseCircular,
}

/// The unit that a layer declares for its coordinates and dimensions.
#[derive(Clone, Copy, Debug, PartialEq, Eq, Structural)]
pub enum Unit {
    Inches,
    Millimeters,
}

pub open spec fn suffix_of(u: Unit) -> Seq<char> {
    match u {
        Unit::Inches => seq!['i', 'n'],
        Unit::Millimeters => seq!['m', 'm'],
    }
}

impl Unit {
    /// The suffix written after every emitted length.
    pub fn suffix(&self) -> (r: &'static str)
        ensures
            r@ == suffix_of(*self),
    {
        match self {
            Unit::Inches => {
                proof {
                    reveal_strlit("in");
                }
                "in"
            },
            Unit::Millimeters => {
                proof {
                    reveal_strlit("mm");
                }
                "mm"
            },
        }
    }
}

/// How many digits a coordinate has before and after its decimal point.
#[derive(Clone, Copy, Debug, PartialEq, Eq, Structural)]
pub struct CoordinateFormat {
    pub integer: u8,
    pub decimal: u8,
}

/// One plotter command of a layer.
#[derive(Clone, Debug, PartialEq, Eq)]
pub enum Command {
    /// Draw to a point; `offset` is the arc centre offset of a circular move.
    Interpolate { coordinates: Option<Coordinates>, offset: Option<Coordinates> },
    /// Go to a point without drawing.
    Move(Option<Coordinates>),
    /// Stamp the selected aperture at a point.
    Flash(Option<Coordinates>),
    SelectAperture(i32),
    InterpolationMode(InterpolationMode),
    Comment(String),
    /// A G code with no effect here (region, quadrant, unit and the like).
    UnsupportedGCode,
    MCode,
    ExtendedCode,
}

/// A parsed layer: its declarations, aperture dictionary and command stream.
///
/// The dictionary holds each aperture id once. A command that failed to
/// parse stands in the stream as an `Err` with its message.
pub struct LayerDoc {
    pub units: Option<Unit>,
    pub format_specification: Option<CoordinateFormat>,
    pub apertures: Vec<(i32, Aperture)>,
    pub commands: Vec<Result<Command, String>>,
}

/// No command of the stream parsed.
pub open spec fn recovered_nothing(cmds: Seq<Result<Command, String>>) -> bool {
    forall|i: int| 0 <= i < cmds.len() ==> (#[trigger] cmds[i]) is Err
}

/// Does any command of the stream hold a parsed command?
pub fn any_parsed(cmds: &Vec<Result<Command, String>>) -> (r: bool)
    ensures
        r == !recovered_nothing(cmds@),
{
    let mut i: usize = 0;
    while i < cmds.len()
        invariant
            i <= cmds@.len(),
            forall|j: int| 0 <= j < i ==> (#[trigger] cmds@[j]) is Err,
        decreases cmds@.len() - i,
    {
        if cmds[i].is_ok() {
            return true;
        }
        i = i + 1;
    }
    false
}

} // verus!

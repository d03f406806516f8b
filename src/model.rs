use vstd::prelude::*;

use crate::aperture::{aperture_index, half_stroke, strokes, Aperture};
use crate::bbox::{expanded, BoundingBox};
use crate::command::{Command, InterpolationMode};
use crate::diagnostics::{Diagnostic, DiagnosticKind};
use crate::document::Shape;
use crate::error::BuildError;
use crate::geometry::{fine_point, resolve, resolve_opt, FinePoint, Point};

verus! {

/// The plotter's state as a mathematical value.
pub struct PlotModel {
    pub position: Point,
    pub mode: InterpolationMode,
    /// Index of the selected aperture in the dictionary.
    pub selected: Option<int>,
    /// The primitives emitted so far, in order.
    pub shapes: Seq<Shape>,
    /// The points of the path being drawn; empty when none is.
    pub path: Seq<FinePoint>,
    pub bbox: BoundingBox,
    pub diagnostics: Seq<Diagnostic>,
}

/// At the origin, drawing lines, with no aperture selected and nothing emitted.
pub open spec fn initial_model() -> PlotModel {
    PlotModel {
        position: Point { x: 0, y: 0 },
        mode: InterpolationMode::Linear,
        selected: None,
        shapes: Seq::empty(),
        path: Seq::empty(),
        bbox: BoundingBox { empty: true, min_x: 0, max_x: 0, min_y: 0, max_y: 0 },
        diagnostics: Seq::empty(),
    }
}

pub open spec fn note(m: PlotModel, kind: DiagnosticKind, command: Option<usize>) -> PlotModel {
    PlotModel { diagnostics: m.diagnostics.push(Diagnostic { kind, command }), ..m }
}

pub open spec fn moved(m: PlotModel, p: Point) -> PlotModel {
    PlotModel { position: p, ..m }
}

pub open spec fn selected_aperture(m: PlotModel, apertures: Seq<(i32, Aperture)>) -> Option<
    Aperture,
> {
    match m.selected {
        Some(k) => Some(apertures[k].1),
        None => None,
    }
}

/// A line from the current position to `target`, padded by `half` in the box.
/// An empty path starts at the current position.
pub open spec fn append(m: PlotModel, target: Point, half: int) -> PlotModel {
    let t = fine_point(target);
    if m.path.len() == 0 {
        let s = fine_point(m.position);
        PlotModel {
            path: seq![s, t],
            bbox: expanded(
                expanded(m.bbox, s.x as int, s.y as int, half, half),
                t.x as int,
                t.y as int,
                half,
                half,
            ),
            ..m
        }
    } else {
        PlotModel {
            path: m.path.push(t),
            bbox: expanded(m.bbox, t.x as int, t.y as int, half, half),
            ..m
        }
    }
}

pub open spec fn strokes_opt(a: Option<Aperture>) -> bool {
    match a {
        Some(ap) => strokes(ap),
        None => false,
    }
}

pub open spec fn stroke_opt(a: Option<Aperture>, scale: u32) -> int {
    match a {
        Some(ap) => 2 * half_stroke(ap, scale),
        None => 0,
    }
}

/// Ends the path being drawn: it becomes one polyline with the selected
/// aperture's stroke. An empty path changes nothing.
pub open spec fn flush(
    m: PlotModel,
    apertures: Seq<(i32, Aperture)>,
    scale: u32,
    command: Option<usize>,
) -> PlotModel {
    if m.path.len() == 0 {
        m
    } else {
        let sel = selected_aperture(m, apertures);
        let drawn = PlotModel {
            shapes: m.shapes.push(Shape::Polyline { points: m.path, stroke: stroke_opt(sel, scale) }),
            path: Seq::empty(),
            ..m
        };
        if strokes_opt(sel) {
            drawn
        } else {
            note(drawn, DiagnosticKind::UnsupportedStrokeAperture, command)
        }
    }
}

/// Stamps aperture `a` at `target`: a circle or a rectangle centred there.
pub open spec fn flash(
    m: PlotModel,
    target: Point,
    a: Aperture,
    scale: u32,
    command: Option<usize>,
) -> PlotModel {
    let t = fine_point(target);
    match a {
        Aperture::Circle { diameter } => {
            let r = 2 * ((diameter as int) * (scale as int));
            PlotModel {
                shapes: m.shapes.push(Shape::Circle { center: t, radius: r }),
                bbox: expanded(m.bbox, t.x as int, t.y as int, r, r),
                ..m
            }
        },
        Aperture::Rectangle { width, height } => {
            let hw = 2 * ((width as int) * (scale as int));
            let hh = 2 * ((height as int) * (scale as int));
            PlotModel {
                shapes: m.shapes.push(
                    Shape::Rect {
                        origin: FinePoint { x: (t.x - hw) as i128, y: (t.y - hh) as i128 },
                        width: 2 * hw,
                        height: 2 * hh,
                    },
                ),
                bbox: expanded(m.bbox, t.x as int, t.y as int, hw, hh),
                ..m
            }
        },
        _ => note(m, DiagnosticKind::UnsupportedAperture, command),
    }
}

/// The effect of command number `index` on the plotter.
pub open spec fn step(
    m: PlotModel,
    cmd: Result<Command, String>,
    index: int,
    apertures: Seq<(i32, Aperture)>,
    scale: u32,
) -> Result<PlotModel, BuildError> {
    let here = Some(index as usize);
    match cmd {
        Err(_) => Ok(m),
        Ok(c) => match c {
            Command::Interpolate { coordinates, offset } => match coordinates {
                None => Ok(note(m, DiagnosticKind::InterpolateWithoutCoordinates, here)),
                Some(co) => {
                    let target = resolve(co, m.position);
                    if m.mode == InterpolationMode::Linear {
                        match selected_aperture(m, apertures) {
                            None => Err(BuildError::NoApertureSelected),
                            Some(a) => Ok(moved(append(m, target, half_stroke(a, scale)), target)),
                        }
                    } else if offset is None {
                        Ok(note(m, DiagnosticKind::MissingArcOffset, here))
                    } else {
                        Ok(moved(note(m, DiagnosticKind::ArcUnsupported, here), target))
                    }
                },
            },
            Command::Move(c) => match c {
                None => Ok(note(m, DiagnosticKind::MoveWithoutCoordinates, here)),
                Some(co) => Ok(moved(flush(m, apertures, scale, here), resolve(co, m.position))),
            },
            Command::Flash(c) => {
                let target = resolve_opt(c, m.position);
                match selected_aperture(m, apertures) {
                    None => Err(BuildError::NoApertureSelected),
                    Some(a) => Ok(
                        moved(flash(flush(m, apertures, scale, here), target, a, scale, here), target),
                    ),
                }
            },
            Command::SelectAperture(id) => match aperture_index(apertures, id) {
                None => Err(BuildError::UnknownApertureId(id)),
                Some(k) => Ok(PlotModel { selected: Some(k), ..flush(m, apertures, scale, here) }),
            },
            Command::InterpolationMode(md) => Ok(PlotModel { mode: md, ..m }),
            Command::Comment(_) => Ok(note(m, DiagnosticKind::Comment, here)),
            Command::UnsupportedGCode => Ok(note(m, DiagnosticKind::UnsupportedGCode, here)),
            Command::MCode => Ok(m),
            Command::ExtendedCode => Ok(m),
        },
    }
}

/// The plotter after the commands `cmds`, in order, from `m`; the first error stops it.
pub open spec fn run(
    m: PlotModel,
    cmds: Seq<Result<Command, String>>,
    apertures: Seq<(i32, Aperture)>,
    scale: u32,
) -> Result<PlotModel, BuildError>
    decreases cmds.len(),
{
    if cmds.len() == 0 {
        Ok(m)
    } else {
        match run(m, cmds.drop_last(), apertures, scale) {
            Ok(p) => step(p, cmds.last(), cmds.len() - 1, apertures, scale),
            Err(e) => Err(e),
        }
    }
}

/// The whole walk: the commands, then the path still being drawn.
pub open spec fn walk(
    m: PlotModel,
    cmds: Seq<Result<Command, String>>,
    apertures: Seq<(i32, Aperture)>,
    scale: u32,
) -> Result<PlotModel, BuildError> {
    match run(m, cmds, apertures, scale) {
        Ok(p) => Ok(flush(p, apertures, scale, None)),
        Err(e) => Err(e),
    }
}

/// Once the walk has stopped on an error, later commands do not matter.
pub proof fn lemma_run_err_prefix(
    m: PlotModel,
    cmds: Seq<Result<Command, String>>,
    k: int,
    apertures: Seq<(i32, Aperture)>,
    scale: u32,
)
    requires
        0 <= k <= cmds.len(),
        run(m, cmds.take(k), apertures, scale) is Err,
    ensures
        run(m, cmds, apertures, scale) == run(m, cmds.take(k), apertures, scale),
    decreases cmds.len() - k,
{
    if k == cmds.len() {
        assert(cmds.take(k) =~= cmds);
    } else {
        assert(cmds.take(k + 1).drop_last() =~= cmds.take(k));
        lemma_run_err_prefix(m, cmds, k + 1, apertures, scale);
    }
}

} // verus!

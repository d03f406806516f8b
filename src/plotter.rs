use vstd::prelude::*;

use crate::aperture::{find_aperture, ids_unique, mul_dim, path_half_stroke, Aperture, SCALE_ONE};
use crate::bbox::{box_fits, BoundingBox};
use crate::command::{any_parsed, recovered_nothing, Command, InterpolationMode, LayerDoc, Unit};
use crate::diagnostics::{Diagnostic, DiagnosticKind};
use crate::document::{shapes_of, viewport_of, Document, Primitive, Shape, Viewport};
use crate::error::{BuildError, ImportError};
use crate::geometry::{FinePoint, Point};
use crate::model::{
    append, flash, flush, initial_model, lemma_run_err_prefix, moved, note, run, step, walk,
    PlotModel,
};

verus! {

pub proof fn lemma_shapes_push(ps: Seq<Primitive>, p: Primitive)
    ensures
        shapes_of(ps.push(p)) == shapes_of(ps).push(p@),
{
    assert(shapes_of(ps.push(p)) =~= shapes_of(ps).push(p@));
}

/// Walks the commands of a layer and collects what they draw.
pub struct Gerber2SVG {
    commands: Vec<Result<Command, String>>,
    apertures: Vec<(i32, Aperture)>,
    unit: Unit,
    /// In thousandths.
    scale: u32,
    draw_state: InterpolationMode,
    position: Point,
    selected_aperture: Option<usize>,
    primitives: Vec<Primitive>,
    current_path: Vec<FinePoint>,
    bbox: BoundingBox,
    diagnostics: Vec<Diagnostic>,
}

impl View for Gerber2SVG {
    type V = PlotModel;

    closed spec fn view(&self) -> PlotModel {
        PlotModel {
            position: self.position,
            mode: self.draw_state,
            selected: match self.selected_aperture {
                Some(k) => Some(k as int),
                None => None,
            },
            shapes: shapes_of(self.primitives@),
            path: self.current_path@,
            bbox: self.bbox,
            diagnostics: self.diagnostics@,
        }
    }
}

impl Gerber2SVG {
    pub closed spec fn wf(&self) -> bool {
        &&& box_fits(self.bbox)
        &&& ids_unique(self.apertures@)
        &&& self.selected_aperture matches Some(k) ==> k < self.apertures@.len()
    }

    pub closed spec fn spec_commands(&self) -> Seq<Result<Command, String>> {
        self.commands@
    }

    pub closed spec fn spec_apertures(&self) -> Seq<(i32, Aperture)> {
        self.apertures@
    }

    pub closed spec fn spec_scale(&self) -> u32 {
        self.scale
    }

    pub closed spec fn spec_unit(&self) -> Unit {
        self.unit
    }

    /// A plotter at its start for a layer that declares its unit and coordinate format.
    pub fn from_gerber_doc(gerber_doc: LayerDoc) -> (r: Result<Self, ImportError>)
        requires
            ids_unique(gerber_doc.apertures@),
        ensures
            gerber_doc.format_specification is None ==> r matches Err(
                ImportError::MissingCoordinatesFormat,
            ),
            gerber_doc.format_specification is Some && gerber_doc.units is None ==> r matches Err(
                ImportError::MissingUnit,
            ),
            gerber_doc.format_specification is Some && gerber_doc.units is Some ==> (r matches Ok(g)
                && g.wf() && g@ == initial_model() && g.spec_commands() == gerber_doc.commands@
                && g.spec_apertures() == gerber_doc.apertures@ && g.spec_scale() == 1000
                && Some(g.spec_unit()) == gerber_doc.units),
    {
        if gerber_doc.format_specification.is_none() {
            return Err(ImportError::MissingCoordinatesFormat);
        }
        let unit = match gerber_doc.units {
            Some(u) => u,
            None => {
                return Err(ImportError::MissingUnit);
            },
        };
        let r = Gerber2SVG {
            commands: gerber_doc.commands,
            apertures: gerber_doc.apertures,
            unit,
            scale: SCALE_ONE,
            draw_state: InterpolationMode::Linear,
            position: Point::new(0, 0),
            selected_aperture: None,
            primitives: Vec::new(),
            current_path: Vec::new(),
            bbox: BoundingBox::new(),
            diagnostics: Vec::new(),
        };
        proof {
            assert(shapes_of(r.primitives@) =~= Seq::<Shape>::empty());
            assert(r.current_path@ =~= Seq::<FinePoint>::empty());
            assert(r.diagnostics@ =~= Seq::<Diagnostic>::empty());
            assert(r@ == initial_model());
        }
        Ok(r)
    }

    /// Sets the scale of every rendered dimension, in thousandths; a scale that
    /// is not positive is ignored with a diagnostic.
    pub fn set_scale(self, scale: i32) -> (r: Self)
        requires
            self.wf(),
        ensures
            r.wf(),
            r.spec_scale() == (if scale > 0 { scale as u32 } else { self.spec_scale() }),
            r@ == (if scale > 0 { self@ } else { note(self@, DiagnosticKind::ScaleIgnored, None) }),
            r.spec_commands() == self.spec_commands(),
            r.spec_apertures() == self.spec_apertures(),
            r.spec_unit() == self.spec_unit(),
    {
        let mut s = self;
        if scale > 0 {
            s.scale = scale as u32;
        } else {
            s.diagnostics.push(Diagnostic { kind: DiagnosticKind::ScaleIgnored, command: None });
        }
        s
    }

    /// Same dictionary, unit and scale.
    pub closed spec fn same_setup(&self, other: &Self) -> bool {
        &&& self.apertures@ == other.apertures@
        &&& self.unit == other.unit
        &&& self.scale == other.scale
    }

    fn note(&mut self, kind: DiagnosticKind, command: Option<usize>)
        requires
            old(self).wf(),
        ensures
            final(self)@ == note(old(self)@, kind, command),
            final(self).wf(),
            final(self).same_setup(old(self)),
            final(self).commands@ == old(self).commands@,
    {
        self.diagnostics.push(Diagnostic { kind, command });
    }

    fn move_position(&mut self, target: Point)
        requires
            old(self).wf(),
        ensures
            final(self)@ == moved(old(self)@, target),
            final(self).wf(),
            final(self).same_setup(old(self)),
            final(self).commands@ == old(self).commands@,
    {
        self.position = target;
    }

    /// Adds a line to `target` to the path, padded by `half` in the bounding box.
    fn add_draw_segment(&mut self, target: Point, half: i128)
        requires
            old(self).wf(),
            0 <= half <= 0x4_0000_0000_0000_0000_0000_0000,
        ensures
            final(self)@ == append(old(self)@, target, half as int),
            final(self).wf(),
            final(self).same_setup(old(self)),
            final(self).commands@ == old(self).commands@,
    {
        let t = target.to_fine();
        if self.current_path.len() == 0 {
            let s = self.position.to_fine();
            self.current_path.push(s);
            self.bbox.expand(s.x, s.y, half, half);
            proof {
                assert(self.current_path@.push(t) =~= seq![s, t]);
            }
        }
        self.current_path.push(t);
        self.bbox.expand(t.x, t.y, half, half);
    }

    /// Arcs are not drawn: the segment is reported and left out.
    fn add_arc_segment(&mut self, command: Option<usize>)
        requires
            old(self).wf(),
        ensures
            final(self)@ == note(old(self)@, DiagnosticKind::ArcUnsupported, command),
            final(self).wf(),
            final(self).same_setup(old(self)),
            final(self).commands@ == old(self).commands@,
    {
        self.note(DiagnosticKind::ArcUnsupported, command);
    }

    /// Ends the path being drawn, emitting it as one polyline; `command` is
    /// the index a diagnostic names, if one is raised.
    pub fn create_path_from_data(&mut self, command: Option<usize>)
        requires
            old(self).wf(),
        ensures
            final(self)@ == flush(
                old(self)@,
                old(self).spec_apertures(),
                old(self).spec_scale(),
                command,
            ),
            final(self).wf(),
            final(self).same_setup(old(self)),
            final(self).spec_apertures() == old(self).spec_apertures(),
            final(self).spec_scale() == old(self).spec_scale(),
            final(self).spec_unit() == old(self).spec_unit(),
            final(self).spec_commands() == old(self).spec_commands(),
    {
        if self.current_path.len() == 0 {
            return;
        }
        let (stroke, strokes) = match self.selected_aperture {
            Some(k) => {
                let a = &self.apertures[k].1;
                let circle = match a {
                    Aperture::Circle { .. } => true,
                    _ => false,
                };
                (2 * path_half_stroke(a, self.scale), circle)
            },
            None => (0, false),
        };
        let mut points: Vec<FinePoint> = Vec::new();
        std::mem::swap(&mut points, &mut self.current_path);
        let p = Primitive::OpenPolyline { points, stroke_width: stroke };
        proof {
            lemma_shapes_push(self.primitives@, p);
        }
        self.primitives.push(p);
        if !strokes {
            self.note(DiagnosticKind::UnsupportedStrokeAperture, command);
        }
    }

    /// Stamps aperture number `k` of the dictionary at `target`; the plotter's
    /// position is left as it was.
    pub fn place_aperture(&mut self, target: Point, k: usize, command: Option<usize>)
        requires
            old(self).wf(),
            k < old(self).spec_apertures().len(),
        ensures
            final(self)@ == flash(
                old(self)@,
                target,
                old(self).spec_apertures()[k as int].1,
                old(self).spec_scale(),
                command,
            ),
            final(self).wf(),
            final(self).same_setup(old(self)),
            final(self).spec_apertures() == old(self).spec_apertures(),
            final(self).spec_scale() == old(self).spec_scale(),
            final(self).spec_unit() == old(self).spec_unit(),
            final(self).spec_commands() == old(self).spec_commands(),
    {
        let t = target.to_fine();
        let scale = self.scale;
        match &self.apertures[k].1 {
            Aperture::Circle { diameter } => {
                let r = 2 * mul_dim(*diameter, scale);
                let p = Primitive::FilledCircle { center: t, radius: r };
                proof {
                    lemma_shapes_push(self.primitives@, p);
                }
                self.primitives.push(p);
                self.bbox.expand(t.x, t.y, r, r);
            },
            Aperture::Rectangle { width, height } => {
                let hw = 2 * mul_dim(*width, scale);
                let hh = 2 * mul_dim(*height, scale);
                let p = Primitive::FilledRectangle {
                    origin: FinePoint { x: t.x - hw, y: t.y - hh },
                    width: 2 * hw,
                    height: 2 * hh,
                };
                proof {
                    lemma_shapes_push(self.primitives@, p);
                }
                self.primitives.push(p);
                self.bbox.expand(t.x, t.y, hw, hh);
            },
            _ => {
                self.diagnostics.push(
                    Diagnostic { kind: DiagnosticKind::UnsupportedAperture, command },
                );
            },
        }
    }

    /// Carries out command number `index`.
    fn apply(&mut self, cmd: &Result<Command, String>, index: usize) -> (r: Result<(), BuildError>)
        requires
            old(self).wf(),
        ensures
            final(self).same_setup(old(self)),
            final(self).commands@ == old(self).commands@,
            match step(old(self)@, *cmd, index as int, old(self).apertures@, old(self).scale) {
                Ok(m) => r is Ok && final(self)@ == m && final(self).wf(),
                Err(e) => r == Err::<(), BuildError>(e),
            },
    {
        let here = Some(index);
        let command = match cmd {
            Ok(c) => c,
            Err(_) => {
                return Ok(());
            },
        };
        match command {
            Command::Interpolate { coordinates, offset } => {
                let coord = match coordinates {
                    Some(c) => *c,
                    None => {
                        self.note(DiagnosticKind::InterpolateWithoutCoordinates, here);
                        return Ok(());
                    },
                };
                let target = Point::from_coordinates(coord, &self.position);
                if self.draw_state == InterpolationMode::Linear {
                    let k = match self.selected_aperture {
                        Some(k) => k,
                        None => {
                            return Err(BuildError::NoApertureSelected);
                        },
                    };
                    let half = path_half_stroke(&self.apertures[k].1, self.scale);
                    self.add_draw_segment(target, half);
                } else {
                    if offset.is_none() {
                        self.note(DiagnosticKind::MissingArcOffset, here);
                        return Ok(());
                    }
                    self.add_arc_segment(here);
                }
                self.move_position(target);
            },
            Command::Move(m) => {
                let coord = match m {
                    Some(c) => *c,
                    None => {
                        self.note(DiagnosticKind::MoveWithoutCoordinates, here);
                        return Ok(());
                    },
                };
                let target = Point::from_coordinates(coord, &self.position);
                self.create_path_from_data(here);
                self.move_position(target);
            },
            Command::Flash(f) => {
                let target = Point::from_option_coordinates(*f, &self.position);
                let k = match self.selected_aperture {
                    Some(k) => k,
                    None => {
                        return Err(BuildError::NoApertureSelected);
                    },
                };
                self.create_path_from_data(here);
                self.place_aperture(target, k, here);
                self.move_position(target);
            },
            Command::SelectAperture(id) => {
                let k = match find_aperture(&self.apertures, *id) {
                    Some(k) => k,
                    None => {
                        return Err(BuildError::UnknownApertureId(*id));
                    },
                };
                self.create_path_from_data(here);
                self.selected_aperture = Some(k);
            },
            Command::InterpolationMode(mode) => {
                self.draw_state = *mode;
            },
            Command::Comment(_) => {
                self.note(DiagnosticKind::Comment, here);
            },
            Command::UnsupportedGCode => {
                self.note(DiagnosticKind::UnsupportedGCode, here);
            },
            Command::MCode => {},
            Command::ExtendedCode => {},
        }
        Ok(())
    }

    /// Walks the whole command stream once, then ends the path still being drawn.
    ///
    /// Stops with an error at a flash or a line with no aperture selected, or
    /// at the selection of an aperture that the dictionary does not hold.
    pub fn build(self) -> (r: Result<Self, BuildError>)
        requires
            self.wf(),
        ensures
            match walk(self@, self.spec_commands(), self.spec_apertures(), self.spec_scale()) {
                Ok(m) => (r matches Ok(b) && b@ == m && b.wf() && b.same_setup(&self)
                    && b.spec_commands() == self.spec_commands() && b.spec_unit()
                    == self.spec_unit() && b.spec_scale() == self.spec_scale()
                    && b.spec_apertures() == self.spec_apertures()),
                Err(e) => (r matches Err(f) && f == e),
            },
    {
        let ghost start = self@;
        let ghost cmds = self.commands@;
        let mut s = self;
        let mut commands: Vec<Result<Command, String>> = Vec::new();
        std::mem::swap(&mut commands, &mut s.commands);
        let mut i: usize = 0;
        proof {
            assert(cmds.take(0) =~= Seq::<Result<Command, String>>::empty());
        }
        while i < commands.len()
            invariant
                s.wf(),
                s.same_setup(&self),
                commands@ == cmds,
                cmds == self.commands@,
                start == self@,
                i <= commands@.len(),
                run(start, cmds.take(i as int), s.apertures@, s.scale) == Ok::<
                    PlotModel,
                    BuildError,
                >(s@),
            decreases commands@.len() - i,
        {
            let r = s.apply(&commands[i], i);
            proof {
                assert(cmds.take(i + 1).drop_last() =~= cmds.take(i as int));
                assert(cmds.take(i + 1).last() == cmds[i as int]);
            }
            match r {
                Err(e) => {
                    proof {
                        lemma_run_err_prefix(start, cmds, i + 1, s.apertures@, s.scale);
                    }
                    return Err(e);
                },
                Ok(()) => {},
            }
            i = i + 1;
        }
        proof {
            assert(cmds.take(i as int) =~= cmds);
        }
        s.create_path_from_data(None);
        std::mem::swap(&mut commands, &mut s.commands);
        Ok(s)
    }

    /// A plotter from the outcome of a parse. A failed parse that recovered no
    /// command is a `ParseError`; one that recovered some gives a plotter over
    /// what was recovered, inside `NonFatalError` with the parse's message.
    pub fn from_parse_result(parsed: Result<LayerDoc, (LayerDoc, String)>) -> (r: Result<
        Self,
        ImportError,
    >)
        requires
            match parsed {
                Ok(doc) => ids_unique(doc.apertures@),
                Err((doc, _)) => ids_unique(doc.apertures@),
            },
        ensures
            match parsed {
                Ok(doc) => (doc.format_specification is None ==> r matches Err(
                    ImportError::MissingCoordinatesFormat,
                )) && (doc.format_specification is Some && doc.units is None ==> r matches Err(
                    ImportError::MissingUnit,
                )) && (doc.format_specification is Some && doc.units is Some ==> (r matches Ok(g)
                    && g.wf() && g@ == initial_model() && g.spec_commands() == doc.commands@
                    && g.spec_apertures() == doc.apertures@ && g.spec_scale() == 1000 && Some(
                    g.spec_unit(),
                ) == doc.units)),
                Err((doc, msg)) => if recovered_nothing(doc.commands@) {
                    r matches Err(ImportError::ParseError(m)) && m == msg
                } else {
                    (doc.format_specification is None ==> r matches Err(
                        ImportError::MissingCoordinatesFormat,
                    )) && (doc.format_specification is Some && doc.units is None ==> r matches Err(
                        ImportError::MissingUnit,
                    )) && (doc.format_specification is Some && doc.units is Some ==> (r matches Err(
                        ImportError::NonFatalError(g, m),
                    ) && m == msg && g.wf() && g@ == initial_model() && g.spec_commands()
                        == doc.commands@ && g.spec_apertures() == doc.apertures@ && g.spec_scale()
                        == 1000 && Some(g.spec_unit()) == doc.units))
                },
            },
    {
        match parsed {
            Ok(doc) => Self::from_gerber_doc(doc),
            Err((doc, msg)) => {
                if !any_parsed(&doc.commands) {
                    Err(ImportError::ParseError(msg))
                } else {
                    match Self::from_gerber_doc(doc) {
                        Ok(g) => Err(ImportError::NonFatalError(g, msg)),
                        Err(e) => Err(e),
                    }
                }
            },
        }
    }

    /// The primitives emitted so far, in order.
    pub fn primitives(&self) -> (r: &Vec<Primitive>)
        ensures
            shapes_of(r@) == self@.shapes,
    {
        &self.primitives
    }

    pub fn diagnostics(&self) -> (r: &Vec<Diagnostic>)
        ensures
            r@ == self@.diagnostics,
    {
        &self.diagnostics
    }

    pub fn bounding_box(&self) -> (r: BoundingBox)
        ensures
            r == self@.bbox,
    {
        self.bbox
    }

    pub fn position(&self) -> (r: Point)
        ensures
            r == self@.position,
    {
        self.position
    }

    /// The scale, in thousandths.
    pub fn scale(&self) -> (r: u32)
        ensures
            r == self.spec_scale(),
    {
        self.scale
    }

    pub fn unit(&self) -> (r: Unit)
        ensures
            r == self.spec_unit(),
    {
        self.unit
    }

    /// The area the drawing is shown in: cropped to the bounding box, or from the origin.
    pub fn viewport(&self, crop: bool) -> (r: Viewport)
        requires
            self.wf(),
        ensures
            r == viewport_of(self@.bbox, crop),
    {
        let b = self.bbox;
        if b.empty {
            Viewport { origin_x: 0, origin_y: 0, width: 0, height: 0 }
        } else if crop {
            Viewport {
                origin_x: b.min_x,
                origin_y: b.min_y,
                width: b.max_x - b.min_x,
                height: b.max_y - b.min_y,
            }
        } else {
            Viewport { origin_x: 0, origin_y: 0, width: b.max_x, height: b.max_y }
        }
    }

    /// The finished drawing: the primitives, the viewport and the unit.
    pub fn render(self, crop: bool) -> (r: Document)
        requires
            self.wf(),
        ensures
            shapes_of(r.primitives@) == self@.shapes,
            r.viewport == viewport_of(self@.bbox, crop),
            r.unit == self.spec_unit(),
    {
        let viewport = self.viewport(crop);
        Document { primitives: self.primitives, viewport, unit: self.unit }
    }
}

} // verus!

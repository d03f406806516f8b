use vstd::prelude::*;

use crate::aperture::{aperture_index, half_stroke, lemma_dim_product_bound, Aperture};
use crate::bbox::{box_covers, box_fits, box_holds, expanded, lemma_expanded, BoundingBox};
use crate::command::{Command, InterpolationMode};
use crate::diagnostics::DiagnosticKind;
use crate::document::Shape;
use crate::error::BuildError;
use crate::geometry::{
    fine_point, lemma_fine_point_fits, resolve, resolve_opt, Coordinates, FinePoint, Point,
};
use crate::model::{
    append, flash, flush, initial_model, note, run, selected_aperture, step, stroke_opt, walk,
    PlotModel,
};

verus! {

/// Ending a path when none is being drawn emits nothing and leaves the
/// bounding box (and everything else) as it was.
pub proof fn law_flush_empty_path(
    m: PlotModel,
    apertures: Seq<(i32, Aperture)>,
    scale: u32,
    command: Option<usize>,
)
    requires
        m.path.len() == 0,
    ensures
        flush(m, apertures, scale, command) == m,
{
}

/// A line command without coordinates changes nothing but the diagnostics,
/// which gain exactly one entry that names it.
pub proof fn law_interpolate_without_coordinates(
    m: PlotModel,
    offset: Option<Coordinates>,
    index: int,
    apertures: Seq<(i32, Aperture)>,
    scale: u32,
)
    ensures
        step(
            m,
            Ok(Command::Interpolate { coordinates: None, offset }),
            index,
            apertures,
            scale,
        ) matches Ok(r) && r.position == m.position && r.mode == m.mode && r.selected
            == m.selected && r.shapes == m.shapes && r.path == m.path && r.bbox == m.bbox
            && r.diagnostics.drop_last() == m.diagnostics && r.diagnostics.len()
            == m.diagnostics.len() + 1 && r.diagnostics.last().kind
            == DiagnosticKind::InterpolateWithoutCoordinates,
{
    let r = step(
        m,
        Ok(Command::Interpolate { coordinates: None, offset }),
        index,
        apertures,
        scale,
    );
    assert(r matches Ok(p) && p.diagnostics.drop_last() =~= m.diagnostics);
}

/// Doubling the scale doubles the radius of a stamped circle and keeps its centre,
/// which is the target whatever the scale.
pub proof fn law_scale_doubles_circle(m: PlotModel, target: Point, diameter: u64, s: u32)
    requires
        0 < s,
        2 * s <= u32::MAX,
    ensures
        flash(m, target, Aperture::Circle { diameter }, s, None).shapes.last() matches Shape::Circle {
            center: c1,
            radius: r1,
        } && flash(m, target, Aperture::Circle { diameter }, (2 * s) as u32, None).shapes.last() matches Shape::Circle {
            center: c2,
            radius: r2,
        } && r2 == 2 * r1 && c1 == fine_point(target) && c2 == fine_point(target),
        flash(m, target, Aperture::Circle { diameter }, s, None).position == m.position,
        flash(m, target, Aperture::Circle { diameter }, (2 * s) as u32, None).position == m.position,
{
    assert((diameter as int) * ((2 * s) as int) == 2 * ((diameter as int) * (s as int)))
        by (nonlinear_arith);
}

/// Doubling the scale doubles the width and height of a stamped rectangle and
/// keeps its centre, which is the target whatever the scale.
pub proof fn law_scale_doubles_rectangle(
    m: PlotModel,
    target: Point,
    width: u64,
    height: u64,
    s: u32,
)
    requires
        0 < s,
        2 * s <= u32::MAX,
    ensures
        flash(m, target, Aperture::Rectangle { width, height }, s, None).shapes.last() matches Shape::Rect {
            origin: o1,
            width: w1,
            height: h1,
        } && flash(
            m,
            target,
            Aperture::Rectangle { width, height },
            (2 * s) as u32,
            None,
        ).shapes.last() matches Shape::Rect { origin: o2, width: w2, height: h2 } && w2 == 2 * w1
            && h2 == 2 * h1 && o1.x + w1 / 2 == fine_point(target).x && o1.y + h1 / 2
            == fine_point(target).y && o2.x + w2 / 2 == fine_point(target).x && o2.y + h2 / 2
            == fine_point(target).y,
        flash(m, target, Aperture::Rectangle { width, height }, s, None).position == m.position,
        flash(m, target, Aperture::Rectangle { width, height }, (2 * s) as u32, None).position
            == m.position,
{
    assert((width as int) * ((2 * s) as int) == 2 * ((width as int) * (s as int)))
        by (nonlinear_arith);
    assert((height as int) * ((2 * s) as int) == 2 * ((height as int) * (s as int)))
        by (nonlinear_arith);
    assert(0 <= (width as int) * (s as int) <= 0x1_0000_0000_0000_0000_0000_0000)
        by (nonlinear_arith)
        requires
            0 <= width <= 0xffff_ffff_ffff_ffff,
            0 <= s <= 0xffff_ffff,
    ;
    assert(0 <= (height as int) * (s as int) <= 0x1_0000_0000_0000_0000_0000_0000)
        by (nonlinear_arith)
        requires
            0 <= height <= 0xffff_ffff_ffff_ffff,
            0 <= s <= 0xffff_ffff,
    ;
    assert(0 <= (width as int) * ((2 * s) as int) <= 0x2_0000_0000_0000_0000_0000_0000);
    assert(0 <= (height as int) * ((2 * s) as int) <= 0x2_0000_0000_0000_0000_0000_0000);
}

/// Two plotter states that agree on everything but their diagnostics.
pub open spec fn same_geometry(a: PlotModel, b: PlotModel) -> bool {
    &&& a.position == b.position
    &&& a.mode == b.mode
    &&& a.selected == b.selected
    &&& a.shapes == b.shapes
    &&& a.path == b.path
    &&& a.bbox == b.bbox
}

/// Two outcomes of a walk that fail alike, or succeed with the same geometry.
pub open spec fn same_outcome(
    a: Result<PlotModel, BuildError>,
    b: Result<PlotModel, BuildError>,
) -> bool {
    match (a, b) {
        (Ok(x), Ok(y)) => same_geometry(x, y),
        (Err(e), Err(f)) => e == f,
        _ => false,
    }
}

/// The commands that parsed, in order.
pub open spec fn parsed_only(cmds: Seq<Result<Command, String>>) -> Seq<Result<Command, String>> {
    cmds.filter(|c: Result<Command, String>| c is Ok)
}

proof fn lemma_step_same_geometry(
    a: PlotModel,
    b: PlotModel,
    c: Result<Command, String>,
    i: int,
    j: int,
    apertures: Seq<(i32, Aperture)>,
    scale: u32,
)
    requires
        same_geometry(a, b),
    ensures
        same_outcome(step(a, c, i, apertures, scale), step(b, c, j, apertures, scale)),
{
}

#[verifier::rlimit(60)]
proof fn lemma_run_skips_unparsed(
    m: PlotModel,
    cmds: Seq<Result<Command, String>>,
    apertures: Seq<(i32, Aperture)>,
    scale: u32,
)
    ensures
        same_outcome(
            run(m, cmds, apertures, scale),
            run(m, parsed_only(cmds), apertures, scale),
        ),
    decreases cmds.len(),
{
    if cmds.len() > 0 {
        lemma_run_skips_unparsed(m, cmds.drop_last(), apertures, scale);
        let sub = parsed_only(cmds.drop_last());
        reveal(Seq::filter);
        assert(parsed_only(cmds) == (if cmds.last() is Ok {
            sub.push(cmds.last())
        } else {
            sub
        }));
        if cmds.last() is Ok {
            assert(sub.push(cmds.last()).drop_last() =~= sub);
            match (run(m, cmds.drop_last(), apertures, scale), run(m, sub, apertures, scale)) {
                (Ok(x), Ok(y)) => {
                    lemma_step_same_geometry(
                        x,
                        y,
                        cmds.last(),
                        cmds.len() - 1,
                        sub.len() as int,
                        apertures,
                        scale,
                    );
                },
                _ => {},
            }
        }
    }
}

/// Commands that failed to parse are skipped: walking a layer draws exactly
/// what walking only its parsed commands draws, and fails exactly as that does.
pub proof fn law_unparsed_commands_skipped(
    m: PlotModel,
    cmds: Seq<Result<Command, String>>,
    apertures: Seq<(i32, Aperture)>,
    scale: u32,
)
    ensures
        same_outcome(
            walk(m, cmds, apertures, scale),
            walk(m, parsed_only(cmds), apertures, scale),
        ),
{
    lemma_run_skips_unparsed(m, cmds, apertures, scale);
}

/// Does `b` reach at least to each of the four edges?
pub open spec fn edges_held(b: BoundingBox, left: int, right: int, bottom: int, top: int) -> bool {
    &&& !b.empty
    &&& b.min_x <= left
    &&& right <= b.max_x
    &&& b.min_y <= bottom
    &&& top <= b.max_y
}

pub open spec fn point_held(b: BoundingBox, p: FinePoint, half: int) -> bool {
    box_holds(b, p.x as int, p.y as int, half, half)
}

/// Does `b` hold the whole silhouette of `s`: each vertex of a polyline padded
/// by half its stroke, a circle's disc, a rectangle's area?
pub open spec fn shape_held(b: BoundingBox, s: Shape) -> bool {
    match s {
        Shape::Polyline { points, stroke } => forall|j: int|
            0 <= j < points.len() ==> point_held(b, #[trigger] points[j], stroke / 2),
        Shape::Circle { center, radius } => edges_held(
            b,
            center.x - radius,
            center.x + radius,
            center.y - radius,
            center.y + radius,
        ),
        Shape::Rect { origin, width, height } => edges_held(
            b,
            origin.x as int,
            origin.x + width,
            origin.y as int,
            origin.y + height,
        ),
    }
}

/// The box holds every emitted primitive, and the path being drawn with the
/// stroke it will be given.
pub open spec fn all_held(m: PlotModel, apertures: Seq<(i32, Aperture)>, scale: u32) -> bool {
    &&& box_fits(m.bbox)
    &&& forall|i: int| 0 <= i < m.shapes.len() ==> shape_held(m.bbox, #[trigger] m.shapes[i])
    &&& m.path.len() > 0 ==> m.selected is Some
    &&& m.path.len() > 0 ==> forall|j: int|
        0 <= j < m.path.len() ==> point_held(
            m.bbox,
            #[trigger] m.path[j],
            half_stroke(apertures[m.selected->0].1, scale),
        )
}

proof fn lemma_shape_held_grows(a: BoundingBox, b: BoundingBox, s: Shape)
    requires
        shape_held(a, s),
        box_covers(b, a),
    ensures
        shape_held(b, s),
{
    match s {
        Shape::Polyline { points, stroke } => {
            assert forall|j: int| 0 <= j < points.len() implies point_held(
                b,
                #[trigger] points[j],
                stroke / 2,
            ) by {
                assert(point_held(a, points[j], stroke / 2));
            }
        },
        _ => {},
    }
}

proof fn lemma_held_grows(
    m: PlotModel,
    b: BoundingBox,
    apertures: Seq<(i32, Aperture)>,
    scale: u32,
)
    requires
        all_held(m, apertures, scale),
        box_covers(b, m.bbox),
        box_fits(b),
    ensures
        all_held(PlotModel { bbox: b, ..m }, apertures, scale),
{
    assert forall|i: int| 0 <= i < m.shapes.len() implies shape_held(b, #[trigger] m.shapes[i]) by {
        lemma_shape_held_grows(m.bbox, b, m.shapes[i]);
    }
    if m.path.len() > 0 {
        let h = half_stroke(apertures[m.selected->0].1, scale);
        assert forall|j: int| 0 <= j < m.path.len() implies point_held(b, #[trigger] m.path[j], h) by {
            assert(point_held(m.bbox, m.path[j], h));
        }
    }
}

proof fn lemma_half_stroke_bound(a: Aperture, scale: u32)
    ensures
        0 <= half_stroke(a, scale) <= 0x4_0000_0000_0000_0000_0000_0000,
{
    if let Aperture::Circle { diameter } = a {
        lemma_dim_product_bound(diameter, scale);
    }
}

proof fn lemma_append_held(
    m: PlotModel,
    target: Point,
    apertures: Seq<(i32, Aperture)>,
    scale: u32,
)
    requires
        all_held(m, apertures, scale),
        m.selected is Some,
    ensures
        all_held(
            append(m, target, half_stroke(apertures[m.selected->0].1, scale)),
            apertures,
            scale,
        ),
{
    let h = half_stroke(apertures[m.selected->0].1, scale);
    lemma_half_stroke_bound(apertures[m.selected->0].1, scale);
    lemma_fine_point_fits(target);
    lemma_fine_point_fits(m.position);
    let t = fine_point(target);
    let r = append(m, target, h);
    if m.path.len() == 0 {
        let s = fine_point(m.position);
        let b1 = expanded(m.bbox, s.x as int, s.y as int, h, h);
        lemma_expanded(m.bbox, s.x as int, s.y as int, h, h);
        lemma_expanded(b1, t.x as int, t.y as int, h, h);
        lemma_held_grows(m, r.bbox, apertures, scale);
        assert(point_held(b1, s, h));
        assert(point_held(r.bbox, s, h));
        assert(point_held(r.bbox, t, h));
        assert forall|j: int| 0 <= j < r.path.len() implies point_held(r.bbox, #[trigger] r.path[j], h) by {
            if j == 0 {
                assert(r.path[j] == s);
            } else {
                assert(r.path[j] == t);
            }
        }
    } else {
        lemma_expanded(m.bbox, t.x as int, t.y as int, h, h);
        lemma_held_grows(m, r.bbox, apertures, scale);
        let g = PlotModel { bbox: r.bbox, ..m };
        assert forall|j: int| 0 <= j < r.path.len() implies point_held(r.bbox, #[trigger] r.path[j], h) by {
            if j < m.path.len() {
                assert(r.path[j] == g.path[j]);
            } else {
                assert(r.path[j] == t);
            }
        }
    }
}

proof fn lemma_flush_held(
    m: PlotModel,
    apertures: Seq<(i32, Aperture)>,
    scale: u32,
    command: Option<usize>,
)
    requires
        all_held(m, apertures, scale),
    ensures
        all_held(flush(m, apertures, scale, command), apertures, scale),
        flush(m, apertures, scale, command).path.len() == 0,
{
    let r = flush(m, apertures, scale, command);
    if m.path.len() > 0 {
        let h = half_stroke(apertures[m.selected->0].1, scale);
        let p = Shape::Polyline { points: m.path, stroke: 2 * h };
        assert(r.shapes == m.shapes.push(p));
        assert(shape_held(m.bbox, p)) by {
            assert forall|j: int| 0 <= j < m.path.len() implies point_held(
                m.bbox,
                #[trigger] m.path[j],
                (2 * h) / 2,
            ) by {
                assert(point_held(m.bbox, m.path[j], h));
            }
        }
        assert forall|i: int| 0 <= i < r.shapes.len() implies shape_held(r.bbox, #[trigger] r.shapes[i]) by {
            if i < m.shapes.len() {
                assert(r.shapes[i] == m.shapes[i]);
            }
        }
    }
}

proof fn lemma_flash_held(
    m: PlotModel,
    target: Point,
    a: Aperture,
    apertures: Seq<(i32, Aperture)>,
    scale: u32,
    command: Option<usize>,
)
    requires
        all_held(m, apertures, scale),
    ensures
        all_held(flash(m, target, a, scale, command), apertures, scale),
{
    lemma_fine_point_fits(target);
    let t = fine_point(target);
    let r = flash(m, target, a, scale, command);
    match a {
        Aperture::Circle { diameter } => {
            lemma_dim_product_bound(diameter, scale);
            let rad = 2 * ((diameter as int) * (scale as int));
            lemma_expanded(m.bbox, t.x as int, t.y as int, rad, rad);
            lemma_held_grows(m, r.bbox, apertures, scale);
            assert forall|i: int| 0 <= i < r.shapes.len() implies shape_held(
                r.bbox,
                #[trigger] r.shapes[i],
            ) by {
                if i < m.shapes.len() {
                    assert(r.shapes[i] == m.shapes[i]);
                    assert(shape_held(r.bbox, m.shapes[i]));
                }
            }
        },
        Aperture::Rectangle { width, height } => {
            lemma_dim_product_bound(width, scale);
            lemma_dim_product_bound(height, scale);
            let hw = 2 * ((width as int) * (scale as int));
            let hh = 2 * ((height as int) * (scale as int));
            lemma_expanded(m.bbox, t.x as int, t.y as int, hw, hh);
            lemma_held_grows(m, r.bbox, apertures, scale);
            assert forall|i: int| 0 <= i < r.shapes.len() implies shape_held(
                r.bbox,
                #[trigger] r.shapes[i],
            ) by {
                if i < m.shapes.len() {
                    assert(r.shapes[i] == m.shapes[i]);
                    assert(shape_held(r.bbox, m.shapes[i]));
                }
            }
        },
        _ => {},
    }
}

proof fn lemma_step_held(
    m: PlotModel,
    c: Result<Command, String>,
    index: int,
    apertures: Seq<(i32, Aperture)>,
    scale: u32,
)
    requires
        all_held(m, apertures, scale),
    ensures
        step(m, c, index, apertures, scale) matches Ok(r) ==> all_held(r, apertures, scale),
{
    let here = Some(index as usize);
    if let Ok(cmd) = c {
        match cmd {
            Command::Interpolate { coordinates, offset } => {
                if m.selected is Some {
                    if let Some(co) = coordinates {
                        lemma_append_held(m, resolve(co, m.position), apertures, scale);
                    }
                }
            },
            Command::Move(_) => {
                lemma_flush_held(m, apertures, scale, here);
            },
            Command::Flash(f) => {
                lemma_flush_held(m, apertures, scale, here);
                if m.selected is Some {
                    lemma_flash_held(
                        flush(m, apertures, scale, here),
                        resolve_opt(f, m.position),
                        apertures[m.selected->0].1,
                        apertures,
                        scale,
                        here,
                    );
                }
            },
            Command::SelectAperture(_) => {
                lemma_flush_held(m, apertures, scale, here);
            },
            _ => {},
        }
    }
}

proof fn lemma_run_held(
    m: PlotModel,
    cmds: Seq<Result<Command, String>>,
    apertures: Seq<(i32, Aperture)>,
    scale: u32,
)
    requires
        all_held(m, apertures, scale),
    ensures
        run(m, cmds, apertures, scale) matches Ok(r) ==> all_held(r, apertures, scale),
    decreases cmds.len(),
{
    if cmds.len() > 0 {
        lemma_run_held(m, cmds.drop_last(), apertures, scale);
        if let Ok(p) = run(m, cmds.drop_last(), apertures, scale) {
            lemma_step_held(p, cmds.last(), cmds.len() - 1, apertures, scale);
        }
    }
}

/// A plotter at its start holds the containment invariant (nothing is emitted).
pub proof fn lemma_initial_held(apertures: Seq<(i32, Aperture)>, scale: u32)
    ensures
        all_held(initial_model(), apertures, scale),
        all_held(
            note(initial_model(), DiagnosticKind::ScaleIgnored, None),
            apertures,
            scale,
        ),
{
}

/// After a walk the bounding box holds every emitted primitive's silhouette:
/// its left, right, lower and upper edges lie within the box.
pub proof fn law_bbox_holds_every_primitive(
    m: PlotModel,
    cmds: Seq<Result<Command, String>>,
    apertures: Seq<(i32, Aperture)>,
    scale: u32,
)
    requires
        all_held(m, apertures, scale),
    ensures
        walk(m, cmds, apertures, scale) matches Ok(r) ==> (r.path.len() == 0 && forall|i: int|
            0 <= i < r.shapes.len() ==> shape_held(r.bbox, #[trigger] r.shapes[i])),
{
    lemma_run_held(m, cmds, apertures, scale);
    if let Ok(p) = run(m, cmds, apertures, scale) {
        lemma_flush_held(p, apertures, scale, None);
    }
}

/// How many polylines `shapes` holds.
pub open spec fn count_polylines(shapes: Seq<Shape>) -> nat
    decreases shapes.len(),
{
    if shapes.len() == 0 {
        0
    } else {
        count_polylines(shapes.drop_last()) + if shapes.last() is Polyline {
            1nat
        } else {
            0nat
        }
    }
}

/// A line command that names a target.
pub open spec fn draws_line(c: Result<Command, String>) -> bool {
    c matches Ok(Command::Interpolate { coordinates: Some(_), .. })
}

/// A command that ends the path being drawn and goes on: a move to a point,
/// a flash, or the selection of an aperture that the dictionary holds.
pub open spec fn ends_path(c: Result<Command, String>, apertures: Seq<(i32, Aperture)>) -> bool {
    ||| c matches Ok(Command::Move(Some(_)))
    ||| c matches Ok(Command::Flash(_))
    ||| (c matches Ok(Command::SelectAperture(id)) && aperture_index(apertures, id) is Some)
}

proof fn lemma_count_push(shapes: Seq<Shape>, s: Shape)
    ensures
        count_polylines(shapes.push(s)) == count_polylines(shapes) + if s is Polyline {
            1nat
        } else {
            0nat
        },
{
    assert(shapes.push(s).drop_last() =~= shapes);
}

proof fn lemma_lines_extend_path(
    m: PlotModel,
    cmds: Seq<Result<Command, String>>,
    apertures: Seq<(i32, Aperture)>,
    scale: u32,
)
    requires
        m.path.len() == 0,
        m.mode == InterpolationMode::Linear,
        m.selected is Some,
        forall|i: int| 0 <= i < cmds.len() ==> draws_line(#[trigger] cmds[i]),
    ensures
        run(m, cmds, apertures, scale) matches Ok(r) && r.shapes == m.shapes && r.mode == m.mode
            && r.selected == m.selected && r.path.len() == (if cmds.len() == 0 {
            0
        } else {
            cmds.len() + 1
        }),
    decreases cmds.len(),
{
    if cmds.len() > 0 {
        let prefix = cmds.drop_last();
        assert forall|i: int| 0 <= i < prefix.len() implies draws_line(#[trigger] prefix[i]) by {
            assert(prefix[i] == cmds[i]);
        }
        lemma_lines_extend_path(m, prefix, apertures, scale);
        assert(draws_line(cmds[cmds.len() - 1]));
    }
}

/// A maximal run of drawn lines, ended by a move, a flash or an aperture
/// selection, is emitted as exactly one polyline through all its points.
pub proof fn law_one_polyline_per_run(
    m: PlotModel,
    lines: Seq<Result<Command, String>>,
    end: Result<Command, String>,
    apertures: Seq<(i32, Aperture)>,
    scale: u32,
)
    requires
        m.path.len() == 0,
        m.mode == InterpolationMode::Linear,
        m.selected is Some,
        lines.len() >= 1,
        forall|i: int| 0 <= i < lines.len() ==> draws_line(#[trigger] lines[i]),
        ends_path(end, apertures),
    ensures
        run(m, lines.push(end), apertures, scale) matches Ok(r) && r.path.len() == 0
            && r.shapes.len() > m.shapes.len() && r.shapes.take(m.shapes.len() as int) == m.shapes
            && (r.shapes[m.shapes.len() as int] matches Shape::Polyline { points, .. }
            && points.len() == lines.len() + 1) && count_polylines(r.shapes) == count_polylines(
            m.shapes,
        ) + 1,
{
    lemma_lines_extend_path(m, lines, apertures, scale);
    let all = lines.push(end);
    assert(all.drop_last() =~= lines);
    let p = run(m, lines, apertures, scale)->Ok_0;
    let here = Some(lines.len() as usize);
    let f = flush(p, apertures, scale, here);
    let poly = Shape::Polyline {
        points: p.path,
        stroke: stroke_opt(selected_aperture(p, apertures), scale),
    };
    assert(f.shapes == m.shapes.push(poly));
    lemma_count_push(m.shapes, poly);
    assert(f.shapes.take(m.shapes.len() as int) =~= m.shapes);
    if let Ok(Command::Flash(c)) = end {
        let target = resolve_opt(c, p.position);
        let a = apertures[p.selected->0].1;
        let g = flash(f, target, a, scale, here);
        match a {
            Aperture::Circle { .. } => {
                let s = g.shapes.last();
                assert(g.shapes == f.shapes.push(s));
                lemma_count_push(f.shapes, s);
                assert(g.shapes.take(m.shapes.len() as int) =~= m.shapes);
            },
            Aperture::Rectangle { .. } => {
                let s = g.shapes.last();
                assert(g.shapes == f.shapes.push(s));
                lemma_count_push(f.shapes, s);
                assert(g.shapes.take(m.shapes.len() as int) =~= m.shapes);
            },
            _ => {},
        }
    }
}

/// Runs of drawn lines in a stream, counted from the commands alone: the
/// interpolation mode, whether a run is going on, and how many have begun.
pub struct RunCount {
    pub mode: InterpolationMode,
    pub open: bool,
    pub runs: nat,
}

/// A line drawn in linear mode begins a run unless one is going on; a move to
/// a point, a flash or an aperture selection ends it.
pub open spec fn count_step(t: RunCount, c: Result<Command, String>) -> RunCount {
    match c {
        Ok(Command::Interpolate { coordinates: Some(_), .. }) => if t.mode
            == InterpolationMode::Linear && !t.open {
            RunCount { open: true, runs: t.runs + 1, ..t }
        } else {
            t
        },
        Ok(Command::Move(Some(_))) => RunCount { open: false, ..t },
        Ok(Command::Flash(_)) => RunCount { open: false, ..t },
        Ok(Command::SelectAperture(_)) => RunCount { open: false, ..t },
        Ok(Command::InterpolationMode(md)) => RunCount { mode: md, ..t },
        _ => t,
    }
}

pub open spec fn count_runs(t: RunCount, cmds: Seq<Result<Command, String>>) -> RunCount
    decreases cmds.len(),
{
    if cmds.len() == 0 {
        t
    } else {
        count_step(count_runs(t, cmds.drop_last()), cmds.last())
    }
}

pub open spec fn runs_match(p: PlotModel, t: RunCount, base: nat) -> bool {
    &&& p.mode == t.mode
    &&& (p.path.len() > 0 <==> t.open)
    &&& count_polylines(p.shapes) + (if t.open {
        1nat
    } else {
        0nat
    }) == base + t.runs
}

proof fn lemma_flush_count(
    p: PlotModel,
    apertures: Seq<(i32, Aperture)>,
    scale: u32,
    command: Option<usize>,
)
    ensures
        count_polylines(flush(p, apertures, scale, command).shapes) == count_polylines(p.shapes)
            + (if p.path.len() > 0 {
            1nat
        } else {
            0nat
        }),
        flush(p, apertures, scale, command).path.len() == 0,
        flush(p, apertures, scale, command).mode == p.mode,
{
    if p.path.len() > 0 {
        let poly = Shape::Polyline {
            points: p.path,
            stroke: stroke_opt(selected_aperture(p, apertures), scale),
        };
        lemma_count_push(p.shapes, poly);
    }
}

proof fn lemma_flash_count(
    p: PlotModel,
    target: Point,
    a: Aperture,
    scale: u32,
    command: Option<usize>,
)
    ensures
        count_polylines(flash(p, target, a, scale, command).shapes) == count_polylines(p.shapes),
        flash(p, target, a, scale, command).path == p.path,
        flash(p, target, a, scale, command).mode == p.mode,
{
    let g = flash(p, target, a, scale, command);
    match a {
        Aperture::Circle { .. } => {
            lemma_count_push(p.shapes, g.shapes.last());
        },
        Aperture::Rectangle { .. } => {
            lemma_count_push(p.shapes, g.shapes.last());
        },
        _ => {},
    }
}

proof fn lemma_step_count(
    p: PlotModel,
    t: RunCount,
    base: nat,
    c: Result<Command, String>,
    index: int,
    apertures: Seq<(i32, Aperture)>,
    scale: u32,
)
    requires
        runs_match(p, t, base),
    ensures
        step(p, c, index, apertures, scale) matches Ok(q) ==> runs_match(q, count_step(t, c), base),
{
    let here = Some(index as usize);
    if let Ok(cmd) = c {
        match cmd {
            Command::Move(Some(_)) => {
                lemma_flush_count(p, apertures, scale, here);
            },
            Command::Flash(f) => {
                lemma_flush_count(p, apertures, scale, here);
                if p.selected is Some {
                    lemma_flash_count(
                        flush(p, apertures, scale, here),
                        resolve_opt(f, p.position),
                        apertures[p.selected->0].1,
                        scale,
                        here,
                    );
                }
            },
            Command::SelectAperture(_) => {
                lemma_flush_count(p, apertures, scale, here);
            },
            _ => {},
        }
    }
}

proof fn lemma_run_count(
    m: PlotModel,
    t: RunCount,
    base: nat,
    cmds: Seq<Result<Command, String>>,
    apertures: Seq<(i32, Aperture)>,
    scale: u32,
)
    requires
        runs_match(m, t, base),
    ensures
        run(m, cmds, apertures, scale) matches Ok(r) ==> runs_match(r, count_runs(t, cmds), base),
    decreases cmds.len(),
{
    if cmds.len() > 0 {
        lemma_run_count(m, t, base, cmds.drop_last(), apertures, scale);
        if let Ok(p) = run(m, cmds.drop_last(), apertures, scale) {
            lemma_step_count(
                p,
                count_runs(t, cmds.drop_last()),
                base,
                cmds.last(),
                cmds.len() - 1,
                apertures,
                scale,
            );
        }
    }
}

/// Over a whole stream, a walk emits exactly one polyline for each maximal
/// run of drawn lines, the run still going on at the end included.
pub proof fn law_polylines_count_runs(
    m: PlotModel,
    cmds: Seq<Result<Command, String>>,
    apertures: Seq<(i32, Aperture)>,
    scale: u32,
)
    requires
        m.path.len() == 0,
    ensures
        walk(m, cmds, apertures, scale) matches Ok(r) ==> count_polylines(r.shapes)
            == count_polylines(m.shapes) + count_runs(
            RunCount { mode: m.mode, open: false, runs: 0 },
            cmds,
        ).runs,
{
    let t0 = RunCount { mode: m.mode, open: false, runs: 0 };
    lemma_run_count(m, t0, count_polylines(m.shapes), cmds, apertures, scale);
    if let Ok(p) = run(m, cmds, apertures, scale) {
        lemma_flush_count(p, apertures, scale, None);
    }
}

} // verus!

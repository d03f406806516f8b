use gerber2svg::aperture::Aperture;
use gerber2svg::bbox::BoundingBox;
use gerber2svg::command::{Command, CoordinateFormat, InterpolationMode, LayerDoc, Unit};
use gerber2svg::diagnostics::{Diagnostic, DiagnosticKind, Severity};
use gerber2svg::document::{Primitive, Viewport};
use gerber2svg::error::{BuildError, ImportError};
use gerber2svg::geometry::{Coordinates, FinePoint, Point};
use gerber2svg::plotter::Gerber2SVG;

/// Millionths of a unit per unit.
const MICRO: i64 = 1_000_000;
/// The same, for aperture dimensions.
const DIM: u64 = 1_000_000;
/// Document steps per unit.
const STEPS: i128 = 4_000_000_000;

fn layer(apertures: Vec<(i32, Aperture)>, commands: Vec<Command>) -> LayerDoc {
    LayerDoc {
        units: Some(Unit::Millimeters),
        format_specification: Some(CoordinateFormat { integer: 3, decimal: 6 }),
        apertures,
        commands: commands.into_iter().map(Ok).collect(),
    }
}

fn at(x: i64, y: i64) -> Option<Coordinates> {
    Some(Coordinates { x: Some(x), y: Some(y) })
}

fn line_to(x: i64, y: i64) -> Command {
    Command::Interpolate { coordinates: at(x, y), offset: None }
}

fn plotter(doc: LayerDoc) -> Gerber2SVG {
    match Gerber2SVG::from_gerber_doc(doc) {
        Ok(g) => g,
        Err(_) => panic!("the layer declares its unit and format"),
    }
}

fn built(doc: LayerDoc) -> Gerber2SVG {
    plotter(doc).build().expect("the walk succeeds")
}

fn kinds(g: &Gerber2SVG) -> Vec<DiagnosticKind> {
    g.diagnostics().iter().map(|d| d.kind).collect()
}

fn count_polylines(ps: &[Primitive]) -> usize {
    ps.iter().filter(|p| matches!(p, Primitive::OpenPolyline { .. })).count()
}

#[test]
fn flash_of_a_circle_at_the_origin() {
    let g = built(layer(
        vec![(1, Aperture::Circle { diameter: 2 * DIM })],
        vec![Command::SelectAperture(1), Command::Flash(None)],
    ));
    assert_eq!(
        g.primitives(),
        &vec![Primitive::FilledCircle { center: FinePoint { x: 0, y: 0 }, radius: STEPS }]
    );
    assert_eq!(
        g.bounding_box(),
        BoundingBox { empty: false, min_x: -STEPS, max_x: STEPS, min_y: -STEPS, max_y: STEPS }
    );
}

#[test]
fn line_after_a_move_is_one_polyline() {
    let g = built(layer(
        vec![(2, Aperture::Circle { diameter: DIM / 2 })],
        vec![
            Command::SelectAperture(2),
            Command::Move(at(5 * MICRO, 0)),
            Command::InterpolationMode(InterpolationMode::Linear),
            line_to(5 * MICRO, 5 * MICRO),
        ],
    ));
    assert_eq!(
        g.primitives(),
        &vec![Primitive::OpenPolyline {
            points: vec![FinePoint { x: 5 * STEPS, y: 0 }, FinePoint { x: 5 * STEPS, y: 5 * STEPS }],
            stroke_width: STEPS / 2,
        }]
    );
    let pad = STEPS / 4;
    assert_eq!(
        g.bounding_box(),
        BoundingBox {
            empty: false,
            min_x: 5 * STEPS - pad,
            max_x: 5 * STEPS + pad,
            min_y: -pad,
            max_y: 5 * STEPS + pad,
        }
    );
}

#[test]
fn each_run_of_lines_is_one_polyline() {
    let g = built(layer(
        vec![(1, Aperture::Circle { diameter: DIM }), (2, Aperture::Circle { diameter: 2 * DIM })],
        vec![
            Command::SelectAperture(1),
            line_to(1, 0),
            line_to(2, 0),
            line_to(3, 0),
            Command::Move(at(10, 10)),
            line_to(11, 10),
            line_to(12, 10),
            Command::Flash(None),
            line_to(20, 20),
            Command::SelectAperture(2),
            line_to(30, 30),
        ],
    ));
    let ps = g.primitives();
    assert_eq!(count_polylines(ps), 4);
    match &ps[0] {
        Primitive::OpenPolyline { points, .. } => assert_eq!(points.len(), 4),
        other => panic!("expected a polyline, got {:?}", other),
    }
    match &ps[1] {
        Primitive::OpenPolyline { points, .. } => assert_eq!(points.len(), 3),
        other => panic!("expected a polyline, got {:?}", other),
    }
    assert!(matches!(ps[2], Primitive::FilledCircle { .. }));
    assert_eq!(ps.len(), 5);
}

#[test]
fn ending_no_path_emits_nothing() {
    let g = built(layer(
        vec![(1, Aperture::Circle { diameter: DIM })],
        vec![
            Command::SelectAperture(1),
            Command::Move(at(3, 3)),
            Command::SelectAperture(1),
            Command::Move(at(4, 4)),
        ],
    ));
    assert!(g.primitives().is_empty());
    assert!(g.bounding_box().empty);
    assert_eq!(g.viewport(true), Viewport { origin_x: 0, origin_y: 0, width: 0, height: 0 });
    assert_eq!(g.viewport(false), Viewport { origin_x: 0, origin_y: 0, width: 0, height: 0 });
    assert_eq!(g.position(), Point { x: 4, y: 4 });
}

fn flashed_at(scale: i32, aperture: Aperture) -> Primitive {
    let g = plotter(layer(
        vec![(1, aperture)],
        vec![Command::SelectAperture(1), Command::Flash(at(MICRO, 2 * MICRO))],
    ))
    .set_scale(scale)
    .build()
    .expect("the walk succeeds");
    assert_eq!(g.position(), Point { x: MICRO, y: 2 * MICRO });
    g.primitives()[0].clone()
}

#[test]
fn doubling_the_scale_doubles_a_circle() {
    let c = Aperture::Circle { diameter: 3 * DIM };
    let one = flashed_at(1000, c.clone());
    let two = flashed_at(2000, c);
    let centre = FinePoint { x: STEPS, y: 2 * STEPS };
    assert_eq!(one, Primitive::FilledCircle { center: centre, radius: 3 * STEPS / 2 });
    assert_eq!(two, Primitive::FilledCircle { center: centre, radius: 3 * STEPS });
}

#[test]
fn doubling_the_scale_doubles_a_rectangle() {
    let r = Aperture::Rectangle { width: 2 * DIM, height: DIM };
    let half = flashed_at(500, r.clone());
    let one = flashed_at(1000, r);
    assert_eq!(
        one,
        Primitive::FilledRectangle {
            origin: FinePoint { x: 0, y: 2 * STEPS - STEPS / 2 },
            width: 2 * STEPS,
            height: STEPS,
        }
    );
    assert_eq!(
        half,
        Primitive::FilledRectangle {
            origin: FinePoint { x: STEPS / 2, y: 2 * STEPS - STEPS / 4 },
            width: STEPS,
            height: STEPS / 2,
        }
    );
}

#[test]
fn scale_that_is_not_positive_is_ignored() {
    let g = plotter(layer(vec![], vec![])).set_scale(1500);
    assert_eq!(g.scale(), 1500);
    let g = g.set_scale(0);
    assert_eq!(g.scale(), 1500);
    let g = g.set_scale(-20);
    assert_eq!(g.scale(), 1500);
    assert_eq!(
        g.diagnostics(),
        &vec![
            Diagnostic { kind: DiagnosticKind::ScaleIgnored, command: None },
            Diagnostic { kind: DiagnosticKind::ScaleIgnored, command: None },
        ]
    );
}

fn edges(p: &Primitive) -> Vec<(i128, i128, i128, i128)> {
    match p {
        Primitive::OpenPolyline { points, stroke_width } => points
            .iter()
            .map(|q| {
                let h = stroke_width / 2;
                (q.x - h, q.x + h, q.y - h, q.y + h)
            })
            .collect(),
        Primitive::FilledCircle { center, radius } => {
            vec![(center.x - radius, center.x + radius, center.y - radius, center.y + radius)]
        }
        Primitive::FilledRectangle { origin, width, height } => {
            vec![(origin.x, origin.x + width, origin.y, origin.y + height)]
        }
    }
}

#[test]
fn bounding_box_holds_every_primitive() {
    for scale in [250, 1000, 3000] {
        let g = plotter(layer(
            vec![
                (10, Aperture::Circle { diameter: DIM }),
                (11, Aperture::Rectangle { width: 3 * DIM, height: 2 * DIM }),
            ],
            vec![
                Command::SelectAperture(10),
                Command::Move(at(-2 * MICRO, 7 * MICRO)),
                line_to(4 * MICRO, -MICRO),
                line_to(9 * MICRO, 0),
                Command::SelectAperture(11),
                Command::Flash(at(-5 * MICRO, -5 * MICRO)),
                Command::SelectAperture(10),
                Command::Flash(at(12 * MICRO, 3 * MICRO)),
                line_to(0, 0),
            ],
        ))
        .set_scale(scale)
        .build()
        .expect("the walk succeeds");
        let b = g.bounding_box();
        assert!(!b.empty);
        assert_eq!(g.primitives().len(), 4);
        for p in g.primitives() {
            for (l, r, lo, hi) in edges(p) {
                assert!(b.min_x <= l && r <= b.max_x && b.min_y <= lo && hi <= b.max_y);
            }
        }
    }
}

#[test]
fn line_without_coordinates_changes_nothing() {
    let g = built(layer(
        vec![(1, Aperture::Circle { diameter: DIM })],
        vec![
            Command::SelectAperture(1),
            Command::Move(at(2, 3)),
            Command::Interpolate { coordinates: None, offset: None },
        ],
    ));
    assert!(g.primitives().is_empty());
    assert!(g.bounding_box().empty);
    assert_eq!(g.position(), Point { x: 2, y: 3 });
    assert_eq!(
        g.diagnostics(),
        &vec![Diagnostic { kind: DiagnosticKind::InterpolateWithoutCoordinates, command: Some(2) }]
    );
}

#[test]
fn unparsed_commands_are_skipped() {
    let apertures = vec![(1, Aperture::Circle { diameter: DIM })];
    let parsed = vec![
        Command::SelectAperture(1),
        line_to(MICRO, 0),
        Command::Move(at(0, MICRO)),
        Command::Flash(None),
    ];
    let mut with_errors: Vec<Result<Command, String>> = Vec::new();
    with_errors.push(Err("bad line".to_string()));
    for (i, c) in parsed.iter().enumerate() {
        with_errors.push(Ok(c.clone()));
        if i % 2 == 1 {
            with_errors.push(Err("another bad line".to_string()));
        }
    }
    let partial = LayerDoc {
        units: Some(Unit::Inches),
        format_specification: Some(CoordinateFormat { integer: 2, decimal: 4 }),
        apertures: apertures.clone(),
        commands: with_errors,
    };
    let g = match Gerber2SVG::from_parse_result(Err((partial, "bad line".to_string()))) {
        Err(ImportError::NonFatalError(g, msg)) => {
            assert_eq!(msg, "bad line");
            g
        }
        _ => panic!("expected a partial plotter"),
    };
    assert_eq!(g.unit(), Unit::Inches);
    let g = g.build().expect("the walk succeeds");
    let mut clean = layer(apertures, parsed);
    clean.units = Some(Unit::Inches);
    let h = built(clean);
    assert_eq!(g.primitives(), h.primitives());
    assert_eq!(g.bounding_box(), h.bounding_box());
    assert_eq!(g.position(), h.position());
    assert_eq!(g.primitives().len(), 2);
}

#[test]
fn parse_that_recovered_nothing_is_fatal() {
    let empty = LayerDoc {
        units: None,
        format_specification: None,
        apertures: vec![],
        commands: vec![],
    };
    match Gerber2SVG::from_parse_result(Err((empty, "no header".to_string()))) {
        Err(ImportError::ParseError(msg)) => assert_eq!(msg, "no header"),
        _ => panic!("expected a fatal parse error"),
    }
}

#[test]
fn parse_that_recovered_no_command_is_fatal() {
    let only_apertures = LayerDoc {
        units: Some(Unit::Millimeters),
        format_specification: Some(CoordinateFormat { integer: 3, decimal: 6 }),
        apertures: vec![(1, Aperture::Circle { diameter: DIM })],
        commands: vec![Err("bad".to_string()), Err("worse".to_string())],
    };
    match Gerber2SVG::from_parse_result(Err((only_apertures, "bad".to_string()))) {
        Err(ImportError::ParseError(msg)) => assert_eq!(msg, "bad"),
        _ => panic!("expected a fatal parse error"),
    }
}

#[test]
fn successful_parse_gives_a_plotter() {
    let doc = layer(vec![], vec![Command::MCode]);
    match Gerber2SVG::from_parse_result(Ok(doc)) {
        Ok(g) => {
            assert_eq!(g.scale(), 1000);
            assert_eq!(g.unit(), Unit::Millimeters);
            assert_eq!(g.position(), Point { x: 0, y: 0 });
        }
        _ => panic!("expected a plotter"),
    }
}

#[test]
fn missing_format_and_unit_are_refused() {
    let mut no_format = layer(vec![], vec![]);
    no_format.format_specification = None;
    assert!(matches!(
        Gerber2SVG::from_gerber_doc(no_format),
        Err(ImportError::MissingCoordinatesFormat)
    ));
    let mut no_unit = layer(vec![], vec![]);
    no_unit.units = None;
    assert!(matches!(Gerber2SVG::from_gerber_doc(no_unit), Err(ImportError::MissingUnit)));
    let mut partial_no_unit = layer(vec![], vec![Command::MCode]);
    partial_no_unit.units = None;
    assert!(matches!(
        Gerber2SVG::from_parse_result(Err((partial_no_unit, "x".to_string()))),
        Err(ImportError::MissingUnit)
    ));
}

#[test]
fn flash_without_aperture_stops_the_walk() {
    let r = plotter(layer(vec![], vec![Command::Flash(None)])).build();
    assert!(matches!(r, Err(BuildError::NoApertureSelected)));
}

#[test]
fn line_without_aperture_stops_the_walk() {
    let r = plotter(layer(vec![], vec![line_to(1, 1)])).build();
    assert!(matches!(r, Err(BuildError::NoApertureSelected)));
}

#[test]
fn unknown_aperture_stops_the_walk() {
    let r = plotter(layer(
        vec![(1, Aperture::Circle { diameter: 1 })],
        vec![Command::SelectAperture(7)],
    ))
    .build();
    assert!(matches!(r, Err(BuildError::UnknownApertureId(7))));
}

#[test]
fn unsupported_apertures_are_reported() {
    let g = built(layer(
        vec![
            (1, Aperture::Obround { width: 1, height: 2 }),
            (2, Aperture::Polygon { diameter: 3, vertices: 6 }),
            (3, Aperture::Macro { name: "THERMAL".to_string() }),
        ],
        vec![
            Command::SelectAperture(1),
            Command::Flash(None),
            Command::SelectAperture(2),
            Command::Flash(None),
            Command::SelectAperture(3),
            Command::Flash(at(5, 5)),
        ],
    ));
    assert!(g.primitives().is_empty());
    assert!(g.bounding_box().empty);
    assert_eq!(g.position(), Point { x: 5, y: 5 });
    assert_eq!(kinds(&g), vec![DiagnosticKind::UnsupportedAperture; 3]);
    assert_eq!(g.diagnostics()[0].severity(), Severity::Error);
    assert_eq!(g.diagnostics()[2].command, Some(5));
}

fn stroke_at(scale: i32) -> i128 {
    let g = plotter(layer(
        vec![(1, Aperture::Circle { diameter: DIM })],
        vec![Command::SelectAperture(1), line_to(MICRO, 0)],
    ))
    .set_scale(scale)
    .build()
    .expect("the walk succeeds");
    match &g.primitives()[0] {
        Primitive::OpenPolyline { stroke_width, .. } => *stroke_width,
        other => panic!("expected a polyline, got {:?}", other),
    }
}

#[test]
fn stroke_is_doubled_above_one_and_halved_below() {
    assert_eq!(stroke_at(1000), STEPS);
    assert_eq!(stroke_at(2000), 4 * STEPS);
    assert_eq!(stroke_at(500), STEPS / 4);
    assert_eq!(stroke_at(1001), 2 * STEPS * 1001 / 1000);
    assert_eq!(stroke_at(999), STEPS * 999 / 2000);
}

#[test]
fn non_circle_stroke_is_zero() {
    let g = built(layer(
        vec![(1, Aperture::Rectangle { width: DIM, height: DIM })],
        vec![Command::SelectAperture(1), line_to(MICRO, 0), Command::Move(at(0, 0))],
    ));
    assert_eq!(
        g.primitives(),
        &vec![Primitive::OpenPolyline {
            points: vec![FinePoint { x: 0, y: 0 }, FinePoint { x: STEPS, y: 0 }],
            stroke_width: 0,
        }]
    );
    assert_eq!(
        g.diagnostics(),
        &vec![Diagnostic { kind: DiagnosticKind::UnsupportedStrokeAperture, command: Some(2) }]
    );
}

#[test]
fn arcs_move_without_drawing() {
    let g = built(layer(
        vec![(1, Aperture::Circle { diameter: DIM })],
        vec![
            Command::SelectAperture(1),
            Command::InterpolationMode(InterpolationMode::ClockwiseCircular),
            Command::Interpolate { coordinates: at(4, 4), offset: None },
            Command::Interpolate { coordinates: at(6, 6), offset: at(1, 1) },
            Command::InterpolationMode(InterpolationMode::CounterclockwiseCircular),
            Command::Interpolate { coordinates: Some(Coordinates { x: Some(9), y: None }), offset: at(0, 1) },
        ],
    ));
    assert!(g.primitives().is_empty());
    assert_eq!(g.position(), Point { x: 9, y: 6 });
    assert_eq!(
        kinds(&g),
        vec![
            DiagnosticKind::MissingArcOffset,
            DiagnosticKind::ArcUnsupported,
            DiagnosticKind::ArcUnsupported,
        ]
    );
}

#[test]
fn other_commands_only_report() {
    let g = built(layer(
        vec![],
        vec![
            Command::Comment("made by hand".to_string()),
            Command::Move(None),
            Command::UnsupportedGCode,
            Command::MCode,
            Command::ExtendedCode,
        ],
    ));
    assert!(g.primitives().is_empty());
    assert_eq!(g.position(), Point { x: 0, y: 0 });
    assert_eq!(
        g.diagnostics(),
        &vec![
            Diagnostic { kind: DiagnosticKind::Comment, command: Some(0) },
            Diagnostic { kind: DiagnosticKind::MoveWithoutCoordinates, command: Some(1) },
            Diagnostic { kind: DiagnosticKind::UnsupportedGCode, command: Some(2) },
        ]
    );
    assert_eq!(g.diagnostics()[0].severity(), Severity::Info);
    assert_eq!(g.diagnostics()[1].severity(), Severity::Warning);
}

#[test]
fn path_still_open_at_the_end_is_drawn() {
    let g = built(layer(
        vec![(1, Aperture::Circle { diameter: DIM })],
        vec![Command::SelectAperture(1), line_to(1, 0), line_to(1, 1)],
    ));
    assert_eq!(count_polylines(g.primitives()), 1);
}

#[test]
fn viewport_cropped_or_from_the_origin() {
    let g = built(layer(
        vec![(1, Aperture::Rectangle { width: 2 * DIM, height: 4 * DIM })],
        vec![Command::SelectAperture(1), Command::Flash(at(3 * MICRO, 5 * MICRO))],
    ));
    assert_eq!(
        g.viewport(true),
        Viewport { origin_x: 2 * STEPS, origin_y: 3 * STEPS, width: 2 * STEPS, height: 4 * STEPS }
    );
    assert_eq!(
        g.viewport(false),
        Viewport { origin_x: 0, origin_y: 0, width: 4 * STEPS, height: 7 * STEPS }
    );
    let doc = g.render(true);
    assert_eq!(doc.unit, Unit::Millimeters);
    assert_eq!(doc.primitives.len(), 1);
    assert_eq!(doc.viewport.width, 2 * STEPS);
}

#[test]
fn unit_suffixes() {
    assert_eq!(Unit::Millimeters.suffix(), "mm");
    assert_eq!(Unit::Inches.suffix(), "in");
}

#[test]
fn coordinates_take_missing_axes_from_the_default() {
    let d = Point::new(7, 8);
    assert_eq!(Point::from_coordinates(Coordinates { x: Some(1), y: None }, &d), Point { x: 1, y: 8 });
    assert_eq!(Point::from_coordinates(Coordinates { x: None, y: Some(2) }, &d), Point { x: 7, y: 2 });
    assert_eq!(Point::from_option_coordinates(None, &d), d);
    assert_eq!(d.to_fine(), FinePoint { x: 7 * 4000, y: 8 * 4000 });
}

use circular_progress::color::Rgba;
use circular_progress::geometry::{calculate_radius, center, stroke_for, SUBPIXELS};
use circular_progress::render::{render, DrawOp, LineCap, TOP, TURN};
use circular_progress::state::CircularProgressBar;
use circular_progress::text::{
    decimal_string, font_description, label_left, percent, percent_label, FRACTION_ONE,
};

fn ink() -> Rgba {
    Rgba::new(10, 20, 30, 255)
}

fn paints(ops: &[DrawOp]) -> usize {
    ops.iter().filter(|o| matches!(o, DrawOp::Fill | DrawOp::Stroke)).count()
}

#[test]
fn radius_takes_the_smaller_half_extent() {
    assert_eq!(center(101), 50);
    assert_eq!(center(100), 50);
    assert_eq!(calculate_radius(50, 50), 49);
    assert_eq!(calculate_radius(30, 100), 30);
    assert_eq!(calculate_radius(100, 30), 29);
}

#[test]
fn radius_is_never_negative_on_real_surfaces() {
    for w in 1..40 {
        for h in 2..40 {
            assert!(calculate_radius(center(w), center(h)) >= 0);
        }
    }
    assert_eq!(calculate_radius(center(1), center(2)), 0);
}

#[test]
fn radius_of_a_one_pixel_tall_surface() {
    assert_eq!(calculate_radius(center(10), center(1)), -1);
}

#[test]
fn fitting_stroke_keeps_its_width() {
    let s = stroke_for(49, 10 * 1024);
    assert_eq!(s.line_width, 10 * 1024);
    assert_eq!(s.delta, 49 * 1024 - 5 * 1024);
    let s = stroke_for(49, 49 * 1024);
    assert_eq!(s.line_width, 49 * 1024);
    assert_eq!(s.delta, 49 * 1024 - 49 * 512);
}

#[test]
fn wide_stroke_collapses_to_the_centre() {
    let s = stroke_for(10, 11 * 1024);
    assert_eq!(s.line_width, 10 * SUBPIXELS);
    assert_eq!(s.delta, 0);
}

#[test]
fn wide_stroke_renders_without_panic() {
    let mut bar = CircularProgressBar::new();
    bar.set_line_width(i32::MAX);
    bar.set_fraction(FRACTION_ONE / 4);
    bar.set_fill_radius(true);
    let ops = render(&bar, 40, 40, ink());
    assert!(matches!(ops[2], DrawOp::SetLineWidth(w) if w == 19 * 1024));
    for op in &ops {
        if let DrawOp::Arc { radius, .. } = op {
            assert_eq!(*radius, 0);
        }
    }
}

#[test]
fn no_progress_paints_no_arc() {
    let mut bar = CircularProgressBar::new();
    bar.set_fill_center(true);
    bar.set_fill_radius(true);
    bar.set_line_width(4 * 1024);
    bar.set_fraction(0);
    let ops = render(&bar, 100, 100, ink());
    assert_eq!(paints(&ops), 2);
    assert!(!ops.iter().any(|o| matches!(o, DrawOp::Arc { start, .. } if *start == TOP)));
    bar.set_fraction(1);
    let ops = render(&bar, 100, 100, ink());
    assert_eq!(paints(&ops), 3);
}

#[test]
fn full_progress_sweeps_a_whole_turn() {
    let mut bar = CircularProgressBar::new();
    bar.set_line_width(10 * 1024);
    bar.set_fraction(FRACTION_ONE);
    let ops = render(&bar, 200, 200, ink());
    let arc = ops
        .iter()
        .find_map(|o| match o {
            DrawOp::Arc { start, end, radius, .. } => Some((*start, *end, *radius)),
            _ => None,
        })
        .unwrap();
    assert_eq!(arc.0, 750_000);
    assert_eq!(arc.1 - arc.0, TURN);
    assert_eq!(arc.2, 99 * 1024 - 5 * 1024);
}

#[test]
fn half_progress_without_stroke_is_a_wedge() {
    let mut bar = CircularProgressBar::new();
    bar.set_fraction(FRACTION_ONE / 2);
    bar.set_line_width(0);
    let ops = render(&bar, 100, 60, ink());
    // centre (50, 30), radius min(50, 29) = 29 px, path radius 29 px
    let i = ops.iter().position(|o| matches!(o, DrawOp::MoveTo { .. })).unwrap();
    assert!(matches!(ops[i], DrawOp::MoveTo { x, y } if x == 50 * 1024 && y == 30 * 1024));
    match &ops[i + 1] {
        DrawOp::Arc { center_x, center_y, radius, start, end } => {
            assert_eq!((*center_x, *center_y), (50 * 1024, 30 * 1024));
            assert_eq!(*radius, 30 * 1024);
            assert_eq!(*start, 750_000);
            assert_eq!(*end, 1_250_000);
        }
        other => panic!("expected an arc, found {:?}", other),
    }
    assert!(matches!(ops[i + 2], DrawOp::Fill));
}

#[test]
fn stroked_progress_uses_the_path_radius() {
    let mut bar = CircularProgressBar::new();
    bar.set_fraction(FRACTION_ONE / 2);
    bar.set_line_width(2 * 1024);
    let ops = render(&bar, 100, 60, ink());
    assert!(!ops.iter().any(|o| matches!(o, DrawOp::MoveTo { .. })));
    let arc = ops.iter().position(|o| matches!(o, DrawOp::Arc { .. })).unwrap();
    assert!(matches!(ops[arc], DrawOp::Arc { radius, .. } if radius == 28 * 1024));
    assert!(matches!(ops[arc + 1], DrawOp::Stroke));
}

#[test]
fn percentage_label_rounds() {
    assert_eq!(percent_label(0), "0");
    assert_eq!(percent_label(379_000), "38");
    assert_eq!(percent_label(380_000), "38");
    assert_eq!(percent_label(1_000_000), "100");
    assert_eq!(percent_label(5_000), "1");
    assert_eq!(percent_label(4_999), "0");
    assert_eq!(percent_label(-5_000), "-1");
    assert_eq!(percent_label(2_500_000), "250");
    assert_eq!(percent(i32::MAX), 214_748);
}

#[test]
fn decimal_text() {
    assert_eq!(decimal_string(0), "0");
    assert_eq!(decimal_string(7), "7");
    assert_eq!(decimal_string(1234567890), "1234567890");
    assert_eq!(decimal_string(-42), "-42");
    assert_eq!(decimal_string(i64::MIN), i64::MIN.to_string());
    assert_eq!(decimal_string(i64::MAX), i64::MAX.to_string());
}

#[test]
fn font_descriptions() {
    assert_eq!(font_description("Sans", 12), "Sans 12");
    assert_eq!(font_description("URW Gothic", 0), "URW Gothic 0");
    assert_eq!(font_description("", -3), " -3");
}

#[test]
fn labels_are_centred_by_whole_pixels() {
    assert_eq!(label_left(50 * 1024, 20 * 1024), 40 * 1024);
    assert_eq!(label_left(50 * 1024, 21 * 1024 + 500), 40 * 1024);
    assert_eq!(label_left(50 * 1024, 0), 50 * 1024);
}

#[test]
fn labels_use_defaults_and_settings() {
    let mut bar = CircularProgressBar::new();
    bar.set_fraction(379_000);
    let ops = render(&bar, 200, 100, ink());
    let texts: Vec<(String, String, i64, i64)> = ops
        .iter()
        .filter_map(|o| match o {
            DrawOp::ShowText { text, font, center_x, top } => {
                Some((text.clone(), font.clone(), *center_x, *top))
            }
            _ => None,
        })
        .collect();
    assert_eq!(texts.len(), 2);
    assert_eq!(texts[0], ("38".to_string(), "URW Gothic 0".to_string(), 100 * 1024, 23 * 1024));
    assert_eq!(texts[1], ("PERCENT".to_string(), "URW Gothic 0".to_string(), 100 * 1024, 63 * 1024));

    bar.set_progress_font(Some("Cantarell".to_string()));
    bar.set_fraction_font_size(24);
    bar.set_center_text_font_size(9);
    bar.set_center_text(Some("DONE".to_string()));
    let ops = render(&bar, 200, 100, ink());
    let texts: Vec<(String, String)> = ops
        .iter()
        .filter_map(|o| match o {
            DrawOp::ShowText { text, font, .. } => Some((text.clone(), font.clone())),
            _ => None,
        })
        .collect();
    assert_eq!(texts[0], ("38".to_string(), "Cantarell 24".to_string()));
    assert_eq!(texts[1], ("DONE".to_string(), "Cantarell 9".to_string()));
}

#[test]
fn colours_default_until_set() {
    let mut bar = CircularProgressBar::new();
    bar.set_fill_center(true);
    bar.set_fill_radius(true);
    bar.set_fraction(FRACTION_ONE / 2);
    bar.set_line_width(1024);
    let colours = |bar: &CircularProgressBar| -> Vec<Rgba> {
        render(bar, 100, 100, ink())
            .iter()
            .filter_map(|o| match o {
                DrawOp::SetColor(c) => Some(*c),
                _ => None,
            })
            .collect()
    };
    assert_eq!(
        colours(&bar),
        vec![Rgba::center_fill(), Rgba::radius_fill(), Rgba::progress_fill(), ink()]
    );
    assert_eq!(Rgba::center_fill(), Rgba::new(60, 255, 0, 255));
    assert_eq!(Rgba::radius_fill(), Rgba::new(0, 213, 255, 255));
    assert_eq!(Rgba::progress_fill(), Rgba::new(252, 244, 0, 255));
    let red = Rgba::new(255, 0, 0, 255);
    let green = Rgba::new(0, 255, 0, 128);
    let blue = Rgba::new(0, 0, 255, 255);
    bar.set_center_fill_color(Some(red));
    bar.set_radius_fill_color(Some(green));
    bar.set_progress_fill_color(Some(blue));
    assert_eq!(colours(&bar), vec![red, green, blue, ink()]);
    bar.set_radius_fill_color(None);
    assert_eq!(colours(&bar), vec![red, Rgba::radius_fill(), blue, ink()]);
}

#[test]
fn demo_configuration_plan() {
    let mut bar = CircularProgressBar::new();
    bar.set_fraction(380_000);
    bar.set_fill_center(false);
    bar.set_fill_radius(false);
    bar.set_line_width(10 * 1024);
    let ops = render(&bar, 300, 200, ink());
    assert_eq!(ops.len(), 12);
    assert!(matches!(ops[0], DrawOp::Save));
    assert!(matches!(ops[1], DrawOp::SetLineCap(LineCap::Butt)));
    assert!(matches!(ops[2], DrawOp::SetLineWidth(w) if w == 10 * 1024));
    assert!(matches!(ops[3], DrawOp::SetColor(c) if c == Rgba::progress_fill()));
    assert!(matches!(ops[4], DrawOp::Arc { center_x, center_y, radius, start, end }
        if center_x == 150 * 1024 && center_y == 100 * 1024 && radius == 94 * 1024
            && start == 750_000 && end == 1_130_000));
    assert!(matches!(ops[5], DrawOp::Stroke));
    assert!(matches!(ops[6], DrawOp::Save));
    assert!(matches!(ops[7], DrawOp::SetColor(c) if c == ink()));
    assert!(matches!(ops[8], DrawOp::ShowText { .. }));
    assert!(matches!(ops[9], DrawOp::ShowText { .. }));
    assert!(matches!(ops[10], DrawOp::Restore));
    assert!(matches!(ops[11], DrawOp::Restore));
}

#[derive(Clone, Copy, PartialEq, Debug)]
struct Pen {
    width: i64,
    cap: Option<LineCap>,
    color: Option<Rgba>,
}

fn run(ops: &[DrawOp], start: Pen) -> (Pen, usize) {
    let mut pen = start;
    let mut saved: Vec<Pen> = Vec::new();
    for op in ops {
        match op {
            DrawOp::Save => saved.push(pen),
            DrawOp::Restore => pen = saved.pop().expect("restore without save"),
            DrawOp::SetLineCap(c) => pen.cap = Some(*c),
            DrawOp::SetLineWidth(w) => pen.width = *w,
            DrawOp::SetColor(c) => pen.color = Some(*c),
            _ => {}
        }
    }
    (pen, saved.len())
}

#[test]
fn paint_leaves_the_context_as_found() {
    let start = Pen { width: 3, cap: Some(LineCap::Round), color: Some(Rgba::new(1, 2, 3, 4)) };
    for (fc, fr, lw, f) in [
        (false, false, 0, 0),
        (true, true, 10 * 1024, 380_000),
        (true, false, 0, 500_000),
        (false, true, i32::MAX, 1_000_000),
        (true, true, -5, -20),
    ] {
        let mut bar = CircularProgressBar::new();
        bar.set_fill_center(fc);
        bar.set_fill_radius(fr);
        bar.set_line_width(lw);
        bar.set_fraction(f);
        for (w, h) in [(0, 0), (1, 1), (100, 100), (640, 20)] {
            let ops = render(&bar, w, h, ink());
            assert_eq!(run(&ops, start), (start, 0));
        }
    }
}

#[test]
fn render_does_not_change_the_bar() {
    let mut bar = CircularProgressBar::new();
    bar.set_fraction(42);
    bar.set_line_width(99 * 1024);
    let _ = bar.take_repaint();
    let _ = render(&bar, 10, 10, ink());
    assert_eq!(bar.fraction(), 42);
    assert_eq!(bar.line_width(), 99 * 1024);
    assert!(!bar.repaint_pending());
}

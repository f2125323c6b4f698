//! Painting: the sequence of drawing-context operations that one paint performs.
//!
//! Coordinates and lengths are in sub-pixel units (`1 / SUBPIXELS` of a pixel); angles
//! are in millionths of a turn, from three o'clock, clockwise.
use vstd::prelude::*;
use vstd::string::*;
use crate::context::{is_unscoped, lemma_run_concat, lemma_run_push, lemma_scope_restores, lemma_unscoped_keeps_saved, run_steps, Context};
use crate::color::{center_default, or_default, progress_default, radius_default, resolve, Rgba};
use crate::geometry::{
    calculate_radius, center, center_of, delta_of, effective_line_width, radius_of, stroke_for,
    SUBPIXELS,
};
use crate::state::{Appearance, CircularProgressBar};
use crate::text::{FRACTION_ONE, decimal, font_description, font_spec, percent_label, percent_of};

verus! {

/// Millionths of a turn in a full turn.
pub const TURN: i64 = 1_000_000;

/// The top of the ring (twelve o'clock), where the progress arc starts.
pub const TOP: i64 = 750_000;

/// How far above the centre the percentage label's top edge sits, in pixels.
pub const PERCENT_RISE: i64 = 27;

/// How far below the centre the lower label's top edge sits, in pixels.
pub const CAPTION_DROP: i64 = 13;

/// How the ends of a stroked path are drawn.
#[derive(Clone, Copy, Debug, PartialEq, Eq, Structural)]
pub enum LineCap {
    /// The stroke ends flush at the end point.
    Butt,
    Round,
    Square,
}

/// One operation on the drawing context.
#[derive(Debug)]
pub enum DrawOp {
    /// Pushes the persistent state (line width, cap, colour).
    Save,
    /// Pops the persistent state pushed by the matching `Save`.
    Restore,
    SetLineCap(LineCap),
    SetLineWidth(i64),
    SetColor(Rgba),
    MoveTo { x: i64, y: i64 },
    /// A circular arc, clockwise from `start` to `end`, added to the current path.
    Arc { center_x: i64, center_y: i64, radius: i64, start: i64, end: i64 },
    /// Fills the current path with the current colour, and clears it.
    Fill,
    /// Strokes the current path with the current colour, width and cap, and clears it.
    Stroke,
    /// Lays out `text` in the font `font` and shows it with its top edge at `top`,
    /// centred on `center_x` by its measured width.
    ShowText { text: String, font: String, center_x: i64, top: i64 },
}

/// A [`DrawOp`] as plain values.
pub enum Step {
    Save,
    Restore,
    SetLineCap(LineCap),
    SetLineWidth(int),
    SetColor(Rgba),
    MoveTo { x: int, y: int },
    Arc { center_x: int, center_y: int, radius: int, start: int, end: int },
    Fill,
    Stroke,
    ShowText { text: Seq<char>, font: Seq<char>, center_x: int, top: int },
}

impl View for DrawOp {
    type V = Step;

    open spec fn view(&self) -> Step {
        match self {
            DrawOp::Save => Step::Save,
            DrawOp::Restore => Step::Restore,
            DrawOp::SetLineCap(c) => Step::SetLineCap(*c),
            DrawOp::SetLineWidth(w) => Step::SetLineWidth(*w as int),
            DrawOp::SetColor(c) => Step::SetColor(*c),
            DrawOp::MoveTo { x, y } => Step::MoveTo { x: *x as int, y: *y as int },
            DrawOp::Arc { center_x, center_y, radius, start, end } => Step::Arc {
                center_x: *center_x as int,
                center_y: *center_y as int,
                radius: *radius as int,
                start: *start as int,
                end: *end as int,
            },
            DrawOp::Fill => Step::Fill,
            DrawOp::Stroke => Step::Stroke,
            DrawOp::ShowText { text, font, center_x, top } => Step::ShowText {
                text: text@,
                font: font@,
                center_x: *center_x as int,
                top: *top as int,
            },
        }
    }
}

/// The operations of a list, as plain values.
pub open spec fn steps_of(ops: Seq<DrawOp>) -> Seq<Step> {
    ops.map_values(|o: DrawOp| o@)
}

/// The font family used where none was set.
pub open spec fn default_font() -> Seq<char> {
    "URW Gothic"@
}

/// The lower label's text where none was set.
pub open spec fn default_caption() -> Seq<char> {
    "PERCENT"@
}

/// A text that is set, or the default where it is not.
pub open spec fn text_or(t: Option<Seq<char>>, default: Seq<char>) -> Seq<char> {
    match t {
        Some(v) => v,
        None => default,
    }
}

/// The solid centre disk, when it is asked for.
pub open spec fn center_steps(a: Appearance, x: int, y: int, delta: int) -> Seq<Step> {
    if a.fill_center {
        seq![
            Step::Arc { center_x: x, center_y: y, radius: delta, start: 0, end: TURN as int },
            Step::SetColor(or_default(a.center_fill_color, center_default())),
            Step::Fill,
        ]
    } else {
        seq![]
    }
}

/// The stroked outer ring, when it is asked for.
pub open spec fn ring_steps(a: Appearance, x: int, y: int, delta: int) -> Seq<Step> {
    if a.fill_radius {
        seq![
            Step::Arc { center_x: x, center_y: y, radius: delta, start: 0, end: TURN as int },
            Step::SetColor(or_default(a.radius_fill_color, radius_default())),
            Step::Stroke,
        ]
    } else {
        seq![]
    }
}

/// The progress arc, from the top clockwise through `fraction` of a turn: a filled
/// wedge one pixel beyond the path where the stroke has no width, else a stroked arc.
pub open spec fn progress_steps(a: Appearance, line_width: int, x: int, y: int, delta: int) -> Seq<Step> {
    if a.fraction > 0 {
        let color = Step::SetColor(or_default(a.progress_fill_color, progress_default()));
        let end = TOP + a.fraction;
        if line_width == 0 {
            seq![
                color,
                Step::MoveTo { x, y },
                Step::Arc { center_x: x, center_y: y, radius: delta + SUBPIXELS, start: TOP as int, end },
                Step::Fill,
            ]
        } else {
            seq![
                color,
                Step::Arc { center_x: x, center_y: y, radius: delta, start: TOP as int, end },
                Step::Stroke,
            ]
        }
    } else {
        seq![]
    }
}

/// The two labels in the text colour, in a scope of their own: the rounded percentage
/// above the centre and the caption below it.
pub open spec fn label_steps(a: Appearance, x: int, y: int, ink: Rgba) -> Seq<Step> {
    let family = text_or(a.progress_font, default_font());
    seq![
        Step::Save,
        Step::SetColor(ink),
        Step::ShowText {
            text: decimal(percent_of(a.fraction as int)),
            font: font_spec(family, a.fraction_font_size as int),
            center_x: x,
            top: y - PERCENT_RISE * SUBPIXELS,
        },
        Step::ShowText {
            text: text_or(a.center_text, default_caption()),
            font: font_spec(family, a.center_text_font_size as int),
            center_x: x,
            top: y + CAPTION_DROP * SUBPIXELS,
        },
        Step::Restore,
    ]
}

/// Everything one paint of a `width` by `height` surface does, with `ink` as the
/// text colour, inside one save/restore scope.
pub open spec fn paint_plan(a: Appearance, width: int, height: int, ink: Rgba) -> Seq<Step> {
    let cx = center_of(width);
    let cy = center_of(height);
    let radius = radius_of(cx, cy);
    let line_width = effective_line_width(radius, a.line_width as int);
    let delta = delta_of(radius, a.line_width as int);
    let x = cx * SUBPIXELS;
    let y = cy * SUBPIXELS;
    seq![Step::Save, Step::SetLineCap(LineCap::Butt), Step::SetLineWidth(line_width)]
        + center_steps(a, x, y, delta)
        + ring_steps(a, x, y, delta)
        + progress_steps(a, line_width, x, y, delta)
        + label_steps(a, x, y, ink)
        + seq![Step::Restore]
}

fn emit(ops: &mut Vec<DrawOp>, op: DrawOp)
    ensures
        steps_of(final(ops)@) == steps_of(old(ops)@).push(op@),
{
    ops.push(op);
    assert(steps_of(final(ops)@) =~= steps_of(old(ops)@).push(op@));
}

fn emit_center(ops: &mut Vec<DrawOp>, bar: &CircularProgressBar, x: i64, y: i64, delta: i64)
    ensures
        steps_of(final(ops)@) == steps_of(old(ops)@) + center_steps(bar@.appearance, x as int, y as int, delta as int),
{
    if bar.fill_center() {
        emit(ops, DrawOp::Arc { center_x: x, center_y: y, radius: delta, start: 0, end: TURN });
        emit(ops, DrawOp::SetColor(resolve(bar.center_fill_color(), Rgba::center_fill())));
        emit(ops, DrawOp::Fill);
    }
    assert(steps_of(final(ops)@) =~= steps_of(old(ops)@) + center_steps(bar@.appearance, x as int, y as int, delta as int));
}

fn emit_ring(ops: &mut Vec<DrawOp>, bar: &CircularProgressBar, x: i64, y: i64, delta: i64)
    ensures
        steps_of(final(ops)@) == steps_of(old(ops)@) + ring_steps(bar@.appearance, x as int, y as int, delta as int),
{
    if bar.fill_radius() {
        emit(ops, DrawOp::Arc { center_x: x, center_y: y, radius: delta, start: 0, end: TURN });
        emit(ops, DrawOp::SetColor(resolve(bar.radius_fill_color(), Rgba::radius_fill())));
        emit(ops, DrawOp::Stroke);
    }
    assert(steps_of(final(ops)@) =~= steps_of(old(ops)@) + ring_steps(bar@.appearance, x as int, y as int, delta as int));
}

fn emit_progress(ops: &mut Vec<DrawOp>, bar: &CircularProgressBar, line_width: i64, x: i64, y: i64, delta: i64)
    requires
        delta <= i64::MAX - SUBPIXELS,
    ensures
        steps_of(final(ops)@) == steps_of(old(ops)@) + progress_steps(
            bar@.appearance,
            line_width as int,
            x as int,
            y as int,
            delta as int,
        ),
{
    let fraction = bar.fraction();
    if fraction > 0 {
        emit(ops, DrawOp::SetColor(resolve(bar.progress_fill_color(), Rgba::progress_fill())));
        let end = TOP + fraction as i64;
        if line_width == 0 {
            emit(ops, DrawOp::MoveTo { x, y });
            emit(ops, DrawOp::Arc { center_x: x, center_y: y, radius: delta + SUBPIXELS, start: TOP, end });
            emit(ops, DrawOp::Fill);
        } else {
            emit(ops, DrawOp::Arc { center_x: x, center_y: y, radius: delta, start: TOP, end });
            emit(ops, DrawOp::Stroke);
        }
    }
    assert(steps_of(final(ops)@) =~= steps_of(old(ops)@) + progress_steps(
        bar@.appearance,
        line_width as int,
        x as int,
        y as int,
        delta as int,
    ));
}

fn emit_labels(ops: &mut Vec<DrawOp>, bar: &CircularProgressBar, x: i64, y: i64, ink: Rgba)
    requires
        i64::MIN + PERCENT_RISE * SUBPIXELS <= y <= i64::MAX - CAPTION_DROP * SUBPIXELS,
    ensures
        steps_of(final(ops)@) == steps_of(old(ops)@) + label_steps(bar@.appearance, x as int, y as int, ink),
{
    let family = match bar.progress_font() {
        Some(f) => String::from_str(f),
        None => String::from_str("URW Gothic"),
    };
    let caption = match bar.center_text() {
        Some(t) => String::from_str(t),
        None => String::from_str("PERCENT"),
    };
    emit(ops, DrawOp::Save);
    emit(ops, DrawOp::SetColor(ink));
    emit(ops, DrawOp::ShowText {
        text: percent_label(bar.fraction()),
        font: font_description(family.as_str(), bar.fraction_font_size()),
        center_x: x,
        top: y - PERCENT_RISE * SUBPIXELS,
    });
    emit(ops, DrawOp::ShowText {
        text: caption,
        font: font_description(family.as_str(), bar.center_text_font_size()),
        center_x: x,
        top: y + CAPTION_DROP * SUBPIXELS,
    });
    emit(ops, DrawOp::Restore);
    assert(steps_of(final(ops)@) =~= steps_of(old(ops)@) + label_steps(bar@.appearance, x as int, y as int, ink));
}

/// The paint operations for `bar` on a `width` by `height` surface, with `ink` as the
/// colour of the labels. The bar is only read.
pub fn render(bar: &CircularProgressBar, width: i32, height: i32, ink: Rgba) -> (ops: Vec<DrawOp>)
    ensures
        steps_of(ops@) == paint_plan(bar@.appearance, width as int, height as int, ink),
{
    let cx = center(width);
    let cy = center(height);
    let radius = calculate_radius(cx, cy);
    let stroke = stroke_for(radius, bar.line_width());
    let x = cx as i64 * SUBPIXELS;
    let y = cy as i64 * SUBPIXELS;
    let mut ops: Vec<DrawOp> = Vec::new();
    emit(&mut ops, DrawOp::Save);
    emit(&mut ops, DrawOp::SetLineCap(LineCap::Butt));
    emit(&mut ops, DrawOp::SetLineWidth(stroke.line_width));
    emit_center(&mut ops, bar, x, y, stroke.delta);
    emit_ring(&mut ops, bar, x, y, stroke.delta);
    emit_progress(&mut ops, bar, stroke.line_width, x, y, stroke.delta);
    emit_labels(&mut ops, bar, x, y, ink);
    emit(&mut ops, DrawOp::Restore);
    assert(steps_of(ops@) =~= paint_plan(bar@.appearance, width as int, height as int, ink));
    ops
}

/// A paint leaves the drawing context's persistent state (stroke width, cap, colour and
/// saved states) exactly as it found it.
pub proof fn lemma_paint_restores_context(a: Appearance, width: int, height: int, ink: Rgba, c: Context)
    ensures
        run_steps(c, paint_plan(a, width, height, ink)) == c,
{
    let cx = center_of(width);
    let cy = center_of(height);
    let radius = radius_of(cx, cy);
    let line_width = effective_line_width(radius, a.line_width as int);
    let delta = delta_of(radius, a.line_width as int);
    let x = cx * SUBPIXELS;
    let y = cy * SUBPIXELS;
    let head = seq![Step::SetLineCap(LineCap::Butt), Step::SetLineWidth(line_width)]
        + center_steps(a, x, y, delta)
        + ring_steps(a, x, y, delta)
        + progress_steps(a, line_width, x, y, delta);
    let labels = label_steps(a, x, y, ink);
    let label_body = labels.subrange(1, 4);
    assert forall|i: int| 0 <= i < head.len() implies is_unscoped(#[trigger] head[i]) by {
    }
    assert forall|i: int| 0 <= i < label_body.len() implies is_unscoped(#[trigger] label_body[i]) by {
    }
    assert(labels =~= seq![Step::Save] + label_body + seq![Step::Restore]);
    assert(paint_plan(a, width, height, ink) =~= seq![Step::Save] + (head + labels) + seq![Step::Restore]);

    let opened = Context { pen: c.pen, saved: c.saved.push(c.pen) };
    lemma_run_push(c, Seq::empty(), Step::Save);
    assert(Seq::<Step>::empty().push(Step::Save) =~= seq![Step::Save]);
    lemma_run_concat(c, seq![Step::Save], head + labels);
    lemma_run_concat(opened, head, labels);
    lemma_unscoped_keeps_saved(opened, head);
    lemma_scope_restores(run_steps(opened, head), label_body);
    lemma_run_push(c, seq![Step::Save] + (head + labels), Step::Restore);
    assert((seq![Step::Save] + (head + labels)).push(Step::Restore) =~= seq![Step::Save] + (head + labels) + seq![Step::Restore]);
    assert(c.saved.push(c.pen).drop_last() =~= c.saved);
}

/// A step that paints: a fill or a stroke of the current path.
pub open spec fn is_paint(s: Step) -> bool {
    s is Fill || s is Stroke
}

/// How many fills and strokes the steps perform.
pub open spec fn paint_count(steps: Seq<Step>) -> nat
    decreases steps.len(),
{
    if steps.len() == 0 {
        0
    } else {
        paint_count(steps.drop_last()) + if is_paint(steps.last()) { 1nat } else { 0nat }
    }
}

proof fn lemma_paint_count_push(steps: Seq<Step>, s: Step)
    ensures
        paint_count(steps.push(s)) == paint_count(steps) + if is_paint(s) { 1nat } else { 0nat },
{
    assert(steps.push(s).drop_last() =~= steps);
}

proof fn lemma_paint_count_none(steps: Seq<Step>)
    requires
        forall|i: int| 0 <= i < steps.len() ==> !is_paint(#[trigger] steps[i]),
    ensures
        paint_count(steps) == 0,
    decreases steps.len(),
{
    if steps.len() > 0 {
        let rest = steps.drop_last();
        assert forall|i: int| 0 <= i < rest.len() implies !is_paint(#[trigger] rest[i]) by {
            assert(rest[i] == steps[i]);
        }
        lemma_paint_count_none(rest);
        assert(!is_paint(steps[steps.len() - 1]));
    }
}

proof fn lemma_paint_count_concat(a: Seq<Step>, b: Seq<Step>)
    ensures
        paint_count(a + b) == paint_count(a) + paint_count(b),
    decreases b.len(),
{
    if b.len() == 0 {
        assert(a + b =~= a);
    } else {
        lemma_paint_count_concat(a, b.drop_last());
        assert((a + b).drop_last() =~= a + b.drop_last());
        assert((a + b).last() == b.last());
    }
}

/// A part that ends in its one fill or stroke.
proof fn lemma_paint_count_last_only(steps: Seq<Step>)
    requires
        steps.len() > 0,
        is_paint(steps.last()),
        forall|i: int| 0 <= i < steps.len() - 1 ==> !is_paint(#[trigger] steps[i]),
    ensures
        paint_count(steps) == 1,
{
    let rest = steps.drop_last();
    assert forall|i: int| 0 <= i < rest.len() implies !is_paint(#[trigger] rest[i]) by {
        assert(rest[i] == steps[i]);
    }
    lemma_paint_count_none(rest);
    lemma_paint_count_push(rest, steps.last());
    assert(rest.push(steps.last()) =~= steps);
}

/// Without progress, nothing is filled or stroked but the centre disk and the outer
/// ring that are asked for: no progress path is painted.
pub proof fn lemma_no_progress_no_arc(a: Appearance, width: int, height: int, ink: Rgba)
    requires
        a.fraction <= 0,
    ensures
        paint_count(paint_plan(a, width, height, ink)) == (if a.fill_center { 1nat } else { 0nat }) + (
        if a.fill_radius { 1nat } else { 0nat }),
{
    let cx = center_of(width);
    let cy = center_of(height);
    let radius = radius_of(cx, cy);
    let line_width = effective_line_width(radius, a.line_width as int);
    let delta = delta_of(radius, a.line_width as int);
    let x = cx * SUBPIXELS;
    let y = cy * SUBPIXELS;
    let base = seq![Step::Save, Step::SetLineCap(LineCap::Butt), Step::SetLineWidth(line_width)];
    let disk = center_steps(a, x, y, delta);
    let ring = ring_steps(a, x, y, delta);
    let progress = progress_steps(a, line_width, x, y, delta);
    let labels = label_steps(a, x, y, ink);
    let close = seq![Step::Restore];
    assert(progress =~= Seq::<Step>::empty());
    assert forall|i: int| 0 <= i < base.len() implies !is_paint(#[trigger] base[i]) by {}
    assert forall|i: int| 0 <= i < labels.len() implies !is_paint(#[trigger] labels[i]) by {}
    assert forall|i: int| 0 <= i < close.len() implies !is_paint(#[trigger] close[i]) by {}
    lemma_paint_count_none(base);
    lemma_paint_count_none(progress);
    lemma_paint_count_none(labels);
    lemma_paint_count_none(close);
    if a.fill_center {
        assert forall|i: int| 0 <= i < disk.len() - 1 implies !is_paint(#[trigger] disk[i]) by {}
        lemma_paint_count_last_only(disk);
    } else {
        lemma_paint_count_none(disk);
    }
    if a.fill_radius {
        assert forall|i: int| 0 <= i < ring.len() - 1 implies !is_paint(#[trigger] ring[i]) by {}
        lemma_paint_count_last_only(ring);
    } else {
        lemma_paint_count_none(ring);
    }
    lemma_paint_count_concat(base, disk);
    lemma_paint_count_concat(base + disk, ring);
    lemma_paint_count_concat(base + disk + ring, progress);
    lemma_paint_count_concat(base + disk + ring + progress, labels);
    lemma_paint_count_concat(base + disk + ring + progress + labels, close);
}

/// With progress, one more fill or stroke is painted: the progress path.
pub proof fn lemma_progress_paints_once(a: Appearance, width: int, height: int, ink: Rgba)
    requires
        a.fraction > 0,
    ensures
        paint_count(paint_plan(a, width, height, ink)) == (if a.fill_center { 1nat } else { 0nat }) + (
        if a.fill_radius { 1nat } else { 0nat }) + 1,
{
    let cx = center_of(width);
    let cy = center_of(height);
    let radius = radius_of(cx, cy);
    let line_width = effective_line_width(radius, a.line_width as int);
    let delta = delta_of(radius, a.line_width as int);
    let x = cx * SUBPIXELS;
    let y = cy * SUBPIXELS;
    let base = seq![Step::Save, Step::SetLineCap(LineCap::Butt), Step::SetLineWidth(line_width)];
    let disk = center_steps(a, x, y, delta);
    let ring = ring_steps(a, x, y, delta);
    let progress = progress_steps(a, line_width, x, y, delta);
    let labels = label_steps(a, x, y, ink);
    let close = seq![Step::Restore];
    assert forall|i: int| 0 <= i < base.len() implies !is_paint(#[trigger] base[i]) by {}
    assert forall|i: int| 0 <= i < labels.len() implies !is_paint(#[trigger] labels[i]) by {}
    assert forall|i: int| 0 <= i < close.len() implies !is_paint(#[trigger] close[i]) by {}
    assert forall|i: int| 0 <= i < progress.len() - 1 implies !is_paint(#[trigger] progress[i]) by {}
    lemma_paint_count_none(base);
    lemma_paint_count_last_only(progress);
    lemma_paint_count_none(labels);
    lemma_paint_count_none(close);
    if a.fill_center {
        assert forall|i: int| 0 <= i < disk.len() - 1 implies !is_paint(#[trigger] disk[i]) by {}
        lemma_paint_count_last_only(disk);
    } else {
        lemma_paint_count_none(disk);
    }
    if a.fill_radius {
        assert forall|i: int| 0 <= i < ring.len() - 1 implies !is_paint(#[trigger] ring[i]) by {}
        lemma_paint_count_last_only(ring);
    } else {
        lemma_paint_count_none(ring);
    }
    lemma_paint_count_concat(base, disk);
    lemma_paint_count_concat(base + disk, ring);
    lemma_paint_count_concat(base + disk + ring, progress);
    lemma_paint_count_concat(base + disk + ring + progress, labels);
    lemma_paint_count_concat(base + disk + ring + progress + labels, close);
}

/// An arc that starts at `start` and sweeps through `sweep`.
pub open spec fn is_arc_sweep(s: Step, start: int, sweep: int) -> bool {
    match s {
        Step::Arc { start: from, end, .. } => from == start && end - from == sweep,
        _ => false,
    }
}

/// At full progress the progress arc sweeps one whole turn from the top, the same
/// angular extent as the outer ring.
pub proof fn lemma_full_progress_full_turn(a: Appearance, width: int, height: int, ink: Rgba)
    requires
        a.fraction == FRACTION_ONE,
    ensures
        exists|i: int|
            0 <= i < paint_plan(a, width, height, ink).len() && is_arc_sweep(
                #[trigger] paint_plan(a, width, height, ink)[i],
                TOP as int,
                TURN as int,
            ),
{
    let cx = center_of(width);
    let cy = center_of(height);
    let radius = radius_of(cx, cy);
    let line_width = effective_line_width(radius, a.line_width as int);
    let delta = delta_of(radius, a.line_width as int);
    let x = cx * SUBPIXELS;
    let y = cy * SUBPIXELS;
    let plan = paint_plan(a, width, height, ink);
    let i: int = 3 + center_steps(a, x, y, delta).len() + ring_steps(a, x, y, delta).len() + if line_width == 0 { 2int } else { 1int };
    assert(is_arc_sweep(plan[i], TOP as int, TURN as int));
}

/// Half progress with no stroke width, on a surface that holds a ring: a filled wedge,
/// from the centre, one pixel beyond the path radius, from the top through half a turn.
pub proof fn lemma_half_progress_wedge(a: Appearance, width: int, height: int, ink: Rgba)
    requires
        a.line_width == 0,
        a.fraction == FRACTION_ONE / 2,
        width >= 0,
        height >= 2,
    ensures
        ({
            let x = center_of(width) * SUBPIXELS;
            let y = center_of(height) * SUBPIXELS;
            let delta = delta_of(radius_of(center_of(width), center_of(height)), 0);
            exists|k: int|
                0 <= k && k + 3 <= paint_plan(a, width, height, ink).len()
                    && #[trigger] paint_plan(a, width, height, ink).subrange(k, k + 3) == seq![
                    Step::MoveTo { x, y },
                    Step::Arc { center_x: x, center_y: y, radius: delta + SUBPIXELS, start: TOP as int, end: TOP + TURN / 2 },
                    Step::Fill,
                ]
        }),
{
    let cx = center_of(width);
    let cy = center_of(height);
    let radius = radius_of(cx, cy);
    let delta = delta_of(radius, 0);
    let x = cx * SUBPIXELS;
    let y = cy * SUBPIXELS;
    let plan = paint_plan(a, width, height, ink);
    assert(effective_line_width(radius, 0) == 0);
    let k: int = 4 + center_steps(a, x, y, delta).len() as int + ring_steps(a, x, y, delta).len() as int;
    assert(plan.subrange(k, k + 3) =~= seq![
        Step::MoveTo { x, y },
        Step::Arc { center_x: x, center_y: y, radius: delta + SUBPIXELS, start: TOP as int, end: TOP + TURN / 2 },
        Step::Fill,
    ]);
}

} // verus!

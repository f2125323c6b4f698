//! The progress bar's configurable properties and its pending-repaint flag.
use vstd::prelude::*;
use crate::color::Rgba;

verus! {

/// Every property that affects how the bar is painted, as plain values.
/// Unset colours, font and label stay `None` here and are resolved when painting.
pub struct Appearance {
    pub fill_center: bool,
    pub fill_radius: bool,
    pub center_fill_color: Option<Rgba>,
    pub radius_fill_color: Option<Rgba>,
    pub progress_fill_color: Option<Rgba>,
    pub progress_font: Option<Seq<char>>,
    pub fraction_font_size: i32,
    pub center_text_font_size: i32,
    pub center_text: Option<Seq<char>>,
    /// Progress in millionths; not clamped.
    pub fraction: i32,
    /// Stroke width in sub-pixel units.
    pub line_width: i32,
}

/// What a bar is: its appearance, and whether a repaint has been asked for since the
/// last paint.
pub struct BarView {
    pub appearance: Appearance,
    pub repaint_pending: bool,
}

/// The appearance of a bar that nothing has been set on.
pub open spec fn initial_appearance() -> Appearance {
    Appearance {
        fill_center: false,
        fill_radius: false,
        center_fill_color: None,
        radius_fill_color: None,
        progress_fill_color: None,
        progress_font: None,
        fraction_font_size: 0,
        center_text_font_size: 0,
        center_text: None,
        fraction: 0,
        line_width: 0,
    }
}

/// A change of one property, with its new value.
pub enum Setting {
    FillCenter(bool),
    FillRadius(bool),
    CenterFillColor(Option<Rgba>),
    RadiusFillColor(Option<Rgba>),
    ProgressFillColor(Option<Rgba>),
    ProgressFont(Option<String>),
    FractionFontSize(i32),
    CenterTextFontSize(i32),
    CenterText(Option<String>),
    Fraction(i32),
    LineWidth(i32),
}

/// A [`Setting`] with its text as character sequences.
pub enum SettingView {
    FillCenter(bool),
    FillRadius(bool),
    CenterFillColor(Option<Rgba>),
    RadiusFillColor(Option<Rgba>),
    ProgressFillColor(Option<Rgba>),
    ProgressFont(Option<Seq<char>>),
    FractionFontSize(i32),
    CenterTextFontSize(i32),
    CenterText(Option<Seq<char>>),
    Fraction(i32),
    LineWidth(i32),
}

impl View for Setting {
    type V = SettingView;

    open spec fn view(&self) -> SettingView {
        match self {
            Setting::FillCenter(v) => SettingView::FillCenter(*v),
            Setting::FillRadius(v) => SettingView::FillRadius(*v),
            Setting::CenterFillColor(v) => SettingView::CenterFillColor(*v),
            Setting::RadiusFillColor(v) => SettingView::RadiusFillColor(*v),
            Setting::ProgressFillColor(v) => SettingView::ProgressFillColor(*v),
            Setting::ProgressFont(v) => SettingView::ProgressFont(v.deep_view()),
            Setting::FractionFontSize(v) => SettingView::FractionFontSize(*v),
            Setting::CenterTextFontSize(v) => SettingView::CenterTextFontSize(*v),
            Setting::CenterText(v) => SettingView::CenterText(v.deep_view()),
            Setting::Fraction(v) => SettingView::Fraction(*v),
            Setting::LineWidth(v) => SettingView::LineWidth(*v),
        }
    }
}

/// `a` with the one property that `s` names replaced by its new value.
pub open spec fn with_setting(a: Appearance, s: SettingView) -> Appearance {
    match s {
        SettingView::FillCenter(v) => Appearance { fill_center: v, ..a },
        SettingView::FillRadius(v) => Appearance { fill_radius: v, ..a },
        SettingView::CenterFillColor(v) => Appearance { center_fill_color: v, ..a },
        SettingView::RadiusFillColor(v) => Appearance { radius_fill_color: v, ..a },
        SettingView::ProgressFillColor(v) => Appearance { progress_fill_color: v, ..a },
        SettingView::ProgressFont(v) => Appearance { progress_font: v, ..a },
        SettingView::FractionFontSize(v) => Appearance { fraction_font_size: v, ..a },
        SettingView::CenterTextFontSize(v) => Appearance { center_text_font_size: v, ..a },
        SettingView::CenterText(v) => Appearance { center_text: v, ..a },
        SettingView::Fraction(v) => Appearance { fraction: v, ..a },
        SettingView::LineWidth(v) => Appearance { line_width: v, ..a },
    }
}

/// The bar after one property change: the value is stored and a repaint is asked for.
pub open spec fn after_setting(b: BarView, s: SettingView) -> BarView {
    BarView { appearance: with_setting(b.appearance, s), repaint_pending: true }
}

/// The bar after a run of property changes, applied in order.
pub open spec fn after_settings(b: BarView, changes: Seq<SettingView>) -> BarView
    decreases changes.len(),
{
    if changes.len() == 0 {
        b
    } else {
        after_setting(after_settings(b, changes.drop_last()), changes.last())
    }
}

/// The bar once a paint has taken the pending repaint.
pub open spec fn after_paint(b: BarView) -> BarView {
    BarView { repaint_pending: false, ..b }
}

/// Any non-empty run of property changes leaves exactly one repaint pending (the flag
/// is set, and a flag cannot count twice), whatever was pending before; and a paint
/// after them leaves none.
pub proof fn lemma_changes_schedule_one_repaint(b: BarView, changes: Seq<SettingView>)
    requires
        changes.len() > 0,
    ensures
        after_settings(b, changes).repaint_pending,
        !after_paint(after_settings(b, changes)).repaint_pending,
        after_paint(after_settings(b, changes)).appearance == after_settings(b, changes).appearance,
{
}

/// The state of a circular progress bar. Every change of a property that painting
/// reads marks the bar as needing a repaint; the host takes that mark when it paints.
pub struct CircularProgressBar {
    fill_center: bool,
    fill_radius: bool,
    center_fill_color: Option<Rgba>,
    radius_fill_color: Option<Rgba>,
    progress_fill_color: Option<Rgba>,
    progress_font: Option<String>,
    fraction_font_size: i32,
    center_text_font_size: i32,
    center_text: Option<String>,
    fraction: i32,
    line_width: i32,
    repaint_pending: bool,
}

impl View for CircularProgressBar {
    type V = BarView;

    closed spec fn view(&self) -> BarView {
        BarView {
            appearance: Appearance {
                fill_center: self.fill_center,
                fill_radius: self.fill_radius,
                center_fill_color: self.center_fill_color,
                radius_fill_color: self.radius_fill_color,
                progress_fill_color: self.progress_fill_color,
                progress_font: self.progress_font.deep_view(),
                fraction_font_size: self.fraction_font_size,
                center_text_font_size: self.center_text_font_size,
                center_text: self.center_text.deep_view(),
                fraction: self.fraction,
                line_width: self.line_width,
            },
            repaint_pending: self.repaint_pending,
        }
    }
}

fn text_of(s: &Option<String>) -> (r: Option<&str>)
    ensures
        r.deep_view() == s.deep_view(),
{
    match s {
        Some(t) => Some(t.as_str()),
        None => None,
    }
}

impl CircularProgressBar {
    /// A bar with nothing set. It has never been painted, so a paint is owed.
    pub fn new() -> (b: CircularProgressBar)
        ensures
            b@ == (BarView { appearance: initial_appearance(), repaint_pending: true }),
    {
        let b = CircularProgressBar {
            fill_center: false,
            fill_radius: false,
            center_fill_color: None,
            radius_fill_color: None,
            progress_fill_color: None,
            progress_font: None,
            fraction_font_size: 0,
            center_text_font_size: 0,
            center_text: None,
            fraction: 0,
            line_width: 0,
            repaint_pending: true,
        };
        assert(b@.appearance.progress_font == None::<Seq<char>>);
        assert(b@.appearance.center_text == None::<Seq<char>>);
        b
    }

    /// Stores one property and asks for a repaint.
    pub fn apply(&mut self, s: Setting)
        ensures
            final(self)@ == after_setting(old(self)@, s@),
    {
        match s {
            Setting::FillCenter(v) => self.fill_center = v,
            Setting::FillRadius(v) => self.fill_radius = v,
            Setting::CenterFillColor(v) => self.center_fill_color = v,
            Setting::RadiusFillColor(v) => self.radius_fill_color = v,
            Setting::ProgressFillColor(v) => self.progress_fill_color = v,
            Setting::ProgressFont(v) => self.progress_font = v,
            Setting::FractionFontSize(v) => self.fraction_font_size = v,
            Setting::CenterTextFontSize(v) => self.center_text_font_size = v,
            Setting::CenterText(v) => self.center_text = v,
            Setting::Fraction(v) => self.fraction = v,
            Setting::LineWidth(v) => self.line_width = v,
        }
        self.repaint_pending = true;
    }

    /// Whether the centre disk is filled.
    pub fn fill_center(&self) -> (r: bool)
        ensures
            r == self@.appearance.fill_center,
    {
        self.fill_center
    }

    /// Whether the outer ring is stroked.
    pub fn fill_radius(&self) -> (r: bool)
        ensures
            r == self@.appearance.fill_radius,
    {
        self.fill_radius
    }

    /// The centre disk's colour, if one was set.
    pub fn center_fill_color(&self) -> (r: Option<Rgba>)
        ensures
            r == self@.appearance.center_fill_color,
    {
        self.center_fill_color
    }

    /// The outer ring's colour, if one was set.
    pub fn radius_fill_color(&self) -> (r: Option<Rgba>)
        ensures
            r == self@.appearance.radius_fill_color,
    {
        self.radius_fill_color
    }

    /// The progress arc's colour, if one was set.
    pub fn progress_fill_color(&self) -> (r: Option<Rgba>)
        ensures
            r == self@.appearance.progress_fill_color,
    {
        self.progress_fill_color
    }

    /// The font family of both labels, if one was set.
    pub fn progress_font(&self) -> (r: Option<&str>)
        ensures
            r.deep_view() == self@.appearance.progress_font,
    {
        text_of(&self.progress_font)
    }

    /// The size of the percentage label's font.
    pub fn fraction_font_size(&self) -> (r: i32)
        ensures
            r == self@.appearance.fraction_font_size,
    {
        self.fraction_font_size
    }

    /// The size of the lower label's font.
    pub fn center_text_font_size(&self) -> (r: i32)
        ensures
            r == self@.appearance.center_text_font_size,
    {
        self.center_text_font_size
    }

    /// The text of the lower label, if one was set.
    pub fn center_text(&self) -> (r: Option<&str>)
        ensures
            r.deep_view() == self@.appearance.center_text,
    {
        text_of(&self.center_text)
    }

    /// Progress in millionths.
    pub fn fraction(&self) -> (r: i32)
        ensures
            r == self@.appearance.fraction,
    {
        self.fraction
    }

    /// Requested stroke width in sub-pixel units.
    pub fn line_width(&self) -> (r: i32)
        ensures
            r == self@.appearance.line_width,
    {
        self.line_width
    }

    /// Sets whether to fill the centre disk. Asks for a repaint.
    pub fn set_fill_center(&mut self, v: bool)
        ensures
            final(self)@ == after_setting(old(self)@, SettingView::FillCenter(v)),
    {
        self.apply(Setting::FillCenter(v));
    }

    /// Sets whether to stroke the outer ring. Asks for a repaint.
    pub fn set_fill_radius(&mut self, v: bool)
        ensures
            final(self)@ == after_setting(old(self)@, SettingView::FillRadius(v)),
    {
        self.apply(Setting::FillRadius(v));
    }

    /// Sets the centre disk's colour; `None` for the default. Asks for a repaint.
    pub fn set_center_fill_color(&mut self, v: Option<Rgba>)
        ensures
            final(self)@ == after_setting(old(self)@, SettingView::CenterFillColor(v)),
    {
        self.apply(Setting::CenterFillColor(v));
    }

    /// Sets the outer ring's colour; `None` for the default. Asks for a repaint.
    pub fn set_radius_fill_color(&mut self, v: Option<Rgba>)
        ensures
            final(self)@ == after_setting(old(self)@, SettingView::RadiusFillColor(v)),
    {
        self.apply(Setting::RadiusFillColor(v));
    }

    /// Sets the progress arc's colour; `None` for the default. Asks for a repaint.
    pub fn set_progress_fill_color(&mut self, v: Option<Rgba>)
        ensures
            final(self)@ == after_setting(old(self)@, SettingView::ProgressFillColor(v)),
    {
        self.apply(Setting::ProgressFillColor(v));
    }

    /// Sets the labels' font family; `None` for the default. Asks for a repaint.
    pub fn set_progress_font(&mut self, v: Option<String>)
        ensures
            final(self)@ == after_setting(old(self)@, SettingView::ProgressFont(v.deep_view())),
    {
        self.apply(Setting::ProgressFont(v));
    }

    /// Sets the size of the percentage label's font. Asks for a repaint.
    pub fn set_fraction_font_size(&mut self, v: i32)
        ensures
            final(self)@ == after_setting(old(self)@, SettingView::FractionFontSize(v)),
    {
        self.apply(Setting::FractionFontSize(v));
    }

    /// Sets the size of the lower label's font. Asks for a repaint.
    pub fn set_center_text_font_size(&mut self, v: i32)
        ensures
            final(self)@ == after_setting(old(self)@, SettingView::CenterTextFontSize(v)),
    {
        self.apply(Setting::CenterTextFontSize(v));
    }

    /// Sets the lower label's text; `None` for the default. Asks for a repaint.
    pub fn set_center_text(&mut self, v: Option<String>)
        ensures
            final(self)@ == after_setting(old(self)@, SettingView::CenterText(v.deep_view())),
    {
        self.apply(Setting::CenterText(v));
    }

    /// Sets progress in millionths; not clamped. Asks for a repaint.
    pub fn set_fraction(&mut self, v: i32)
        ensures
            final(self)@ == after_setting(old(self)@, SettingView::Fraction(v)),
    {
        self.apply(Setting::Fraction(v));
    }

    /// Sets stroke width in sub-pixel units. Asks for a repaint.
    pub fn set_line_width(&mut self, v: i32)
        ensures
            final(self)@ == after_setting(old(self)@, SettingView::LineWidth(v)),
    {
        self.apply(Setting::LineWidth(v));
    }

    /// Whether a repaint has been asked for since the last paint.
    pub fn repaint_pending(&self) -> (r: bool)
        ensures
            r == self@.repaint_pending,
    {
        self.repaint_pending
    }

    /// Takes the pending repaint, if any: the host calls this when it paints, or to
    /// learn whether it must schedule one.
    pub fn take_repaint(&mut self) -> (r: bool)
        ensures
            r == old(self)@.repaint_pending,
            final(self)@ == after_paint(old(self)@),
    {
        let r = self.repaint_pending;
        self.repaint_pending = false;
        r
    }
}

impl Default for CircularProgressBar {
    fn default() -> (b: CircularProgressBar)
        ensures
            b@ == (BarView { appearance: initial_appearance(), repaint_pending: true }),
    {
        CircularProgressBar::new()
    }
}

} // verus!

use circular_progress::color::Rgba;
use circular_progress::state::{CircularProgressBar, Setting};

#[test]
fn a_new_bar_is_unset_and_owes_a_paint() {
    let bar = CircularProgressBar::default();
    assert!(!bar.fill_center());
    assert!(!bar.fill_radius());
    assert_eq!(bar.center_fill_color(), None);
    assert_eq!(bar.radius_fill_color(), None);
    assert_eq!(bar.progress_fill_color(), None);
    assert_eq!(bar.progress_font(), None);
    assert_eq!(bar.center_text(), None);
    assert_eq!(bar.fraction_font_size(), 0);
    assert_eq!(bar.center_text_font_size(), 0);
    assert_eq!(bar.fraction(), 0);
    assert_eq!(bar.line_width(), 0);
    assert!(bar.repaint_pending());
}

#[test]
fn every_setter_asks_for_a_repaint() {
    let mut bar = CircularProgressBar::new();
    let changes: Vec<Box<dyn Fn(&mut CircularProgressBar)>> = vec![
        Box::new(|b| b.set_fill_center(true)),
        Box::new(|b| b.set_fill_radius(true)),
        Box::new(|b| b.set_center_fill_color(Some(Rgba::new(1, 2, 3, 4)))),
        Box::new(|b| b.set_radius_fill_color(None)),
        Box::new(|b| b.set_progress_fill_color(Some(Rgba::new(5, 6, 7, 8)))),
        Box::new(|b| b.set_progress_font(Some("Serif".to_string()))),
        Box::new(|b| b.set_fraction_font_size(20)),
        Box::new(|b| b.set_center_text_font_size(10)),
        Box::new(|b| b.set_center_text(Some("LOAD".to_string()))),
        Box::new(|b| b.set_fraction(250_000)),
        Box::new(|b| b.set_line_width(3 * 1024)),
    ];
    for change in &changes {
        assert!(bar.take_repaint() || !bar.repaint_pending());
        assert!(!bar.repaint_pending());
        change(&mut bar);
        assert!(bar.repaint_pending());
    }
    assert!(bar.fill_center());
    assert!(bar.fill_radius());
    assert_eq!(bar.center_fill_color(), Some(Rgba::new(1, 2, 3, 4)));
    assert_eq!(bar.progress_fill_color(), Some(Rgba::new(5, 6, 7, 8)));
    assert_eq!(bar.progress_font(), Some("Serif"));
    assert_eq!(bar.fraction_font_size(), 20);
    assert_eq!(bar.center_text_font_size(), 10);
    assert_eq!(bar.center_text(), Some("LOAD"));
    assert_eq!(bar.fraction(), 250_000);
    assert_eq!(bar.line_width(), 3 * 1024);
}

#[test]
fn repeated_changes_leave_one_repaint() {
    let mut bar = CircularProgressBar::new();
    assert!(bar.take_repaint());
    assert!(!bar.take_repaint());
    bar.set_fraction(1);
    bar.set_fraction(2);
    bar.apply(Setting::LineWidth(7));
    assert!(bar.take_repaint());
    assert!(!bar.take_repaint());
    assert_eq!(bar.fraction(), 2);
    assert_eq!(bar.line_width(), 7);
}

#[test]
fn setting_the_same_value_still_asks_for_a_repaint() {
    let mut bar = CircularProgressBar::new();
    let _ = bar.take_repaint();
    bar.set_fill_center(false);
    assert!(bar.repaint_pending());
}

use maestro_tui::layout::Rect;
use maestro_tui::style::Color;
use maestro_tui::terminal::{
    cell_position, cell_style, convert_color, scroll_allowed, AnsiColor, NamedColor, Rgb,
};
use maestro_tui::theme;

#[test]
fn test_convert_color_named() {
    assert_eq!(convert_color(AnsiColor::Named(NamedColor::Red)), theme::red());
    assert_eq!(convert_color(AnsiColor::Named(NamedColor::Green)), theme::green());
    assert_eq!(convert_color(AnsiColor::Named(NamedColor::BrightBlue)), theme::purple());
}

#[test]
fn test_convert_color_rgb() {
    let rgb = Rgb { r: 255, g: 128, b: 64 };
    assert_eq!(convert_color(AnsiColor::Spec(rgb)), Color::Rgb(255, 128, 64));
}

#[test]
fn test_convert_color_indexed() {
    assert_eq!(convert_color(AnsiColor::Indexed(42)), Color::Indexed(42));
}

// --- further cases ---

#[test]
fn convert_color_covers_the_palette() {
    assert_eq!(convert_color(AnsiColor::Named(NamedColor::Black)), theme::black());
    assert_eq!(convert_color(AnsiColor::Named(NamedColor::White)), theme::tx());
    assert_eq!(convert_color(AnsiColor::Named(NamedColor::BrightBlack)), theme::tx_3());
    assert_eq!(convert_color(AnsiColor::Named(NamedColor::BrightRed)), theme::orange());
    assert_eq!(convert_color(AnsiColor::Named(NamedColor::BrightWhite)), theme::paper());
    assert_eq!(convert_color(AnsiColor::Named(NamedColor::Foreground)), Color::Reset);
    assert_eq!(convert_color(AnsiColor::Named(NamedColor::DimRed)), Color::Reset);
}

#[test]
fn scroll_stops_at_history_ends() {
    assert!(scroll_allowed(3, 0, 10));
    assert!(!scroll_allowed(3, 10, 10));
    assert!(!scroll_allowed(-3, 0, 10));
    assert!(scroll_allowed(-3, 4, 10));
    assert!(scroll_allowed(0, 0, 0));
}

#[test]
fn cell_positions_follow_the_view() {
    let area = Rect::new(2, 3, 10, 5);
    assert_eq!(cell_position(0, 0, 0, area), Some((2, 3)));
    assert_eq!(cell_position(4, -2, 3, area), Some((6, 4)));
    assert_eq!(cell_position(10, 0, 0, area), None);
    assert_eq!(cell_position(0, -1, 0, area), None);
    assert_eq!(cell_position(0, 5, 0, area), None);
    assert_eq!(cell_position(0, 4, 0, area), Some((2, 7)));
}

#[test]
fn cell_style_adds_flags() {
    let s = cell_style(
        AnsiColor::Named(NamedColor::Red),
        AnsiColor::Indexed(3),
        true,
        false,
        true,
    );
    assert_eq!(s.fg, Some(theme::red()));
    assert_eq!(s.bg, Some(Color::Indexed(3)));
    assert!(s.add_modifier.bold && !s.add_modifier.italic && s.add_modifier.underlined);
}

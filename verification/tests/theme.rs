use std::collections::HashSet;

use maestro_tui::style::Color;
use maestro_tui::theme::{all_themes, default_theme, flexoki_dark};
use maestro_tui::ui::{active_tab_style, border_style, inactive_tab_style, mode_style};

#[test]
fn test_all_themes_not_empty() {
    assert!(!all_themes().is_empty());
}

#[test]
fn test_default_theme_in_all_themes() {
    let default = default_theme();
    assert!(all_themes().iter().any(|t| t.name == default.name));
}

#[test]
fn test_theme_border_colors_differ() {
    let theme = flexoki_dark();
    assert_ne!(theme.border_color(true), theme.border_color(false));
}

#[test]
fn test_themes_have_unique_names() {
    let themes = all_themes();
    let names: Vec<_> = themes.iter().map(|t| t.name).collect();
    let unique: HashSet<_> = names.iter().collect();
    assert_eq!(names.len(), unique.len());
}

#[test]
fn test_border_style_focused() {
    let style = border_style(true);
    assert_eq!(style.fg, Some(Color::Cyan));
}

#[test]
fn test_border_style_unfocused() {
    let style = border_style(false);
    assert_eq!(style.fg, Some(Color::DarkGray));
}

#[test]
fn test_mode_style_insert() {
    let style = mode_style(true);
    assert_eq!(style.fg, Some(Color::Black));
    assert_eq!(style.bg, Some(Color::Green));
}

#[test]
fn test_mode_style_normal() {
    let style = mode_style(false);
    assert_eq!(style.fg, Some(Color::Black));
    assert_eq!(style.bg, Some(Color::Cyan));
}

#[test]
fn test_active_tab_style() {
    let style = active_tab_style();
    assert_eq!(style.fg, Some(Color::Black));
    assert_eq!(style.bg, Some(Color::Cyan));
}

#[test]
fn test_inactive_tab_style() {
    let style = inactive_tab_style();
    assert_eq!(style.fg, Some(Color::White));
    assert_eq!(style.bg, Some(Color::DarkGray));
}

// --- further cases ---

#[test]
fn themes_listed_in_order_with_default_first() {
    let names: Vec<&str> = all_themes().iter().map(|t| t.name).collect();
    assert_eq!(names, vec!["Flexoki Dark", "Dracula", "Nord", "Catppuccin", "Gruvbox"]);
    assert_eq!(default_theme(), all_themes()[0]);
}

#[test]
fn every_theme_tells_focus_by_border() {
    for t in all_themes() {
        assert_eq!(t.border_color(true), t.accent);
        assert_eq!(t.border_color(false), t.tx_muted);
        assert_ne!(t.border_color(true), t.border_color(false));
        assert_eq!(t.active_tab_colors(), (t.bg, t.accent));
        assert_eq!(t.inactive_control_tab_colors(), (t.accents.purple, t.ui));
        assert_eq!(t.status_action_color(), t.highlight);
    }
}

#[test]
fn palette_colors_are_exact() {
    assert_eq!(maestro_tui::theme::red(), Color::Rgb(0xD1, 0x4D, 0x41));
    assert_eq!(maestro_tui::theme::cyan(), Color::Rgb(0x3A, 0xA9, 0x9F));
    assert_eq!(maestro_tui::theme::paper(), Color::Rgb(0xCE, 0xCB, 0xC4));
}

//! Fixed styles for borders, the mode indicator and tabs.

use vstd::prelude::*;
use crate::style::{Color, Style};

verus! {

/// Border style for focused/unfocused panes: cyan when focused, dark gray otherwise.
pub fn border_style(focused: bool) -> (r: Style)
    ensures
        r == (Style { fg: Some(if focused { Color::Cyan } else { Color::DarkGray }), ..Style::plain() }),
{
    if focused {
        Style::new().fg(Color::Cyan)
    } else {
        Style::new().fg(Color::DarkGray)
    }
}

/// Style for the mode indicator in the status bar: black on green in insert
/// mode, black on cyan otherwise.
pub fn mode_style(is_insert: bool) -> (r: Style)
    ensures
        r == (Style {
            fg: Some(Color::Black),
            bg: Some(if is_insert { Color::Green } else { Color::Cyan }),
            ..Style::plain()
        }),
{
    if is_insert {
        Style::new().fg(Color::Black).bg(Color::Green)
    } else {
        Style::new().fg(Color::Black).bg(Color::Cyan)
    }
}

/// Style for the active tab in the tab bar: black on cyan.
pub fn active_tab_style() -> (r: Style)
    ensures
        r == (Style { fg: Some(Color::Black), bg: Some(Color::Cyan), ..Style::plain() }),
{
    Style::new().fg(Color::Black).bg(Color::Cyan)
}

/// Style for inactive tabs in the tab bar: white on dark gray.
pub fn inactive_tab_style() -> (r: Style)
    ensures
        r == (Style { fg: Some(Color::White), bg: Some(Color::DarkGray), ..Style::plain() }),
{
    Style::new().fg(Color::White).bg(Color::DarkGray)
}

} // verus!

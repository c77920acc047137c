//! What the terminal pane decides about the emulator's screen: the colors of
//! its cells in the UI palette, where a cell of the grid is drawn, how it is
//! styled, and whether a scroll request can move the view.

use vstd::prelude::*;
use crate::layout::Rect;
use crate::style::{Color, Modifier, Style};
use crate::theme::{
    black, blue, cyan, green, magenta, orange, paper, purple, red, tx, tx_3, yellow,
};

verus! {

/// A color that the terminal emulator names rather than spells out.
#[derive(Debug, Clone, Copy, PartialEq, Eq, Structural)]
pub enum NamedColor {
    Black,
    Red,
    Green,
    Yellow,
    Blue,
    Magenta,
    Cyan,
    White,
    BrightBlack,
    BrightRed,
    BrightGreen,
    BrightYellow,
    BrightBlue,
    BrightMagenta,
    BrightCyan,
    BrightWhite,
    Foreground,
    Background,
    Cursor,
    DimBlack,
    DimRed,
    DimGreen,
    DimYellow,
    DimBlue,
    DimMagenta,
    DimCyan,
    DimWhite,
    BrightForeground,
    DimForeground,
}

/// A 24-bit color.
#[derive(Debug, Clone, Copy, PartialEq, Eq, Structural)]
pub struct Rgb {
    pub r: u8,
    pub g: u8,
    pub b: u8,
}

/// The color of a cell as the emulator holds it.
#[derive(Debug, Clone, Copy, PartialEq, Eq, Structural)]
pub enum AnsiColor {
    Named(NamedColor),
    Spec(Rgb),
    Indexed(u8),
}

/// The UI color of a named terminal color: the sixteen base colors map onto
/// the palette, every other name falls back to the terminal's default.
pub open spec fn named_color_spec(n: NamedColor) -> Color {
    match n {
        NamedColor::Black => black(),
        NamedColor::Red => red(),
        NamedColor::Green => green(),
        NamedColor::Yellow => yellow(),
        NamedColor::Blue => blue(),
        NamedColor::Magenta => magenta(),
        NamedColor::Cyan => cyan(),
        NamedColor::White => tx(),
        NamedColor::BrightBlack => tx_3(),
        NamedColor::BrightRed => orange(),
        NamedColor::BrightGreen => green(),
        NamedColor::BrightYellow => yellow(),
        NamedColor::BrightBlue => purple(),
        NamedColor::BrightMagenta => magenta(),
        NamedColor::BrightCyan => cyan(),
        NamedColor::BrightWhite => paper(),
        _ => Color::Reset,
    }
}

/// Whether `n` is one of the eight base terminal colors.
pub open spec fn is_base_color(n: NamedColor) -> bool {
    ||| n == NamedColor::Black
    ||| n == NamedColor::Red
    ||| n == NamedColor::Green
    ||| n == NamedColor::Yellow
    ||| n == NamedColor::Blue
    ||| n == NamedColor::Magenta
    ||| n == NamedColor::Cyan
    ||| n == NamedColor::White
}

/// The eight base terminal colors are drawn in eight different UI colors,
/// none of them the terminal's default; so no base color is drawn as another.
pub proof fn lemma_base_colors_distinct(a: NamedColor, b: NamedColor)
    requires
        is_base_color(a),
        is_base_color(b),
        a != b,
    ensures
        convert_color_spec(AnsiColor::Named(a)) != convert_color_spec(AnsiColor::Named(b)),
        convert_color_spec(AnsiColor::Named(a)) != Color::Reset,
{
}

/// Bright green, yellow, magenta and cyan are drawn in the same UI color as
/// the base color of the same name.
pub proof fn lemma_bright_colors_follow_base()
    ensures
        convert_color_spec(AnsiColor::Named(NamedColor::BrightGreen)) == convert_color_spec(
            AnsiColor::Named(NamedColor::Green),
        ),
        convert_color_spec(AnsiColor::Named(NamedColor::BrightYellow)) == convert_color_spec(
            AnsiColor::Named(NamedColor::Yellow),
        ),
        convert_color_spec(AnsiColor::Named(NamedColor::BrightMagenta)) == convert_color_spec(
            AnsiColor::Named(NamedColor::Magenta),
        ),
        convert_color_spec(AnsiColor::Named(NamedColor::BrightCyan)) == convert_color_spec(
            AnsiColor::Named(NamedColor::Cyan),
        ),
{
}

/// The UI color of a cell color.
pub open spec fn convert_color_spec(c: AnsiColor) -> Color {
    match c {
        AnsiColor::Named(n) => named_color_spec(n),
        AnsiColor::Spec(rgb) => Color::Rgb(rgb.r, rgb.g, rgb.b),
        AnsiColor::Indexed(i) => Color::Indexed(i),
    }
}

/// The UI color of a cell color.
pub fn convert_color(color: AnsiColor) -> (r: Color)
    ensures
        r == convert_color_spec(color),
        color == AnsiColor::Named(NamedColor::Black) ==> r == Color::Rgb(0x10, 0x0F, 0x0F),
        color == AnsiColor::Named(NamedColor::Red) ==> r == Color::Rgb(0xD1, 0x4D, 0x41),
        color == AnsiColor::Named(NamedColor::Green) ==> r == Color::Rgb(0x87, 0x9A, 0x39),
        color == AnsiColor::Named(NamedColor::Yellow) ==> r == Color::Rgb(0xD0, 0xA2, 0x15),
        color == AnsiColor::Named(NamedColor::Blue) ==> r == Color::Rgb(0x43, 0x85, 0xBE),
        color == AnsiColor::Named(NamedColor::Magenta) ==> r == Color::Rgb(0xCE, 0x5D, 0x97),
        color == AnsiColor::Named(NamedColor::Cyan) ==> r == Color::Rgb(0x3A, 0xA9, 0x9F),
        color == AnsiColor::Named(NamedColor::BrightGreen) ==> r == Color::Rgb(0x87, 0x9A, 0x39),
        color == AnsiColor::Named(NamedColor::BrightYellow) ==> r == Color::Rgb(0xD0, 0xA2, 0x15),
        color == AnsiColor::Named(NamedColor::BrightMagenta) ==> r == Color::Rgb(0xCE, 0x5D, 0x97),
        color == AnsiColor::Named(NamedColor::BrightCyan) ==> r == Color::Rgb(0x3A, 0xA9, 0x9F),
{
    match color {
        AnsiColor::Named(named) => match named {
            NamedColor::Black => black(),
            NamedColor::Red => red(),
            NamedColor::Green => green(),
            NamedColor::Yellow => yellow(),
            NamedColor::Blue => blue(),
            NamedColor::Magenta => magenta(),
            NamedColor::Cyan => cyan(),
            NamedColor::White => tx(),
            NamedColor::BrightBlack => tx_3(),
            NamedColor::BrightRed => orange(),
            NamedColor::BrightGreen => green(),
            NamedColor::BrightYellow => yellow(),
            NamedColor::BrightBlue => purple(),
            NamedColor::BrightMagenta => magenta(),
            NamedColor::BrightCyan => cyan(),
            NamedColor::BrightWhite => paper(),
            _ => Color::Reset,
        },
        AnsiColor::Spec(rgb) => Color::Rgb(rgb.r, rgb.g, rgb.b),
        AnsiColor::Indexed(idx) => Color::Indexed(idx),
    }
}

/// Whether a scroll by `lines` (positive: back into history) can move a view
/// that is `display_offset` lines up in a history of `history_size` lines.
pub open spec fn scroll_allowed_spec(lines: i32, display_offset: usize, history_size: usize) -> bool {
    !(lines > 0 && display_offset >= history_size) && !(lines < 0 && display_offset == 0)
}

/// Whether a scroll by `lines` can move the view: not up at the top of the
/// history, not down at its bottom.
pub fn scroll_allowed(lines: i32, display_offset: usize, history_size: usize) -> (r: bool)
    ensures
        r == scroll_allowed_spec(lines, display_offset, history_size),
{
    if lines > 0 && display_offset >= history_size {
        return false;
    }
    if lines < 0 && display_offset == 0 {
        return false;
    }
    true
}

/// The screen row of grid line `line` when the view is `display_offset`
/// lines up in the history.
pub open spec fn screen_row(line: i32, display_offset: i32) -> int {
    line + display_offset
}

/// Where a cell at `column` of grid line `line` is drawn in `area`: nowhere
/// when it falls outside the area, else at the area's origin moved by the
/// column and the screen row.
pub open spec fn cell_position_spec(column: u16, line: i32, display_offset: i32, area: Rect) -> Option<(u16, u16)> {
    let y = screen_row(line, display_offset);
    if column >= area.width || y < 0 || y >= area.height || area.x + column > u16::MAX || area.y
        + y > u16::MAX {
        None
    } else {
        Some(((area.x + column) as u16, (area.y + y) as u16))
    }
}

/// Where a cell at `column` of grid line `line` is drawn in `area`, if it
/// is drawn at all.
pub fn cell_position(column: u16, line: i32, display_offset: i32, area: Rect) -> (r: Option<(u16, u16)>)
    ensures
        r == cell_position_spec(column, line, display_offset, area),
{
    let y: i64 = line as i64 + display_offset as i64;
    if column >= area.width || y < 0 || y >= area.height as i64 {
        return None;
    }
    let yy: u16 = y as u16;
    let sx: u32 = area.x as u32 + column as u32;
    let sy: u32 = area.y as u32 + yy as u32;
    if sx > 0xFFFF || sy > 0xFFFF {
        return None;
    }
    Some((sx as u16, sy as u16))
}

/// The style of a cell: its colors, then bold, italic and underline as the
/// cell's flags ask.
pub open spec fn cell_style_spec(fg: AnsiColor, bg: AnsiColor, bold: bool, italic: bool, underlined: bool) -> Style {
    let base = Style { fg: Some(convert_color_spec(fg)), bg: Some(convert_color_spec(bg)), ..Style::plain() };
    let m = Modifier {
        bold: bold,
        italic: italic,
        underlined: underlined,
        ..Modifier::none_spec()
    };
    base.with_modifier(m)
}

/// The style of a cell with colors `fg` and `bg` and the given emphases.
pub fn cell_style(fg: AnsiColor, bg: AnsiColor, bold: bool, italic: bool, underlined: bool) -> (r: Style)
    ensures
        r == cell_style_spec(fg, bg, bold, italic, underlined),
{
    let mut style = Style::new().fg(convert_color(fg)).bg(convert_color(bg));
    if bold {
        style = style.add_modifier(Modifier::bold());
    }
    if italic {
        style = style.add_modifier(Modifier::italic());
    }
    if underlined {
        style = style.add_modifier(Modifier::underlined());
    }
    style
}

} // verus!

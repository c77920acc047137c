//! Color themes that can be selected at run time.

use vstd::prelude::*;
use crate::style::Color;

verus! {

/// Accent colors used throughout the UI.
#[derive(Debug, Clone, Copy, PartialEq)]
pub struct AccentColors {
    pub red: Color,
    pub orange: Color,
    pub yellow: Color,
    pub green: Color,
    pub cyan: Color,
    pub blue: Color,
    pub purple: Color,
    pub magenta: Color,
}

/// A color theme for the application.
#[derive(Debug, Clone, Copy, PartialEq)]
pub struct Theme {
    pub name: &'static str,
    /// Background color
    pub bg: Color,
    /// Secondary background
    pub bg2: Color,
    /// UI element background
    pub ui: Color,
    /// Muted text color
    pub tx_muted: Color,
    /// Normal text color
    pub tx: Color,
    /// Bright/highlight color
    pub highlight: Color,
    /// Primary accent (used for focus, active tabs)
    pub accent: Color,
    /// Accent colors for semantic highlighting
    pub accents: AccentColors,
}

impl Theme {
    /// Border color: the accent when focused, the muted text color otherwise.
    pub open spec fn border_spec(&self, focused: bool) -> Color {
        if focused {
            self.accent
        } else {
            self.tx_muted
        }
    }

    /// Border color: the accent when focused, the muted text color otherwise.
    pub fn border_color(&self, focused: bool) -> (r: Color)
        ensures
            r == self.border_spec(focused),
    {
        if focused {
            self.accent
        } else {
            self.tx_muted
        }
    }

    /// Active tab colors (fg, bg).
    pub fn active_tab_colors(&self) -> (r: (Color, Color))
        ensures
            r == (self.bg, self.accent),
    {
        (self.bg, self.accent)
    }

    /// Inactive tab colors (fg, bg).
    pub fn inactive_tab_colors(&self) -> (r: (Color, Color))
        ensures
            r == (self.tx, self.ui),
    {
        (self.tx, self.ui)
    }

    /// Active control tab colors (fg, bg): purple, to tell it from worktree tabs.
    pub fn active_control_tab_colors(&self) -> (r: (Color, Color))
        ensures
            r == (self.bg, self.accents.purple),
    {
        (self.bg, self.accents.purple)
    }

    /// Inactive control tab colors (fg, bg).
    pub fn inactive_control_tab_colors(&self) -> (r: (Color, Color))
        ensures
            r == (self.accents.purple, self.ui),
    {
        (self.accents.purple, self.ui)
    }

    /// Status bar key colors (fg, bg).
    pub fn status_key_colors(&self) -> (r: (Color, Color))
        ensures
            r == (self.bg, self.accents.green),
    {
        (self.bg, self.accents.green)
    }

    /// Status bar action text color.
    pub fn status_action_color(&self) -> (r: Color)
        ensures
            r == self.highlight,
    {
        self.highlight
    }
}

/// Flexoki Dark (https://stephango.com/flexoki).
pub open spec fn flexoki_dark_spec() -> Theme {
    Theme {
        name: "Flexoki Dark",
        bg: Color::Rgb(0x1C, 0x1B, 0x1A),
        bg2: Color::Rgb(0x28, 0x27, 0x26),
        ui: Color::Rgb(0x34, 0x33, 0x31),
        tx_muted: Color::Rgb(0x6F, 0x6E, 0x69),
        tx: Color::Rgb(0x87, 0x85, 0x80),
        highlight: Color::Rgb(0xCE, 0xCB, 0xC4),
        accent: Color::Rgb(0x3A, 0xA9, 0x9F),
        accents: AccentColors {
            red: Color::Rgb(0xD1, 0x4D, 0x41),
            orange: Color::Rgb(0xDA, 0x70, 0x2C),
            yellow: Color::Rgb(0xD0, 0xA2, 0x15),
            green: Color::Rgb(0x87, 0x9A, 0x39),
            cyan: Color::Rgb(0x3A, 0xA9, 0x9F),
            blue: Color::Rgb(0x43, 0x85, 0xBE),
            purple: Color::Rgb(0x8B, 0x7E, 0xC8),
            magenta: Color::Rgb(0xCE, 0x5D, 0x97),
        },
    }
}

/// Flexoki Dark (https://stephango.com/flexoki).
pub fn flexoki_dark() -> (r: Theme)
    ensures
        r == flexoki_dark_spec(),
{
    Theme {
        name: "Flexoki Dark",
        bg: Color::Rgb(0x1C, 0x1B, 0x1A),
        bg2: Color::Rgb(0x28, 0x27, 0x26),
        ui: Color::Rgb(0x34, 0x33, 0x31),
        tx_muted: Color::Rgb(0x6F, 0x6E, 0x69),
        tx: Color::Rgb(0x87, 0x85, 0x80),
        highlight: Color::Rgb(0xCE, 0xCB, 0xC4),
        accent: Color::Rgb(0x3A, 0xA9, 0x9F),
        accents: AccentColors {
            red: Color::Rgb(0xD1, 0x4D, 0x41),
            orange: Color::Rgb(0xDA, 0x70, 0x2C),
            yellow: Color::Rgb(0xD0, 0xA2, 0x15),
            green: Color::Rgb(0x87, 0x9A, 0x39),
            cyan: Color::Rgb(0x3A, 0xA9, 0x9F),
            blue: Color::Rgb(0x43, 0x85, 0xBE),
            purple: Color::Rgb(0x8B, 0x7E, 0xC8),
            magenta: Color::Rgb(0xCE, 0x5D, 0x97),
        },
    }
}

/// Dracula (https://draculatheme.com).
pub open spec fn dracula_spec() -> Theme {
    Theme {
        name: "Dracula",
        bg: Color::Rgb(0x28, 0x2A, 0x36),
        bg2: Color::Rgb(0x44, 0x47, 0x5A),
        ui: Color::Rgb(0x44, 0x47, 0x5A),
        tx_muted: Color::Rgb(0x62, 0x72, 0xA4),
        tx: Color::Rgb(0xBD, 0xBF, 0xC3),
        highlight: Color::Rgb(0xF8, 0xF8, 0xF2),
        accent: Color::Rgb(0xBD, 0x93, 0xF9),
        accents: AccentColors {
            red: Color::Rgb(0xFF, 0x55, 0x55),
            orange: Color::Rgb(0xFF, 0xB8, 0x6C),
            yellow: Color::Rgb(0xF1, 0xFA, 0x8C),
            green: Color::Rgb(0x50, 0xFA, 0x7B),
            cyan: Color::Rgb(0x8B, 0xE9, 0xFD),
            blue: Color::Rgb(0x6B, 0xE5, 0xF3),
            purple: Color::Rgb(0xBD, 0x93, 0xF9),
            magenta: Color::Rgb(0xFF, 0x79, 0xC6),
        },
    }
}

/// Dracula (https://draculatheme.com).
pub fn dracula() -> (r: Theme)
    ensures
        r == dracula_spec(),
{
    Theme {
        name: "Dracula",
        bg: Color::Rgb(0x28, 0x2A, 0x36),
        bg2: Color::Rgb(0x44, 0x47, 0x5A),
        ui: Color::Rgb(0x44, 0x47, 0x5A),
        tx_muted: Color::Rgb(0x62, 0x72, 0xA4),
        tx: Color::Rgb(0xBD, 0xBF, 0xC3),
        highlight: Color::Rgb(0xF8, 0xF8, 0xF2),
        accent: Color::Rgb(0xBD, 0x93, 0xF9),
        accents: AccentColors {
            red: Color::Rgb(0xFF, 0x55, 0x55),
            orange: Color::Rgb(0xFF, 0xB8, 0x6C),
            yellow: Color::Rgb(0xF1, 0xFA, 0x8C),
            green: Color::Rgb(0x50, 0xFA, 0x7B),
            cyan: Color::Rgb(0x8B, 0xE9, 0xFD),
            blue: Color::Rgb(0x6B, 0xE5, 0xF3),
            purple: Color::Rgb(0xBD, 0x93, 0xF9),
            magenta: Color::Rgb(0xFF, 0x79, 0xC6),
        },
    }
}

/// Nord (https://www.nordtheme.com).
pub open spec fn nord_spec() -> Theme {
    Theme {
        name: "Nord",
        bg: Color::Rgb(0x2E, 0x34, 0x40),
        bg2: Color::Rgb(0x3B, 0x42, 0x52),
        ui: Color::Rgb(0x43, 0x4C, 0x5E),
        tx_muted: Color::Rgb(0x4C, 0x56, 0x6A),
        tx: Color::Rgb(0xD8, 0xDE, 0xE9),
        highlight: Color::Rgb(0xEC, 0xEF, 0xF4),
        accent: Color::Rgb(0x88, 0xC0, 0xD0),
        accents: AccentColors {
            red: Color::Rgb(0xBF, 0x61, 0x6A),
            orange: Color::Rgb(0xD0, 0x87, 0x70),
            yellow: Color::Rgb(0xEB, 0xCB, 0x8B),
            green: Color::Rgb(0xA3, 0xBE, 0x8C),
            cyan: Color::Rgb(0x88, 0xC0, 0xD0),
            blue: Color::Rgb(0x81, 0xA1, 0xC1),
            purple: Color::Rgb(0xB4, 0x8E, 0xAD),
            magenta: Color::Rgb(0xB4, 0x8E, 0xAD),
        },
    }
}

/// Nord (https://www.nordtheme.com).
pub fn nord() -> (r: Theme)
    ensures
        r == nord_spec(),
{
    Theme {
        name: "Nord",
        bg: Color::Rgb(0x2E, 0x34, 0x40),
        bg2: Color::Rgb(0x3B, 0x42, 0x52),
        ui: Color::Rgb(0x43, 0x4C, 0x5E),
        tx_muted: Color::Rgb(0x4C, 0x56, 0x6A),
        tx: Color::Rgb(0xD8, 0xDE, 0xE9),
        highlight: Color::Rgb(0xEC, 0xEF, 0xF4),
        accent: Color::Rgb(0x88, 0xC0, 0xD0),
        accents: AccentColors {
            red: Color::Rgb(0xBF, 0x61, 0x6A),
            orange: Color::Rgb(0xD0, 0x87, 0x70),
            yellow: Color::Rgb(0xEB, 0xCB, 0x8B),
            green: Color::Rgb(0xA3, 0xBE, 0x8C),
            cyan: Color::Rgb(0x88, 0xC0, 0xD0),
            blue: Color::Rgb(0x81, 0xA1, 0xC1),
            purple: Color::Rgb(0xB4, 0x8E, 0xAD),
            magenta: Color::Rgb(0xB4, 0x8E, 0xAD),
        },
    }
}

/// Catppuccin Mocha (https://catppuccin.com).
pub open spec fn catppuccin_mocha_spec() -> Theme {
    Theme {
        name: "Catppuccin",
        bg: Color::Rgb(0x1E, 0x1E, 0x2E),
        bg2: Color::Rgb(0x31, 0x32, 0x44),
        ui: Color::Rgb(0x45, 0x47, 0x5A),
        tx_muted: Color::Rgb(0x6C, 0x70, 0x86),
        tx: Color::Rgb(0xA6, 0xAD, 0xC8),
        highlight: Color::Rgb(0xCD, 0xD6, 0xF4),
        accent: Color::Rgb(0x89, 0xB4, 0xFA),
        accents: AccentColors {
            red: Color::Rgb(0xF3, 0x8B, 0xA8),
            orange: Color::Rgb(0xFA, 0xB3, 0x87),
            yellow: Color::Rgb(0xF9, 0xE2, 0xAF),
            green: Color::Rgb(0xA6, 0xE3, 0xA1),
            cyan: Color::Rgb(0x94, 0xE2, 0xD5),
            blue: Color::Rgb(0x89, 0xB4, 0xFA),
            purple: Color::Rgb(0xCB, 0xA6, 0xF7),
            magenta: Color::Rgb(0xF5, 0xC2, 0xE7),
        },
    }
}

/// Catppuccin Mocha (https://catppuccin.com).
pub fn catppuccin_mocha() -> (r: Theme)
    ensures
        r == catppuccin_mocha_spec(),
{
    Theme {
        name: "Catppuccin",
        bg: Color::Rgb(0x1E, 0x1E, 0x2E),
        bg2: Color::Rgb(0x31, 0x32, 0x44),
        ui: Color::Rgb(0x45, 0x47, 0x5A),
        tx_muted: Color::Rgb(0x6C, 0x70, 0x86),
        tx: Color::Rgb(0xA6, 0xAD, 0xC8),
        highlight: Color::Rgb(0xCD, 0xD6, 0xF4),
        accent: Color::Rgb(0x89, 0xB4, 0xFA),
        accents: AccentColors {
            red: Color::Rgb(0xF3, 0x8B, 0xA8),
            orange: Color::Rgb(0xFA, 0xB3, 0x87),
            yellow: Color::Rgb(0xF9, 0xE2, 0xAF),
            green: Color::Rgb(0xA6, 0xE3, 0xA1),
            cyan: Color::Rgb(0x94, 0xE2, 0xD5),
            blue: Color::Rgb(0x89, 0xB4, 0xFA),
            purple: Color::Rgb(0xCB, 0xA6, 0xF7),
            magenta: Color::Rgb(0xF5, 0xC2, 0xE7),
        },
    }
}

/// Gruvbox Dark (https://github.com/morhetz/gruvbox).
pub open spec fn gruvbox_dark_spec() -> Theme {
    Theme {
        name: "Gruvbox",
        bg: Color::Rgb(0x28, 0x28, 0x28),
        bg2: Color::Rgb(0x3C, 0x38, 0x36),
        ui: Color::Rgb(0x50, 0x49, 0x45),
        tx_muted: Color::Rgb(0x92, 0x83, 0x74),
        tx: Color::Rgb(0xBD, 0xAE, 0x93),
        highlight: Color::Rgb(0xEB, 0xDB, 0xB2),
        accent: Color::Rgb(0xFE, 0x80, 0x19),
        accents: AccentColors {
            red: Color::Rgb(0xFB, 0x49, 0x34),
            orange: Color::Rgb(0xFE, 0x80, 0x19),
            yellow: Color::Rgb(0xFA, 0xBD, 0x2F),
            green: Color::Rgb(0xB8, 0xBB, 0x26),
            cyan: Color::Rgb(0x8E, 0xC0, 0x7C),
            blue: Color::Rgb(0x83, 0xA5, 0x98),
            purple: Color::Rgb(0xD3, 0x86, 0x9B),
            magenta: Color::Rgb(0xD3, 0x86, 0x9B),
        },
    }
}

/// Gruvbox Dark (https://github.com/morhetz/gruvbox).
pub fn gruvbox_dark() -> (r: Theme)
    ensures
        r == gruvbox_dark_spec(),
{
    Theme {
        name: "Gruvbox",
        bg: Color::Rgb(0x28, 0x28, 0x28),
        bg2: Color::Rgb(0x3C, 0x38, 0x36),
        ui: Color::Rgb(0x50, 0x49, 0x45),
        tx_muted: Color::Rgb(0x92, 0x83, 0x74),
        tx: Color::Rgb(0xBD, 0xAE, 0x93),
        highlight: Color::Rgb(0xEB, 0xDB, 0xB2),
        accent: Color::Rgb(0xFE, 0x80, 0x19),
        accents: AccentColors {
            red: Color::Rgb(0xFB, 0x49, 0x34),
            orange: Color::Rgb(0xFE, 0x80, 0x19),
            yellow: Color::Rgb(0xFA, 0xBD, 0x2F),
            green: Color::Rgb(0xB8, 0xBB, 0x26),
            cyan: Color::Rgb(0x8E, 0xC0, 0x7C),
            blue: Color::Rgb(0x83, 0xA5, 0x98),
            purple: Color::Rgb(0xD3, 0x86, 0x9B),
            magenta: Color::Rgb(0xD3, 0x86, 0x9B),
        },
    }
}

/// The themes on offer, in order.
pub open spec fn themes_spec() -> Seq<Theme> {
    seq![flexoki_dark_spec(), dracula_spec(), nord_spec(), catppuccin_mocha_spec(), gruvbox_dark_spec()]
}

/// All available themes: Flexoki Dark, Dracula, Nord, Catppuccin Mocha and
/// Gruvbox Dark.
pub fn all_themes() -> (r: Vec<Theme>)
    ensures
        r@ == themes_spec(),
{
    let v = vec![flexoki_dark(), dracula(), nord(), catppuccin_mocha(), gruvbox_dark()];
    assert(v@ =~= themes_spec());
    v
}

/// The default theme (Flexoki Dark).
pub fn default_theme() -> (r: Theme)
    ensures
        r == flexoki_dark_spec(),
{
    flexoki_dark()
}

} // verus!

verus! {

/// Every theme on offer has a name of its own.
pub proof fn lemma_theme_names_unique()
    ensures
        forall|i: int, j: int|
            0 <= i < themes_spec().len() && 0 <= j < themes_spec().len() && i != j ==> (
            #[trigger] themes_spec()[i]).name@ != (#[trigger] themes_spec()[j]).name@,
{
    reveal_strlit("Flexoki Dark");
    reveal_strlit("Dracula");
    reveal_strlit("Nord");
    reveal_strlit("Catppuccin");
    reveal_strlit("Gruvbox");
    let t = themes_spec();
    assert(t[0].name@[0] == 'F');
    assert(t[1].name@[0] == 'D');
    assert(t[2].name@[0] == 'N');
    assert(t[3].name@[0] == 'C');
    assert(t[4].name@[0] == 'G');
}

/// The default theme is one of the themes on offer.
pub proof fn lemma_default_theme_listed()
    ensures
        themes_spec().contains(flexoki_dark_spec()),
{
    assert(themes_spec()[0] == flexoki_dark_spec());
}

/// In every theme, a focused pane's border looks different from an unfocused one's.
pub proof fn lemma_focus_changes_border()
    ensures
        forall|i: int|
            0 <= i < themes_spec().len() ==> (#[trigger] themes_spec()[i]).border_spec(true)
                != themes_spec()[i].border_spec(false),
{
}

} // verus!

verus! {

// Fixed colors used by the diff viewer, the terminal and the tab bar.

/// Black.
pub open spec fn black_spec() -> Color {
    Color::Rgb(0x10, 0x0F, 0x0F)
}

/// Black.
#[verifier::when_used_as_spec(black_spec)]
pub fn black() -> (r: Color)
    ensures
        r == black_spec(),
{
    Color::Rgb(0x10, 0x0F, 0x0F)
}
/// Background.
pub open spec fn bg_spec() -> Color {
    Color::Rgb(0x1C, 0x1B, 0x1A)
}

/// Background.
#[verifier::when_used_as_spec(bg_spec)]
pub fn bg() -> (r: Color)
    ensures
        r == bg_spec(),
{
    Color::Rgb(0x1C, 0x1B, 0x1A)
}
/// Secondary background.
pub open spec fn bg_2_spec() -> Color {
    Color::Rgb(0x28, 0x27, 0x26)
}

/// Secondary background.
#[verifier::when_used_as_spec(bg_2_spec)]
pub fn bg_2() -> (r: Color)
    ensures
        r == bg_2_spec(),
{
    Color::Rgb(0x28, 0x27, 0x26)
}
/// UI element background.
pub open spec fn ui_spec() -> Color {
    Color::Rgb(0x34, 0x33, 0x31)
}

/// UI element background.
#[verifier::when_used_as_spec(ui_spec)]
pub fn ui() -> (r: Color)
    ensures
        r == ui_spec(),
{
    Color::Rgb(0x34, 0x33, 0x31)
}
/// Hovered UI element.
pub open spec fn ui_2_spec() -> Color {
    Color::Rgb(0x40, 0x3E, 0x3C)
}

/// Hovered UI element.
#[verifier::when_used_as_spec(ui_2_spec)]
pub fn ui_2() -> (r: Color)
    ensures
        r == ui_2_spec(),
{
    Color::Rgb(0x40, 0x3E, 0x3C)
}
/// Active UI element.
pub open spec fn ui_3_spec() -> Color {
    Color::Rgb(0x57, 0x56, 0x53)
}

/// Active UI element.
#[verifier::when_used_as_spec(ui_3_spec)]
pub fn ui_3() -> (r: Color)
    ensures
        r == ui_3_spec(),
{
    Color::Rgb(0x57, 0x56, 0x53)
}
/// Faint text.
pub open spec fn tx_3_spec() -> Color {
    Color::Rgb(0x6F, 0x6E, 0x69)
}

/// Faint text.
#[verifier::when_used_as_spec(tx_3_spec)]
pub fn tx_3() -> (r: Color)
    ensures
        r == tx_3_spec(),
{
    Color::Rgb(0x6F, 0x6E, 0x69)
}
/// Muted text.
pub open spec fn tx_2_spec() -> Color {
    Color::Rgb(0x87, 0x85, 0x80)
}

/// Muted text.
#[verifier::when_used_as_spec(tx_2_spec)]
pub fn tx_2() -> (r: Color)
    ensures
        r == tx_2_spec(),
{
    Color::Rgb(0x87, 0x85, 0x80)
}
/// Normal text.
pub open spec fn tx_spec() -> Color {
    Color::Rgb(0xB7, 0xB5, 0xAC)
}

/// Normal text.
#[verifier::when_used_as_spec(tx_spec)]
pub fn tx() -> (r: Color)
    ensures
        r == tx_spec(),
{
    Color::Rgb(0xB7, 0xB5, 0xAC)
}
/// Paper (brightest text).
pub open spec fn paper_spec() -> Color {
    Color::Rgb(0xCE, 0xCB, 0xC4)
}

/// Paper (brightest text).
#[verifier::when_used_as_spec(paper_spec)]
pub fn paper() -> (r: Color)
    ensures
        r == paper_spec(),
{
    Color::Rgb(0xCE, 0xCB, 0xC4)
}
/// Red.
pub open spec fn red_spec() -> Color {
    Color::Rgb(0xD1, 0x4D, 0x41)
}

/// Red.
#[verifier::when_used_as_spec(red_spec)]
pub fn red() -> (r: Color)
    ensures
        r == red_spec(),
{
    Color::Rgb(0xD1, 0x4D, 0x41)
}
/// Orange.
pub open spec fn orange_spec() -> Color {
    Color::Rgb(0xDA, 0x70, 0x2C)
}

/// Orange.
#[verifier::when_used_as_spec(orange_spec)]
pub fn orange() -> (r: Color)
    ensures
        r == orange_spec(),
{
    Color::Rgb(0xDA, 0x70, 0x2C)
}
/// Yellow.
pub open spec fn yellow_spec() -> Color {
    Color::Rgb(0xD0, 0xA2, 0x15)
}

/// Yellow.
#[verifier::when_used_as_spec(yellow_spec)]
pub fn yellow() -> (r: Color)
    ensures
        r == yellow_spec(),
{
    Color::Rgb(0xD0, 0xA2, 0x15)
}
/// Green.
pub open spec fn green_spec() -> Color {
    Color::Rgb(0x87, 0x9A, 0x39)
}

/// Green.
#[verifier::when_used_as_spec(green_spec)]
pub fn green() -> (r: Color)
    ensures
        r == green_spec(),
{
    Color::Rgb(0x87, 0x9A, 0x39)
}
/// Cyan.
pub open spec fn cyan_spec() -> Color {
    Color::Rgb(0x3A, 0xA9, 0x9F)
}

/// Cyan.
#[verifier::when_used_as_spec(cyan_spec)]
pub fn cyan() -> (r: Color)
    ensures
        r == cyan_spec(),
{
    Color::Rgb(0x3A, 0xA9, 0x9F)
}
/// Blue.
pub open spec fn blue_spec() -> Color {
    Color::Rgb(0x43, 0x85, 0xBE)
}

/// Blue.
#[verifier::when_used_as_spec(blue_spec)]
pub fn blue() -> (r: Color)
    ensures
        r == blue_spec(),
{
    Color::Rgb(0x43, 0x85, 0xBE)
}
/// Purple.
pub open spec fn purple_spec() -> Color {
    Color::Rgb(0x8B, 0x7E, 0xC8)
}

/// Purple.
#[verifier::when_used_as_spec(purple_spec)]
pub fn purple() -> (r: Color)
    ensures
        r == purple_spec(),
{
    Color::Rgb(0x8B, 0x7E, 0xC8)
}
/// Magenta.
pub open spec fn magenta_spec() -> Color {
    Color::Rgb(0xCE, 0x5D, 0x97)
}

/// Magenta.
#[verifier::when_used_as_spec(magenta_spec)]
pub fn magenta() -> (r: Color)
    ensures
        r == magenta_spec(),
{
    Color::Rgb(0xCE, 0x5D, 0x97)
}

} // verus!

//! Colors, text styles and styled text, as the terminal UI draws them.

use vstd::prelude::*;

verus! {

/// A terminal color.
#[derive(Debug, Clone, Copy, PartialEq, Eq, Structural)]
pub enum Color {
    Reset,
    Black,
    Red,
    Green,
    Yellow,
    Blue,
    Magenta,
    Cyan,
    Gray,
    DarkGray,
    LightRed,
    LightGreen,
    LightYellow,
    LightBlue,
    LightMagenta,
    LightCyan,
    White,
    Rgb(u8, u8, u8),
    Indexed(u8),
}

/// A set of text emphases.
#[derive(Debug, Clone, Copy, PartialEq, Eq, Structural)]
pub struct Modifier {
    pub bold: bool,
    pub dim: bool,
    pub italic: bool,
    pub underlined: bool,
    pub slow_blink: bool,
    pub rapid_blink: bool,
    pub reversed: bool,
    pub hidden: bool,
    pub crossed_out: bool,
}

impl Modifier {
    /// No emphasis.
    pub fn empty() -> (r: Modifier)
        ensures
            r == Modifier::none_spec(),
    {
        Modifier {
            bold: false,
            dim: false,
            italic: false,
            underlined: false,
            slow_blink: false,
            rapid_blink: false,
            reversed: false,
            hidden: false,
            crossed_out: false,
        }
    }

    /// No emphasis.
    pub open spec fn none_spec() -> Modifier {
        Modifier {
            bold: false,
            dim: false,
            italic: false,
            underlined: false,
            slow_blink: false,
            rapid_blink: false,
            reversed: false,
            hidden: false,
            crossed_out: false,
        }
    }

    /// Bold only.
    pub fn bold() -> (r: Modifier)
        ensures
            r == (Modifier { bold: true, ..Modifier::none_spec() }),
    {
        Modifier { bold: true, ..Modifier::empty() }
    }

    /// Italic only.
    pub fn italic() -> (r: Modifier)
        ensures
            r == (Modifier { italic: true, ..Modifier::none_spec() }),
    {
        Modifier { italic: true, ..Modifier::empty() }
    }

    /// Underlined only.
    pub fn underlined() -> (r: Modifier)
        ensures
            r == (Modifier { underlined: true, ..Modifier::none_spec() }),
    {
        Modifier { underlined: true, ..Modifier::empty() }
    }

    /// Every emphasis of `self` or `other`.
    pub open spec fn union_spec(self, other: Modifier) -> Modifier {
        Modifier {
            bold: self.bold || other.bold,
            dim: self.dim || other.dim,
            italic: self.italic || other.italic,
            underlined: self.underlined || other.underlined,
            slow_blink: self.slow_blink || other.slow_blink,
            rapid_blink: self.rapid_blink || other.rapid_blink,
            reversed: self.reversed || other.reversed,
            hidden: self.hidden || other.hidden,
            crossed_out: self.crossed_out || other.crossed_out,
        }
    }

    /// Every emphasis of `self` that `other` lacks.
    pub open spec fn difference_spec(self, other: Modifier) -> Modifier {
        Modifier {
            bold: self.bold && !other.bold,
            dim: self.dim && !other.dim,
            italic: self.italic && !other.italic,
            underlined: self.underlined && !other.underlined,
            slow_blink: self.slow_blink && !other.slow_blink,
            rapid_blink: self.rapid_blink && !other.rapid_blink,
            reversed: self.reversed && !other.reversed,
            hidden: self.hidden && !other.hidden,
            crossed_out: self.crossed_out && !other.crossed_out,
        }
    }

    /// Every emphasis of `self` or `other`.
    pub fn union(self, other: Modifier) -> (r: Modifier)
        ensures
            r == self.union_spec(other),
    {
        Modifier {
            bold: self.bold || other.bold,
            dim: self.dim || other.dim,
            italic: self.italic || other.italic,
            underlined: self.underlined || other.underlined,
            slow_blink: self.slow_blink || other.slow_blink,
            rapid_blink: self.rapid_blink || other.rapid_blink,
            reversed: self.reversed || other.reversed,
            hidden: self.hidden || other.hidden,
            crossed_out: self.crossed_out || other.crossed_out,
        }
    }

    /// Every emphasis of `self` that `other` lacks.
    pub fn difference(self, other: Modifier) -> (r: Modifier)
        ensures
            r == self.difference_spec(other),
    {
        Modifier {
            bold: self.bold && !other.bold,
            dim: self.dim && !other.dim,
            italic: self.italic && !other.italic,
            underlined: self.underlined && !other.underlined,
            slow_blink: self.slow_blink && !other.slow_blink,
            rapid_blink: self.rapid_blink && !other.rapid_blink,
            reversed: self.reversed && !other.reversed,
            hidden: self.hidden && !other.hidden,
            crossed_out: self.crossed_out && !other.crossed_out,
        }
    }

    /// Whether `self` has every emphasis of `other`.
    pub open spec fn contains_spec(self, other: Modifier) -> bool {
        &&& other.bold ==> self.bold
        &&& other.dim ==> self.dim
        &&& other.italic ==> self.italic
        &&& other.underlined ==> self.underlined
        &&& other.slow_blink ==> self.slow_blink
        &&& other.rapid_blink ==> self.rapid_blink
        &&& other.reversed ==> self.reversed
        &&& other.hidden ==> self.hidden
        &&& other.crossed_out ==> self.crossed_out
    }

    /// Whether `self` has every emphasis of `other`.
    pub fn contains(&self, other: Modifier) -> (r: bool)
        ensures
            r == self.contains_spec(other),
    {
        (!other.bold || self.bold) && (!other.dim || self.dim) && (!other.italic || self.italic)
            && (!other.underlined || self.underlined) && (!other.slow_blink || self.slow_blink)
            && (!other.rapid_blink || self.rapid_blink) && (!other.reversed || self.reversed) && (
        !other.hidden || self.hidden) && (!other.crossed_out || self.crossed_out)
    }
}

/// How text is drawn: colors and emphases added or removed.
#[derive(Debug, Clone, Copy, PartialEq, Eq, Structural)]
pub struct Style {
    pub fg: Option<Color>,
    pub bg: Option<Color>,
    pub add_modifier: Modifier,
    pub sub_modifier: Modifier,
}

impl Style {
    /// The style that changes nothing.
    pub open spec fn plain() -> Style {
        Style {
            fg: None,
            bg: None,
            add_modifier: Modifier::none_spec(),
            sub_modifier: Modifier::none_spec(),
        }
    }

    /// This style with foreground `color`.
    pub open spec fn fg_spec(self, color: Color) -> Style {
        Style { fg: Some(color), ..self }
    }

    /// The style that changes nothing.
    pub fn new() -> (r: Style)
        ensures
            r == Style::plain(),
    {
        Style { fg: None, bg: None, add_modifier: Modifier::empty(), sub_modifier: Modifier::empty() }
    }

    /// This style with foreground `color`.
    pub fn fg(self, color: Color) -> (r: Style)
        ensures
            r == self.fg_spec(color),
    {
        Style { fg: Some(color), ..self }
    }

    /// This style with background `color`.
    pub fn bg(self, color: Color) -> (r: Style)
        ensures
            r == (Style { bg: Some(color), ..self }),
    {
        Style { bg: Some(color), ..self }
    }

    /// This style with the emphases of `m` added (and no longer removed).
    pub open spec fn with_modifier(self, m: Modifier) -> Style {
        Style {
            add_modifier: self.add_modifier.union_spec(m),
            sub_modifier: self.sub_modifier.difference_spec(m),
            ..self
        }
    }

    /// This style with the emphases of `m` added (and no longer removed).
    pub fn add_modifier(self, m: Modifier) -> (r: Style)
        ensures
            r == self.with_modifier(m),
    {
        Style {
            sub_modifier: self.sub_modifier.difference(m),
            add_modifier: self.add_modifier.union(m),
            ..self
        }
    }
}

impl Default for Style {
    fn default() -> (r: Style)
        ensures
            r == Style::plain(),
    {
        Style::new()
    }
}

/// A piece of text drawn in one style.
#[derive(Debug, Clone, PartialEq)]
pub struct Span {
    pub content: String,
    pub style: Style,
}

impl View for Span {
    type V = (Seq<char>, Style);

    open spec fn view(&self) -> (Seq<char>, Style) {
        (self.content@, self.style)
    }
}

impl Span {
    /// `content` drawn in `style`.
    pub fn styled(content: &str, style: Style) -> (r: Span)
        ensures
            r@ == (content@, style),
    {
        Span { content: String::from_str(content), style }
    }

    /// `content` drawn without any style.
    pub fn raw(content: &str) -> (r: Span)
        ensures
            r@ == (content@, Style::plain()),
    {
        Span { content: String::from_str(content), style: Style::new() }
    }

    /// A copy of this span.
    pub fn copy(&self) -> (r: Span)
        ensures
            r@ == self@,
    {
        Span { content: self.content.clone(), style: self.style }
    }
}

/// One line of styled text.
#[derive(Debug, Clone, PartialEq)]
pub struct Line {
    pub spans: Vec<Span>,
}

/// The views of a sequence of spans.
pub open spec fn span_views(spans: Seq<Span>) -> Seq<(Seq<char>, Style)> {
    spans.map_values(|s: Span| s@)
}

impl View for Line {
    type V = Seq<(Seq<char>, Style)>;

    open spec fn view(&self) -> Seq<(Seq<char>, Style)> {
        span_views(self.spans@)
    }
}

/// The views of a sequence of lines.
pub open spec fn line_views(lines: Seq<Line>) -> Seq<Seq<(Seq<char>, Style)>> {
    lines.map_values(|l: Line| l@)
}

impl Line {
    /// A line with no text.
    pub fn blank() -> (r: Line)
        ensures
            r@ == Seq::<(Seq<char>, Style)>::empty(),
    {
        let r = Line { spans: Vec::new() };
        assert(r@ =~= Seq::<(Seq<char>, Style)>::empty());
        r
    }

    /// A line of one span.
    pub fn from_span(span: Span) -> (r: Line)
        ensures
            r@ == seq![span@],
    {
        let mut spans = Vec::new();
        spans.push(span);
        let r = Line { spans };
        assert(r@ =~= seq![span@]);
        r
    }

    /// A line of the given spans.
    pub fn from_spans(spans: Vec<Span>) -> (r: Line)
        ensures
            r@ == span_views(spans@),
    {
        Line { spans }
    }

    /// A copy of this line.
    pub fn copy(&self) -> (r: Line)
        ensures
            r@ == self@,
    {
        let mut spans: Vec<Span> = Vec::new();
        let mut i: usize = 0;
        while i < self.spans.len()
            invariant
                i <= self.spans@.len(),
                span_views(spans@) =~= span_views(self.spans@).take(i as int),
            decreases self.spans@.len() - i,
        {
            let ghost before = spans@;
            let s = self.spans[i].copy();
            spans.push(s);
            assert(spans@ == before.push(s));
            assert(span_views(spans@) =~= span_views(before).push(s@));
            assert(span_views(self.spans@).take(i + 1) =~= span_views(self.spans@).take(
                i as int,
            ).push(self.spans@[i as int]@));
            i = i + 1;
        }
        Line { spans }
    }
}

} // verus!

use vstd::prelude::*;

use crate::issues::ResolveIssueLevel;

verus! {

/// A terminal colour.
#[derive(Clone, Copy, Debug, PartialEq, Eq, Structural)]
pub enum Color {
    Black,
    Red,
    Green,
    Yellow,
    Blue,
    Magenta,
    Cyan,
    White,
    Color256(u8),
}

/// A text attribute.
#[derive(Clone, Copy, Debug, PartialEq, Eq, Structural)]
pub enum Attribute {
    Bold,
    Dim,
    Italic,
    Underlined,
    Blink,
    Reverse,
    Hidden,
}

/// How a piece of text is shown: a colour, a background and attributes.
#[derive(Clone, Copy, Debug, PartialEq, Eq, Structural)]
pub struct Style {
    pub color: Option<Color>,
    pub background: Option<Color>,
    pub bold: bool,
    pub dim: bool,
    pub italic: bool,
    pub underlined: bool,
    pub blink: bool,
    pub reverse: bool,
    pub hidden: bool,
}

/// `over` laid over `base`: its colours where it has them, and the
/// attributes of both.
pub open spec fn merged(base: Style, over: Style) -> Style {
    Style {
        color: if over.color is Some { over.color } else { base.color },
        background: if over.background is Some { over.background } else { base.background },
        bold: over.bold || base.bold,
        dim: over.dim || base.dim,
        italic: over.italic || base.italic,
        underlined: over.underlined || base.underlined,
        blink: over.blink || base.blink,
        reverse: over.reverse || base.reverse,
        hidden: over.hidden || base.hidden,
    }
}

/// The plain style: no colour, no attribute.
pub open spec fn plain() -> Style {
    Style {
        color: None,
        background: None,
        bold: false,
        dim: false,
        italic: false,
        underlined: false,
        blink: false,
        reverse: false,
        hidden: false,
    }
}

/// `s` with the attribute `a` set.
pub open spec fn with_attr(s: Style, a: Attribute) -> Style {
    match a {
        Attribute::Bold => Style { bold: true, ..s },
        Attribute::Dim => Style { dim: true, ..s },
        Attribute::Italic => Style { italic: true, ..s },
        Attribute::Underlined => Style { underlined: true, ..s },
        Attribute::Blink => Style { blink: true, ..s },
        Attribute::Reverse => Style { reverse: true, ..s },
        Attribute::Hidden => Style { hidden: true, ..s },
    }
}

impl Style {
    /// The plain style.
    pub fn new() -> (r: Style)
        ensures
            r == plain(),
    {
        Style {
            color: None,
            background: None,
            bold: false,
            dim: false,
            italic: false,
            underlined: false,
            blink: false,
            reverse: false,
            hidden: false,
        }
    }

    /// This style laid under `style`.
    pub fn merge(&self, style: &Style) -> (r: Style)
        ensures
            r == merged(*self, *style),
    {
        Style {
            color: match style.color {
                Some(c) => Some(c),
                None => self.color,
            },
            background: match style.background {
                Some(c) => Some(c),
                None => self.background,
            },
            bold: style.bold || self.bold,
            dim: style.dim || self.dim,
            italic: style.italic || self.italic,
            underlined: style.underlined || self.underlined,
            blink: style.blink || self.blink,
            reverse: style.reverse || self.reverse,
            hidden: style.hidden || self.hidden,
        }
    }

    /// This style with the text colour `color`.
    pub fn color(&self, color: Color) -> (r: Style)
        ensures
            r == (Style { color: Some(color), ..*self }),
    {
        let over = Style { color: Some(color), ..Style::new() };
        self.merge(&over)
    }

    /// This style with the background `background`.
    pub fn background(&self, background: Color) -> (r: Style)
        ensures
            r == (Style { background: Some(background), ..*self }),
    {
        let over = Style { background: Some(background), ..Style::new() };
        self.merge(&over)
    }

    /// This style with the attribute `attribute` set.
    pub fn attr(&self, attribute: Attribute) -> (r: Style)
        ensures
            r == with_attr(*self, attribute),
    {
        let over = match attribute {
            Attribute::Bold => Style { bold: true, ..Style::new() },
            Attribute::Dim => Style { dim: true, ..Style::new() },
            Attribute::Italic => Style { italic: true, ..Style::new() },
            Attribute::Underlined => Style { underlined: true, ..Style::new() },
            Attribute::Blink => Style { blink: true, ..Style::new() },
            Attribute::Reverse => Style { reverse: true, ..Style::new() },
            Attribute::Hidden => Style { hidden: true, ..Style::new() },
        };
        self.merge(&over)
    }

    pub fn red(&self) -> (r: Style)
        ensures
            r == (Style { color: Some(Color::Red), ..*self }),
    {
        self.color(Color::Red)
    }

    pub fn green(&self) -> (r: Style)
        ensures
            r == (Style { color: Some(Color::Green), ..*self }),
    {
        self.color(Color::Green)
    }

    pub fn yellow(&self) -> (r: Style)
        ensures
            r == (Style { color: Some(Color::Yellow), ..*self }),
    {
        self.color(Color::Yellow)
    }

    pub fn blue(&self) -> (r: Style)
        ensures
            r == (Style { color: Some(Color::Blue), ..*self }),
    {
        self.color(Color::Blue)
    }

    pub fn bold(&self) -> (r: Style)
        ensures
            r == with_attr(*self, Attribute::Bold),
    {
        self.attr(Attribute::Bold)
    }

    pub fn italic(&self) -> (r: Style)
        ensures
            r == with_attr(*self, Attribute::Italic),
    {
        self.attr(Attribute::Italic)
    }

    pub fn underlined(&self) -> (r: Style)
        ensures
            r == with_attr(*self, Attribute::Underlined),
    {
        self.attr(Attribute::Underlined)
    }
}

/// The style of a path in the report, by the worst severity among its
/// anchor's issues: red italics for an error, yellow underlined for a
/// warning, plain otherwise.
pub open spec fn path_style_spec(level: Option<ResolveIssueLevel>) -> Style {
    match level {
        Some(ResolveIssueLevel::Error) => Style { color: Some(Color::Red), italic: true, ..plain() },
        Some(ResolveIssueLevel::Warning) => Style {
            color: Some(Color::Yellow),
            underlined: true,
            ..plain()
        },
        None => plain(),
    }
}

/// The style of a path in the report, for the worst severity among its issues.
pub fn path_style(level: Option<ResolveIssueLevel>) -> (r: Style)
    ensures
        r == path_style_spec(level),
{
    match level {
        Some(ResolveIssueLevel::Error) => Style::new().red().italic(),
        Some(ResolveIssueLevel::Warning) => Style::new().yellow().underlined(),
        None => Style::new(),
    }
}

} // verus!

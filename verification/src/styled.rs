//! Text with terminal styling, as lines of styled segments. Rendering the
//! styles is left to the terminal layer.
use vstd::prelude::*;
use vstd::string::*;

verus! {

/// A foreground color.
#[derive(Debug, Clone, Copy, PartialEq, Eq)]
pub enum Color {
    Red,
    Yellow,
    Cyan,
}

/// How a segment of text is shown.
#[derive(Debug, Clone, Copy, PartialEq, Eq)]
pub struct Style {
    pub bold: bool,
    pub color: Option<Color>,
}

/// A run of text shown in one style.
#[derive(Debug, PartialEq, Eq)]
pub struct Segment {
    pub text: String,
    pub style: Style,
}

/// The mathematical value of a [`Segment`].
pub struct SegmentView {
    pub text: Seq<char>,
    pub style: Style,
}

impl DeepView for Segment {
    type V = SegmentView;

    open spec fn deep_view(&self) -> SegmentView {
        SegmentView { text: self.text@, style: self.style }
    }
}

/// Unstyled.
pub open spec fn plain() -> Style {
    Style { bold: false, color: None }
}

/// In the given color.
pub open spec fn colored(c: Color) -> Style {
    Style { bold: false, color: Some(c) }
}

/// Bold, in the given color.
pub open spec fn bold_colored(c: Color) -> Style {
    Style { bold: true, color: Some(c) }
}

/// A segment value.
pub open spec fn seg(text: Seq<char>, style: Style) -> SegmentView {
    SegmentView { text, style }
}

/// Style constructors.
impl Style {
    pub fn plain() -> (s: Style)
        ensures
            s == plain(),
    {
        Style { bold: false, color: None }
    }

    pub fn colored(c: Color) -> (s: Style)
        ensures
            s == colored(c),
    {
        Style { bold: false, color: Some(c) }
    }

    pub fn bold_colored(c: Color) -> (s: Style)
        ensures
            s == bold_colored(c),
    {
        Style { bold: true, color: Some(c) }
    }
}

impl Segment {
    /// A segment holding a copy of `text`.
    pub fn new(text: &str, style: Style) -> (s: Segment)
        ensures
            s.deep_view() == seg(text@, style),
    {
        Segment { text: String::from_str(text), style }
    }
}

} // verus!

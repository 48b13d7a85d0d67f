//! The view description of the contextual command panel (command view): a title plus styled
//! body rows that the host rebuilds from the selection each frame.
use vstd::prelude::*;

verus! {

/// How a body row reads: drives its tint.
#[derive(Clone, Copy, Debug, PartialEq, Eq, Structural)]
pub enum LineStyle {
    /// A section heading inside the panel ("TRAIN", "UPGRADE", "BUILD").
    Header,
    /// Ordinary informational text.
    Normal,
    /// De-emphasised / unavailable text.
    Dim,
    /// A positive / affordable value.
    Good,
    /// A negative / unaffordable value.
    Bad,
}

/// One body row of the panel: its text and how it reads.
#[derive(Clone, Debug, PartialEq)]
pub struct PanelLine {
    pub text: String,
    pub style: LineStyle,
}

impl PanelLine {
    /// A row with the given text and style.
    pub fn new(text: String, style: LineStyle) -> (r: PanelLine)
        ensures
            r.text@ == text@,
            r.style == style,
    {
        PanelLine { text, style }
    }
}

/// The presentation description of the contextual command panel: a title plus body rows.
#[derive(Clone, Debug, Default, PartialEq)]
pub struct CommandPanelView {
    pub title: String,
    pub lines: Vec<PanelLine>,
}

impl CommandPanelView {
    /// True when there is nothing worth drawing: no title and no rows.
    pub fn is_empty(&self) -> (r: bool)
        ensures
            r == (self.title@.len() == 0 && self.lines@.len() == 0),
    {
        self.title.as_str().is_empty() && self.lines.len() == 0
    }
}

} // verus!

use vstd::prelude::*;

verus! {

/// A terminal foreground colour.
#[derive(Clone, Copy, Debug, PartialEq, Eq, Structural)]
pub enum Tint {
    Cyan,
    Blue,
    Green,
    BrightGreen,
    Yellow,
    Red,
    BrightYellow,
    BrightBlue,
    BrightCyan,
    BrightWhite,
}

/// How a piece of text is drawn on the terminal.
#[derive(Clone, Copy, Debug, PartialEq, Eq, Structural)]
pub enum Style {
    /// No colour and no emphasis.
    Plain,
    /// Faint text in the default colour.
    Dimmed,
    /// Text in a foreground colour.
    Colored(Tint),
    /// Bold text in a foreground colour.
    Bold(Tint),
}

/// A piece of text together with the style it is drawn in.
#[derive(Debug)]
pub struct Segment {
    pub text: String,
    pub style: Style,
}

impl View for Segment {
    type V = (Seq<char>, Style);

    open spec fn view(&self) -> (Seq<char>, Style) {
        (self.text@, self.style)
    }
}

/// The characters and styles of a line made of segments.
pub open spec fn line_view(l: Seq<Segment>) -> Seq<(Seq<char>, Style)> {
    l.map_values(|g: Segment| g@)
}

/// A segment holding `text` in `style`.
pub fn segment(text: &str, style: Style) -> (r: Segment)
    ensures
        r@ == (text@, style),
{
    Segment { text: String::from_str(text), style }
}

} // verus!

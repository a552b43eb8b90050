use vstd::prelude::*;
use vstd::string::*;

use crate::colors::paint;
use crate::colors::Color;
use crate::content::Line;
use crate::style::ElementStyle;

verus! {

/// A line of plain text.
pub struct TextLine {
    /// The text content.
    pub text: String,
    /// The element style the line is formatted with.
    pub style: ElementStyle,
}

impl Line for TextLine {
    open spec fn plain_spec(&self) -> Seq<char> {
        self.text@
    }

    open spec fn color_spec(&self) -> Color {
        self.style.content_color
    }

    fn width(&self) -> (w: usize) {
        self.text.as_str().unicode_len()
    }

    fn fmt(&self, no_color_codes: bool) -> (r: String) {
        paint(self.text.as_str(), &self.style.content_color, no_color_codes)
    }
}

impl TextLine {
    /// Creates a new text line with the given content and element style.
    pub fn new(text: &str, style: &ElementStyle) -> (r: TextLine)
        ensures
            r.plain_spec() == text@,
            r.color_spec() == style.content_color,
            r.style == *style,
    {
        TextLine { text: text.to_owned(), style: *style }
    }
}

} // verus!

use vstd::prelude::*;

mod key_value_line;
mod text_line;

pub use key_value_line::KeyValueLine;
pub use text_line::TextLine;

use crate::colors::paint_spec;
use crate::colors::Color;

verus! {

/// Lines render a line of content within a banner.
pub trait Line {
    /// The plain text of the line, without any color codes.
    spec fn plain_spec(&self) -> Seq<char>;

    /// The color the line's content is painted with.
    spec fn color_spec(&self) -> Color;

    /// Returns the width of the line when rendered: the number of characters
    /// of its plain text.
    fn width(&self) -> (w: usize)
        ensures
            w == self.plain_spec().len(),
    ;

    /// Formats the line: its plain text, painted in its content color unless
    /// color codes are suppressed.
    fn fmt(&self, no_color_codes: bool) -> (r: String)
        ensures
            r@ == paint_spec(self.color_spec(), no_color_codes, self.plain_spec()),
    ;
}

/// The two kinds of content line a banner holds.
pub enum ContentLine {
    Text(TextLine),
    KeyValue(KeyValueLine),
}

impl Line for ContentLine {
    open spec fn plain_spec(&self) -> Seq<char> {
        match self {
            ContentLine::Text(l) => l.plain_spec(),
            ContentLine::KeyValue(l) => l.plain_spec(),
        }
    }

    open spec fn color_spec(&self) -> Color {
        match self {
            ContentLine::Text(l) => l.color_spec(),
            ContentLine::KeyValue(l) => l.color_spec(),
        }
    }

    fn width(&self) -> (w: usize) {
        match self {
            ContentLine::Text(l) => l.width(),
            ContentLine::KeyValue(l) => l.width(),
        }
    }

    fn fmt(&self, no_color_codes: bool) -> (r: String) {
        match self {
            ContentLine::Text(l) => l.fmt(no_color_codes),
            ContentLine::KeyValue(l) => l.fmt(no_color_codes),
        }
    }
}

/// Law: a line's width equals the character count of what it formats to when
/// color codes are suppressed, for every kind of line.
pub proof fn lemma_width_matches_plain_format<L: Line>(l: &L)
    ensures
        paint_spec(l.color_spec(), true, l.plain_spec()).len() == l.plain_spec().len(),
{
}

} // verus!

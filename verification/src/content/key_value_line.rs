use vstd::prelude::*;
use vstd::string::*;

use crate::colors::paint;
use crate::colors::Color;
use crate::content::Line;
use crate::style::ElementStyle;

verus! {

/// A line showing a key and value pair, rendered as the key, a separating
/// colon and space, and the value.
pub struct KeyValueLine {
    /// The key name.
    pub key: String,
    /// The value as text.
    pub value: String,
    /// The element style the line is formatted with.
    pub style: ElementStyle,
    /// The rendered plain text of the line.
    pub rendered: String,
}

impl Line for KeyValueLine {
    open spec fn plain_spec(&self) -> Seq<char> {
        self.rendered@
    }

    open spec fn color_spec(&self) -> Color {
        self.style.content_color
    }

    fn width(&self) -> (w: usize) {
        self.rendered.as_str().unicode_len()
    }

    fn fmt(&self, no_color_codes: bool) -> (r: String) {
        paint(self.rendered.as_str(), &self.style.content_color, no_color_codes)
    }
}

impl KeyValueLine {
    /// Creates a new key-value line with the given key, value, and element
    /// style.
    pub fn new(key: &str, value: &str, style: &ElementStyle) -> (r: KeyValueLine)
        ensures
            r.plain_spec() == key@ + ": "@ + value@,
            r.color_spec() == style.content_color,
            r.key@ == key@,
            r.value@ == value@,
            r.style == *style,
    {
        let mut rendered = key.to_owned();
        rendered.append(": ");
        rendered.append(value);
        KeyValueLine { key: key.to_owned(), value: value.to_owned(), style: *style, rendered }
    }
}

} // verus!

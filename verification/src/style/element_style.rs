use vstd::prelude::*;

use crate::colors::Color;

verus! {

/// Style attributes for one class of banner content.
#[derive(Clone, Copy)]
pub struct ElementStyle {
    /// The color the content is painted with.
    pub content_color: Color,
    /// Whether the content is underlined. Reserved: formatting never reads it.
    pub is_underlined: bool,
    /// The character an underline would be drawn with. Reserved.
    pub underline_char: char,
    /// The color an underline would be painted with. Reserved.
    pub underline_color: Color,
}

/// The default element style: white content, no underline.
pub open spec fn default_element() -> ElementStyle {
    ElementStyle {
        content_color: Color::White,
        is_underlined: false,
        underline_char: '~',
        underline_color: Color::White,
    }
}

impl ElementStyle {
    /// Creates a new element style with the default values.
    pub fn new() -> (r: ElementStyle)
        ensures
            r == default_element(),
    {
        ElementStyle {
            content_color: Color::White,
            is_underlined: false,
            underline_char: '~',
            underline_color: Color::White,
        }
    }
}

} // verus!

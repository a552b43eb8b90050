use vstd::prelude::*;

use crate::colors::Color;
use crate::style::border_glyphs::default_glyphs;
use crate::style::border_glyphs::BorderGlyphs;

verus! {

/// Describes a border style: its glyphs, its color, and whether it is shown.
#[derive(Clone, Copy)]
pub struct BorderStyle {
    /// The glyphs to use for the border.
    pub glyphs: BorderGlyphs,
    /// The border color.
    pub color: Color,
    /// Whether the border is visible.
    pub is_visible: bool,
}

impl BorderStyle {
    /// Creates a new border style with the default values: the default glyph
    /// set, a white border, and the border visible.
    pub fn new() -> (r: BorderStyle)
        ensures
            r.glyphs == default_glyphs(),
            r.color == Color::White,
            r.is_visible == true,
    {
        BorderStyle { glyphs: BorderGlyphs::new(), color: Color::White, is_visible: true }
    }
}

} // verus!

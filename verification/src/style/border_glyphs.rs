use vstd::prelude::*;

verus! {

/// The eight characters used to draw the corners and edges of a border.
#[derive(Clone, Copy)]
pub struct BorderGlyphs {
    pub top_left: char,
    pub top_right: char,
    pub bottom_left: char,
    pub bottom_right: char,
    pub top: char,
    pub left: char,
    pub right: char,
    pub bottom: char,
}

/// The default glyph set: the light box-drawing characters.
pub open spec fn default_glyphs() -> BorderGlyphs {
    BorderGlyphs {
        top_left: '┌',
        top_right: '┐',
        bottom_left: '└',
        bottom_right: '┘',
        top: '─',
        left: '│',
        right: '│',
        bottom: '─',
    }
}

impl BorderGlyphs {
    /// Creates a new border glyphs descriptor with the default values.
    pub fn new() -> (r: BorderGlyphs)
        ensures
            r == default_glyphs(),
    {
        BorderGlyphs {
            top_left: '┌',
            top_right: '┐',
            bottom_left: '└',
            bottom_right: '┘',
            top: '─',
            left: '│',
            right: '│',
            bottom: '─',
        }
    }
}

} // verus!

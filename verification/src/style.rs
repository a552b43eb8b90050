use vstd::prelude::*;

mod border_glyphs;
mod border_style;
mod element_style;

pub use border_glyphs::default_glyphs;
pub use border_glyphs::BorderGlyphs;
pub use border_style::BorderStyle;
pub use element_style::default_element;
pub use element_style::ElementStyle;

pub use crate::colors::Color;

verus! {

/// A banner style: a border style, one element style per content class, and
/// a flag that suppresses color codes in all output.
#[derive(Clone, Copy)]
pub struct Style {
    /// Setting this flag to true omits color codes from output.
    pub no_color_codes: bool,
    /// The style of the border drawn around the content.
    pub border: BorderStyle,
    /// The style for top-level headers.
    pub h1: ElementStyle,
    /// The style for second-level headers.
    pub h2: ElementStyle,
    /// The style for third-level headers.
    pub h3: ElementStyle,
    /// The style for plain text and key-value lines.
    pub text: ElementStyle,
}

/// The content classes a style distinguishes.
#[derive(Clone, Copy)]
pub enum FormatLevel {
    H1,
    H2,
    H3,
    Text,
}

/// The closed set of header levels.
#[derive(Clone, Copy)]
pub enum HeaderLevel {
    H1,
    H2,
    H3,
}

impl Style {
    /// The element style the style assigns to a content class.
    pub open spec fn element_spec(self, level: FormatLevel) -> ElementStyle {
        match level {
            FormatLevel::H1 => self.h1,
            FormatLevel::H2 => self.h2,
            FormatLevel::H3 => self.h3,
            FormatLevel::Text => self.text,
        }
    }

    /// The element style the style assigns to a header level.
    pub open spec fn header_spec(self, level: HeaderLevel) -> ElementStyle {
        match level {
            HeaderLevel::H1 => self.h1,
            HeaderLevel::H2 => self.h2,
            HeaderLevel::H3 => self.h3,
        }
    }

    /// Returns a new style with the default values: colors enabled, a white
    /// border, and white content for every class.
    pub fn new() -> (r: Style)
        ensures
            r.no_color_codes == false,
            r.border.glyphs == default_glyphs(),
            r.border.color == Color::White,
            r.border.is_visible == true,
            r.h1 == default_element(),
            r.h2 == default_element(),
            r.h3 == default_element(),
            r.text == default_element(),
    {
        Style {
            no_color_codes: false,
            border: BorderStyle::new(),
            h1: ElementStyle::new(),
            h2: ElementStyle::new(),
            h3: ElementStyle::new(),
            text: ElementStyle::new(),
        }
    }

    /// Returns the element style for a specific format level.
    pub fn element_style(&self, level: &FormatLevel) -> (r: &ElementStyle)
        ensures
            *r == self.element_spec(*level),
    {
        match level {
            FormatLevel::H1 => &self.h1,
            FormatLevel::H2 => &self.h2,
            FormatLevel::H3 => &self.h3,
            FormatLevel::Text => &self.text,
        }
    }

    /// Returns the element style for a specific header level.
    pub fn header_style(&self, level: &HeaderLevel) -> (r: &ElementStyle)
        ensures
            *r == self.header_spec(*level),
    {
        match level {
            HeaderLevel::H1 => &self.h1,
            HeaderLevel::H2 => &self.h2,
            HeaderLevel::H3 => &self.h3,
        }
    }
}

} // verus!

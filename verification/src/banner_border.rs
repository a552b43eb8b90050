use vstd::prelude::*;

use crate::colors::Color;

verus! {

/// An early, minimal description of a banner border: a color and a
/// visibility flag, without configurable glyphs.
pub struct BannerBorder {
    /// The border color.
    pub color: Color,
    /// Whether the border is shown.
    pub visible: bool,
}

impl BannerBorder {
    /// Creates a new banner border with default values: white and visible.
    pub fn new() -> (r: BannerBorder)
        ensures
            r.color == Color::White,
            r.visible == true,
    {
        BannerBorder { color: Color::White, visible: true }
    }
}

} // verus!

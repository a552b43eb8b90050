use vstd::prelude::*;
use vstd::string::*;

use crate::colors::paint;
use crate::colors::paint_spec;
use crate::rendering::push_char;
use crate::rendering::repeat_char;
use crate::rendering::run_spec;
use crate::style::BorderGlyphs;
use crate::style::BorderStyle;

verus! {

/// Paints the four border segments that surround banner content.
pub struct BorderPainter {
    /// A description of the border style.
    pub style: BorderStyle,
    /// A flag indicating whether to suppress color codes in output.
    pub no_color_codes: bool,
    /// The width of the area the border surrounds.
    pub width: usize,
}

/// The plain characters of the top border: a run of `width` edge glyphs
/// between the two top corners.
pub open spec fn top_plain_spec(g: BorderGlyphs, width: nat) -> Seq<char> {
    seq![g.top_left] + run_spec(g.top, width) + seq![g.top_right]
}

/// The plain characters of the bottom border: a run of `width` edge glyphs
/// between the two bottom corners.
pub open spec fn bottom_plain_spec(g: BorderGlyphs, width: nat) -> Seq<char> {
    seq![g.bottom_left] + run_spec(g.bottom, width) + seq![g.bottom_right]
}

/// What `top` returns: empty below the minimal width of two, otherwise the
/// plain top border painted in the border color.
pub open spec fn top_spec(style: BorderStyle, suppress: bool, width: nat) -> Seq<char> {
    if width < 2 {
        Seq::empty()
    } else {
        paint_spec(style.color, suppress, top_plain_spec(style.glyphs, width))
    }
}

/// What `bottom` returns: empty below the minimal width of two, otherwise the
/// plain bottom border painted in the border color.
pub open spec fn bottom_spec(style: BorderStyle, suppress: bool, width: nat) -> Seq<char> {
    if width < 2 {
        Seq::empty()
    } else {
        paint_spec(style.color, suppress, bottom_plain_spec(style.glyphs, width))
    }
}

/// What `left` and `right` return: the single edge glyph painted in the
/// border color.
pub open spec fn side_spec(style: BorderStyle, suppress: bool, glyph: char) -> Seq<char> {
    paint_spec(style.color, suppress, seq![glyph])
}

impl BorderPainter {
    /// Creates a new border painter for a border style, a color-suppression
    /// flag, and the width of the area the border surrounds.
    pub fn new(style: &BorderStyle, no_color_codes: bool, width: usize) -> (r: BorderPainter)
        ensures
            r.style == *style,
            r.no_color_codes == no_color_codes,
            r.width == width,
    {
        BorderPainter { style: *style, no_color_codes, width }
    }

    /// Formats the border top as a colored string.
    pub fn top(&self) -> (r: String)
        ensures
            r@ == top_spec(self.style, self.no_color_codes, self.width as nat),
    {
        // Guard against width values that are too small
        if self.width < 2 {
            return String::new();
        }
        let mut s = String::new();
        push_char(&mut s, self.style.glyphs.top_left);
        let run = repeat_char(self.style.glyphs.top, self.width);
        s.append(run.as_str());
        push_char(&mut s, self.style.glyphs.top_right);
        proof {
            assert(s@ =~= top_plain_spec(self.style.glyphs, self.width as nat));
        }
        self.colorize(s)
    }

    /// Formats the border bottom as a colored string.
    pub fn bottom(&self) -> (r: String)
        ensures
            r@ == bottom_spec(self.style, self.no_color_codes, self.width as nat),
    {
        // Guard against width values that are too small
        if self.width < 2 {
            return String::new();
        }
        let mut s = String::new();
        push_char(&mut s, self.style.glyphs.bottom_left);
        let run = repeat_char(self.style.glyphs.bottom, self.width);
        s.append(run.as_str());
        push_char(&mut s, self.style.glyphs.bottom_right);
        proof {
            assert(s@ =~= bottom_plain_spec(self.style.glyphs, self.width as nat));
        }
        self.colorize(s)
    }

    /// Formats the border left side as a colored string.
    pub fn left(&self) -> (r: String)
        ensures
            r@ == side_spec(self.style, self.no_color_codes, self.style.glyphs.left),
    {
        let mut s = String::new();
        push_char(&mut s, self.style.glyphs.left);
        proof {
            assert(s@ =~= seq![self.style.glyphs.left]);
        }
        self.colorize(s)
    }

    /// Formats the border right side as a colored string.
    pub fn right(&self) -> (r: String)
        ensures
            r@ == side_spec(self.style, self.no_color_codes, self.style.glyphs.right),
    {
        let mut s = String::new();
        push_char(&mut s, self.style.glyphs.right);
        proof {
            assert(s@ =~= seq![self.style.glyphs.right]);
        }
        self.colorize(s)
    }

    /// Applies the border color to a segment unless color codes are
    /// suppressed.
    fn colorize(&self, s: String) -> (r: String)
        ensures
            r@ == paint_spec(self.style.color, self.no_color_codes, s@),
    {
        if !self.no_color_codes {
            paint(s.as_str(), &self.style.color, false)
        } else {
            s
        }
    }
}

/// Law: for every width of at least two, the visible top border has exactly
/// `width + 2` characters and begins and ends with the configured corners.
pub proof fn lemma_top_visible_shape(g: BorderGlyphs, width: nat)
    requires
        width >= 2,
    ensures
        top_plain_spec(g, width).len() == width + 2,
        top_plain_spec(g, width)[0] == g.top_left,
        top_plain_spec(g, width)[width as int + 1] == g.top_right,
{
}

/// Law: for every width of at least two, the visible bottom border has
/// exactly `width + 2` characters and begins and ends with the configured
/// corners.
pub proof fn lemma_bottom_visible_shape(g: BorderGlyphs, width: nat)
    requires
        width >= 2,
    ensures
        bottom_plain_spec(g, width).len() == width + 2,
        bottom_plain_spec(g, width)[0] == g.bottom_left,
        bottom_plain_spec(g, width)[width as int + 1] == g.bottom_right,
{
}

/// Law: below the minimal width of two, the top and bottom borders are the
/// empty string.
pub proof fn lemma_degenerate_border_empty(style: BorderStyle, suppress: bool, width: nat)
    requires
        width < 2,
    ensures
        top_spec(style, suppress, width) == Seq::<char>::empty(),
        bottom_spec(style, suppress, width) == Seq::<char>::empty(),
{
}

} // verus!

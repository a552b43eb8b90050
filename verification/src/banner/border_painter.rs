use vstd::prelude::*;
use vstd::string::*;

use crate::banner::run_len_spec;
use crate::colors::paint;
use crate::colors::paint_spec;
use crate::rendering::push_char;
use crate::rendering::repeat_char;
use crate::rendering::run_spec;
use crate::style::BorderGlyphs;
use crate::style::BorderStyle;

verus! {

/// Paints the four border segments that surround banner content. Its
/// horizontal run spans the full width less the two corners.
pub struct BorderPainter {
    /// A description of the border style.
    pub style: BorderStyle,
    /// A flag indicating whether to leave output monochrome.
    pub is_monochrome: bool,
    /// The width of the area the border surrounds, including the width of
    /// the border itself.
    pub width: u8,
}

/// The plain characters of the top border: a run of `width - 2` edge glyphs
/// between the two top corners.
pub open spec fn top_plain_spec(g: BorderGlyphs, width: nat) -> Seq<char> {
    seq![g.top_left] + run_spec(g.top, run_len_spec(width)) + seq![g.top_right]
}

/// The plain characters of the bottom border: a run of `width - 2` edge
/// glyphs between the two bottom corners.
pub open spec fn bottom_plain_spec(g: BorderGlyphs, width: nat) -> Seq<char> {
    seq![g.bottom_left] + run_spec(g.bottom, run_len_spec(width)) + seq![g.bottom_right]
}

/// What `top` returns: empty below the minimal width of two, otherwise the
/// plain top border painted in the border color.
pub open spec fn top_spec(style: BorderStyle, monochrome: bool, width: nat) -> Seq<char> {
    if width < 2 {
        Seq::empty()
    } else {
        paint_spec(style.color, monochrome, top_plain_spec(style.glyphs, width))
    }
}

/// What `bottom` returns: empty below the minimal width of two, otherwise
/// the plain bottom border painted in the border color.
pub open spec fn bottom_spec(style: BorderStyle, monochrome: bool, width: nat) -> Seq<char> {
    if width < 2 {
        Seq::empty()
    } else {
        paint_spec(style.color, monochrome, bottom_plain_spec(style.glyphs, width))
    }
}

/// What `left` and `right` return: the single edge glyph painted in the
/// border color.
pub open spec fn side_spec(style: BorderStyle, monochrome: bool, glyph: char) -> Seq<char> {
    paint_spec(style.color, monochrome, seq![glyph])
}

impl BorderPainter {
    /// Creates a new border painter for a border style, a monochrome flag,
    /// and the width of the area the border surrounds.
    pub fn new(style: &BorderStyle, is_monochrome: bool, width: u8) -> (r: BorderPainter)
        ensures
            r.style == *style,
            r.is_monochrome == is_monochrome,
            r.width == width,
    {
        BorderPainter { style: *style, is_monochrome, width }
    }

    /// Formats the border top as a colored string.
    pub fn top(&self) -> (r: String)
        ensures
            r@ == top_spec(self.style, self.is_monochrome, self.width as nat),
    {
        // Guard against width values that are too small
        if self.width < 2 {
            return String::new();
        }
        let mut s = String::new();
        push_char(&mut s, self.style.glyphs.top_left);
        let run = repeat_char(self.style.glyphs.top, (self.width - 2) as usize);
        s.append(run.as_str());
        push_char(&mut s, self.style.glyphs.top_right);
        proof {
            assert(s@ =~= top_plain_spec(self.style.glyphs, self.width as nat));
        }
        self.colorize(s)
    }

    /// Formats the border bottom as a colored string.
    pub fn bottom(&self) -> (r: String)
        ensures
            r@ == bottom_spec(self.style, self.is_monochrome, self.width as nat),
    {
        // Guard against width values that are too small
        if self.width < 2 {
            return String::new();
        }
        let mut s = String::new();
        push_char(&mut s, self.style.glyphs.bottom_left);
        let run = repeat_char(self.style.glyphs.bottom, (self.width - 2) as usize);
        s.append(run.as_str());
        push_char(&mut s, self.style.glyphs.bottom_right);
        proof {
            assert(s@ =~= bottom_plain_spec(self.style.glyphs, self.width as nat));
        }
        self.colorize(s)
    }

    /// Formats the border left side as a colored string.
    pub fn left(&self) -> (r: String)
        ensures
            r@ == side_spec(self.style, self.is_monochrome, self.style.glyphs.left),
    {
        let mut s = String::new();
        push_char(&mut s, self.style.glyphs.left);
        proof {
            assert(s@ =~= seq![self.style.glyphs.left]);
        }
        self.colorize(s)
    }

    /// Formats the border right side as a colored string.
    pub fn right(&self) -> (r: String)
        ensures
            r@ == side_spec(self.style, self.is_monochrome, self.style.glyphs.right),
    {
        let mut s = String::new();
        push_char(&mut s, self.style.glyphs.right);
        proof {
            assert(s@ =~= seq![self.style.glyphs.right]);
        }
        self.colorize(s)
    }

    /// Applies color codes to the output unless it is monochrome.
    fn colorize(&self, s: String) -> (r: String)
        ensures
            r@ == paint_spec(self.style.color, self.is_monochrome, s@),
    {
        if !self.is_monochrome {
            paint(s.as_str(), &self.style.color, false)
        } else {
            s
        }
    }
}

} // verus!

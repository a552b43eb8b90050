use vstd::prelude::*;
use vstd::string::*;

use crate::banner::run_len_spec;
use crate::colors::paint;
use crate::colors::wrap_spec;
use crate::colors::Color;
use crate::rendering::push_char;
use crate::rendering::repeat_char;
use crate::rendering::run_spec;
use crate::style::default_glyphs;
use crate::style::BorderGlyphs;

verus! {

/// Describes a banner border and formats its four segments, always painted
/// in the border color. Its horizontal run spans the full width less the two
/// corners.
pub struct Border {
    /// The border color.
    pub color: Color,
    /// Whether the border is shown.
    pub is_visible: bool,
    /// The glyphs the border is drawn with.
    pub glyphs: BorderGlyphs,
}

/// What `fmt_top` returns: a run of `width - 2` edge glyphs between the two
/// top corners, wrapped in the border color.
pub open spec fn fmt_top_spec(b: Border, width: nat) -> Seq<char> {
    wrap_spec(b.color, seq![b.glyphs.top_left] + run_spec(b.glyphs.top, run_len_spec(width)) + seq![b.glyphs.top_right])
}

/// What `fmt_bottom` returns: a run of `width - 2` edge glyphs between the
/// two bottom corners, wrapped in the border color.
pub open spec fn fmt_bottom_spec(b: Border, width: nat) -> Seq<char> {
    wrap_spec(
        b.color,
        seq![b.glyphs.bottom_left] + run_spec(b.glyphs.bottom, run_len_spec(width)) + seq![b.glyphs.bottom_right],
    )
}

impl Border {
    /// Creates a new banner border with default values: white, visible, and
    /// the default glyph set.
    pub fn new() -> (r: Border)
        ensures
            r.color == Color::White,
            r.is_visible == true,
            r.glyphs == default_glyphs(),
    {
        Border { color: Color::White, is_visible: true, glyphs: BorderGlyphs::new() }
    }

    /// Formats the border top as a colored string.
    pub fn fmt_top(&self, width: u8) -> (r: String)
        requires
            width >= 1,
        ensures
            r@ == fmt_top_spec(*self, width as nat),
    {
        let run_len: usize = if width >= 2 {
            (width - 2) as usize
        } else {
            0
        };
        let mut s = String::new();
        push_char(&mut s, self.glyphs.top_left);
        let run = repeat_char(self.glyphs.top, run_len);
        s.append(run.as_str());
        push_char(&mut s, self.glyphs.top_right);
        proof {
            assert(s@ =~= seq![self.glyphs.top_left] + run_spec(self.glyphs.top, run_len_spec(width as nat))
                + seq![self.glyphs.top_right]);
        }
        paint(s.as_str(), &self.color, false)
    }

    /// Formats the border bottom as a colored string.
    pub fn fmt_bottom(&self, width: u8) -> (r: String)
        requires
            width >= 1,
        ensures
            r@ == fmt_bottom_spec(*self, width as nat),
    {
        let run_len: usize = if width >= 2 {
            (width - 2) as usize
        } else {
            0
        };
        let mut s = String::new();
        push_char(&mut s, self.glyphs.bottom_left);
        let run = repeat_char(self.glyphs.bottom, run_len);
        s.append(run.as_str());
        push_char(&mut s, self.glyphs.bottom_right);
        proof {
            assert(s@ =~= seq![self.glyphs.bottom_left] + run_spec(
                self.glyphs.bottom,
                run_len_spec(width as nat),
            ) + seq![self.glyphs.bottom_right]);
        }
        paint(s.as_str(), &self.color, false)
    }

    /// Formats the border left side as a colored string.
    pub fn fmt_left(&self) -> (r: String)
        ensures
            r@ == wrap_spec(self.color, seq![self.glyphs.left]),
    {
        let mut s = String::new();
        push_char(&mut s, self.glyphs.left);
        proof {
            assert(s@ =~= seq![self.glyphs.left]);
        }
        paint(s.as_str(), &self.color, false)
    }

    /// Formats the border right side as a colored string.
    pub fn fmt_right(&self) -> (r: String)
        ensures
            r@ == wrap_spec(self.color, seq![self.glyphs.right]),
    {
        let mut s = String::new();
        push_char(&mut s, self.glyphs.right);
        proof {
            assert(s@ =~= seq![self.glyphs.right]);
        }
        paint(s.as_str(), &self.color, false)
    }
}

} // verus!

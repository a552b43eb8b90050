use vstd::prelude::*;

pub mod banner;
pub mod banner_border;
pub mod colors;
pub mod content;
pub mod rendering;
pub mod style;

pub use colors::Color;
pub use style::HeaderLevel;
pub use style::Style;

use vstd::string::*;

use crate::colors::paint_spec;
use crate::content::ContentLine;
use crate::content::KeyValueLine;
use crate::content::Line;
use crate::content::TextLine;
use crate::rendering::bottom_spec;
use crate::rendering::repeat_char;
use crate::rendering::run_spec;
use crate::rendering::side_spec;
use crate::rendering::top_spec;
use crate::rendering::BorderPainter;

verus! {

/// The width a banner takes after a line of the given width is appended:
/// grown to the line's width when auto-widening applies, otherwise unchanged.
pub open spec fn widen_spec(width: nat, auto_widen: bool, line_width: nat) -> nat {
    if auto_widen && line_width > width {
        line_width
    } else {
        width
    }
}

/// Law: widening is monotonic. With auto-widen on, appending a line of width
/// `n` to a banner narrower than `n` widens it to exactly `n`, and any later
/// line of width at most `n` leaves the width unchanged; the width never
/// shrinks.
pub proof fn lemma_monotonic_widening(width: nat, n: nat, m: nat)
    requires
        width < n,
        m <= n,
    ensures
        widen_spec(width, true, n) == n,
        widen_spec(widen_spec(width, true, n), true, m) == n,
        widen_spec(width, true, n) >= width,
{
}

/// The rendering model of one content line: its plain text and its color.
pub open spec fn line_model(l: ContentLine) -> (Seq<char>, Color) {
    (l.plain_spec(), l.color_spec())
}

/// The number of padding spaces after a line of the given width: the space
/// left up to the banner width, clamped to zero when the line is wider.
pub open spec fn pad_spec(width: nat, line_width: nat) -> nat {
    if line_width < width {
        (width - line_width) as nat
    } else {
        0
    }
}

/// One assembled content row: the left border, the formatted line, padding
/// spaces up to the banner width, the right border, and the line terminator.
pub open spec fn row_spec(style: Style, width: nat, model: (Seq<char>, Color)) -> Seq<char> {
    side_spec(style.border, style.no_color_codes, style.border.glyphs.left) + paint_spec(
        model.1,
        style.no_color_codes,
        model.0,
    ) + run_spec(' ', pad_spec(width, model.0.len())) + side_spec(
        style.border,
        style.no_color_codes,
        style.border.glyphs.right,
    ) + "\r\n"@
}

/// All assembled content rows, in insertion order.
pub open spec fn rows_spec(style: Style, width: nat, models: Seq<(Seq<char>, Color)>) -> Seq<char>
    decreases models.len(),
{
    if models.len() == 0 {
        Seq::empty()
    } else {
        rows_spec(style, width, models.drop_last()) + row_spec(style, width, models.last())
    }
}

/// The full assembled banner: the top border, one row per content line in
/// insertion order, and the bottom border, each followed by a carriage
/// return and line feed.
pub open spec fn assemble_spec(style: Style, width: nat, models: Seq<(Seq<char>, Color)>) -> Seq<
    char,
> {
    top_spec(style.border, style.no_color_codes, width) + "\r\n"@ + rows_spec(style, width, models)
        + bottom_spec(style.border, style.no_color_codes, width) + "\r\n"@
}

/// Renders one content row: the left border, the formatted line, padding up
/// to the painter's width, the right border, and the line terminator.
fn render_row(border_painter: &BorderPainter, style: &Style, line: &ContentLine) -> (r: String)
    requires
        border_painter.style == style.border,
        border_painter.no_color_codes == style.no_color_codes,
    ensures
        r@ == row_spec(*style, border_painter.width as nat, line_model(*line)),
{
    // Add left border
    let mut r = border_painter.left();
    // Add line content
    let line_text = line.fmt(style.no_color_codes);
    r.append(line_text.as_str());
    // Add whitespace to end
    let line_width = line.width();
    let pad = if line_width < border_painter.width {
        border_painter.width - line_width
    } else {
        0
    };
    let padding = repeat_char(' ', pad);
    r.append(padding.as_str());
    // Add right border
    let right = border_painter.right();
    r.append(right.as_str());
    r.append("\r\n");
    proof {
        assert(pad as nat == pad_spec(border_painter.width as nat, line.plain_spec().len()));
        assert(r@ =~= row_spec(*style, border_painter.width as nat, line_model(*line)));
    }
    r
}

/// A banner: a bordered panel of left-aligned content lines, auto-sized to
/// fit its widest line when auto-widening is on.
pub struct Banner {
    /// The width of the content area the border encloses.
    pub width: usize,
    /// Whether appending a wide line grows the width to fit it.
    pub auto_widen: bool,
    /// The style the banner is rendered with.
    pub style: Style,
    /// The content lines, in insertion order.
    pub lines: Vec<ContentLine>,
}

impl Banner {
    /// The rendering models of the banner's lines, in insertion order.
    pub open spec fn models(self) -> Seq<(Seq<char>, Color)> {
        self.lines@.map(|i: int, l: ContentLine| line_model(l))
    }

    /// Creates a new banner with default values: width 50, auto-widening on,
    /// no content, and the given style.
    pub fn new(style: &Style) -> (r: Banner)
        ensures
            r.width == 50,
            r.auto_widen == true,
            r.style == *style,
            r.models() == Seq::<(Seq<char>, Color)>::empty(),
    {
        let r = Banner { width: 50, auto_widen: true, style: *style, lines: Vec::new() };
        proof {
            assert(r.models() =~= Seq::<(Seq<char>, Color)>::empty());
        }
        r
    }

    /// Adds a header to the banner, widening it to the header's width when
    /// auto-widening applies.
    pub fn add_header(&mut self, text: &str, level: HeaderLevel)
        ensures
            final(self).style == old(self).style,
            final(self).auto_widen == old(self).auto_widen,
            final(self).width as nat == widen_spec(
                old(self).width as nat,
                old(self).auto_widen,
                text@.len(),
            ),
            final(self).models() == old(self).models().push(
                (text@, old(self).style.header_spec(level).content_color),
            ),
    {
        let line = TextLine::new(text, self.style.header_style(&level));

        // Check if banner needs to be widened
        let line_width = line.width();
        if self.auto_widen && line_width > self.width {
            self.width = line_width;
        }
        self.lines.push(ContentLine::Text(line));
        proof {
            assert(self.models() =~= old(self).models().push(
                (text@, old(self).style.header_spec(level).content_color),
            ));
        }
    }

    /// Adds a line of text to the banner, widening it to the line's width
    /// when auto-widening applies.
    pub fn add_text(&mut self, text: &str)
        ensures
            final(self).style == old(self).style,
            final(self).auto_widen == old(self).auto_widen,
            final(self).width as nat == widen_spec(
                old(self).width as nat,
                old(self).auto_widen,
                text@.len(),
            ),
            final(self).models() == old(self).models().push(
                (text@, old(self).style.text.content_color),
            ),
    {
        let line = TextLine::new(text, &self.style.text);

        // Check if banner needs to be widened
        let line_width = line.width();
        if self.auto_widen && line_width > self.width {
            self.width = line_width;
        }
        self.lines.push(ContentLine::Text(line));
        proof {
            assert(self.models() =~= old(self).models().push(
                (text@, old(self).style.text.content_color),
            ));
        }
    }

    /// Adds a line showing a key value pair to the banner, widening it to
    /// the line's width when auto-widening applies.
    pub fn add_key_value(&mut self, key: &str, value: &str)
        ensures
            final(self).style == old(self).style,
            final(self).auto_widen == old(self).auto_widen,
            final(self).width as nat == widen_spec(
                old(self).width as nat,
                old(self).auto_widen,
                (key@ + ": "@ + value@).len(),
            ),
            final(self).models() == old(self).models().push(
                (key@ + ": "@ + value@, old(self).style.text.content_color),
            ),
    {
        let line = KeyValueLine::new(key, value, &self.style.text);

        // Check if banner needs to be widened
        let line_width = line.width();
        if self.auto_widen && line_width > self.width {
            self.width = line_width;
        }
        self.lines.push(ContentLine::KeyValue(line));
        proof {
            assert(self.models() =~= old(self).models().push(
                (key@ + ": "@ + value@, old(self).style.text.content_color),
            ));
        }
    }

    /// Assembles the banner. Assembling is read-only and deterministic: the
    /// result is a function of the banner's state alone, so repeated calls
    /// without intervening mutation yield identical strings.
    #[verifier::loop_isolation(false)]
    pub fn assemble(&self) -> (r: String)
        ensures
            r@ == assemble_spec(self.style, self.width as nat, self.models()),
    {
        let border_painter = BorderPainter::new(
            &self.style.border,
            self.style.no_color_codes,
            self.width,
        );
        let mut result = border_painter.top();
        result.append("\r\n");
        proof {
            assert(self.models().take(0) =~= Seq::<(Seq<char>, Color)>::empty());
            assert(result@ =~= top_spec(self.style.border, self.style.no_color_codes, self.width as nat)
                + "\r\n"@ + rows_spec(self.style, self.width as nat, self.models().take(0)));
        }
        let mut i: usize = 0;
        while i < self.lines.len()
            invariant
                i <= self.lines.len(),
                result@ == top_spec(self.style.border, self.style.no_color_codes, self.width as nat)
                    + "\r\n"@ + rows_spec(self.style, self.width as nat, self.models().take(i as int)),
            decreases self.lines.len() - i,
        {
            let line = &self.lines[i];
            let row = render_row(&border_painter, &self.style, line);
            result.append(row.as_str());
            proof {
                let models = self.models();
                assert(models.take(i + 1).drop_last() =~= models.take(i as int));
                assert(models.take(i + 1).last() == models[i as int]);
                assert(result@ =~= top_spec(
                    self.style.border,
                    self.style.no_color_codes,
                    self.width as nat,
                ) + "\r\n"@ + rows_spec(self.style, self.width as nat, models.take(i + 1)));
            }
            i = i + 1;
        }
        let bottom = border_painter.bottom();
        result.append(bottom.as_str());
        result.append("\r\n");
        proof {
            assert(self.models().take(self.lines.len() as int) =~= self.models());
            assert(result@ =~= assemble_spec(self.style, self.width as nat, self.models()));
        }
        result
    }
}

} // verus!

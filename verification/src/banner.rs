use vstd::prelude::*;
use vstd::string::*;

mod border;
mod border_painter;

pub use border::fmt_bottom_spec;
pub use border::fmt_top_spec;
pub use border::Border;
pub use border_painter::bottom_spec;
pub use border_painter::side_spec;
pub use border_painter::top_spec;
pub use border_painter::BorderPainter;

use crate::colors::paint_spec;
use crate::colors::Color;
use crate::content::ContentLine;
use crate::content::KeyValueLine;
use crate::content::Line;
use crate::content::TextLine;
use crate::line_model;
use crate::rendering::repeat_char;
use crate::rendering::run_spec;
use crate::style::HeaderLevel;
use crate::style::Style;

verus! {

/// The length of a border's horizontal run: the width less the two corners,
/// or nothing below the minimal width.
pub open spec fn run_len_spec(width: nat) -> nat {
    if width >= 2 {
        (width - 2) as nat
    } else {
        0
    }
}

/// The number of padding spaces after a formatted line of `len` characters:
/// what remains of the width after the line and the two borders, clamped to
/// zero when the line is wider.
pub open spec fn pad_spec(width: nat, len: nat) -> nat {
    if len + 2 <= width {
        (width - len - 2) as nat
    } else {
        0
    }
}

/// One assembled content row: the left border, the formatted line, and
/// padding spaces measured against the formatted line (color codes
/// included), closed by the right border. Rows carry no line terminator.
pub open spec fn row_spec(style: Style, width: nat, model: (Seq<char>, Color)) -> Seq<char> {
    side_spec(style.border, style.no_color_codes, style.border.glyphs.left) + paint_spec(
        model.1,
        style.no_color_codes,
        model.0,
    ) + run_spec(
        ' ',
        pad_spec(width, paint_spec(model.1, style.no_color_codes, model.0).len()),
    ) + side_spec(style.border, style.no_color_codes, style.border.glyphs.right)
}

/// All assembled content rows, in insertion order.
pub open spec fn rows_spec(style: Style, width: nat, models: Seq<(Seq<char>, Color)>) -> Seq<char>
    decreases models.len(),
{
    if models.len() == 0 {
        Seq::empty()
    } else {
        rows_spec(style, width, models.drop_last()) + row_spec(style, width, models.last())
    }
}

/// The full assembled banner: the top border and a line terminator, the
/// content rows run together, and the bottom border and a line terminator.
pub open spec fn assemble_spec(style: Style, width: nat, models: Seq<(Seq<char>, Color)>) -> Seq<
    char,
> {
    top_spec(style.border, style.no_color_codes, width) + "\r\n"@ + rows_spec(style, width, models)
        + bottom_spec(style.border, style.no_color_codes, width) + "\r\n"@
}

/// Renders one content row: the left border, the formatted line, padding
/// measured against the formatted line, and the right border.
fn render_row(border_painter: &BorderPainter, style: &Style, line: &ContentLine) -> (r: String)
    requires
        border_painter.style == style.border,
        border_painter.is_monochrome == style.no_color_codes,
    ensures
        r@ == row_spec(*style, border_painter.width as nat, line_model(*line)),
{
    // Add left border
    let mut r = border_painter.left();
    // Add line content
    let line_text = line.fmt(style.no_color_codes);
    r.append(line_text.as_str());
    // Add whitespace to end
    let len = line_text.as_str().unicode_len();
    let width = border_painter.width as usize;
    let pad = if len <= width && width - len >= 2 {
        width - len - 2
    } else {
        0
    };
    let padding = repeat_char(' ', pad);
    r.append(padding.as_str());
    // Add right border
    let right = border_painter.right();
    r.append(right.as_str());
    proof {
        assert(pad as nat == pad_spec(border_painter.width as nat, line_text@.len()));
        assert(r@ =~= row_spec(*style, border_painter.width as nat, line_model(*line)));
    }
    r
}

/// An early banner: a bordered panel of content lines with a fixed width.
/// Appending never widens it, rows are padded against their formatted text,
/// and only the top and bottom borders carry a line terminator.
pub struct Banner {
    /// The width of the panel, borders included.
    pub width: u8,
    /// The style the banner is rendered with.
    pub style: Style,
    /// The content lines, in insertion order.
    pub lines: Vec<ContentLine>,
}

impl Banner {
    /// The rendering models of the banner's lines, in insertion order.
    pub open spec fn models(self) -> Seq<(Seq<char>, Color)> {
        self.lines@.map(|i: int, l: ContentLine| line_model(l))
    }

    /// Creates a new banner with default values: width 50, no content, and
    /// the given style.
    pub fn new(style: &Style) -> (r: Banner)
        ensures
            r.width == 50,
            r.style == *style,
            r.models() == Seq::<(Seq<char>, Color)>::empty(),
    {
        let r = Banner { width: 50, style: *style, lines: Vec::new() };
        proof {
            assert(r.models() =~= Seq::<(Seq<char>, Color)>::empty());
        }
        r
    }

    /// Adds a header to the banner.
    pub fn add_header(&mut self, text: &str, level: HeaderLevel)
        ensures
            final(self).style == old(self).style,
            final(self).width == old(self).width,
            final(self).models() == old(self).models().push(
                (text@, old(self).style.header_spec(level).content_color),
            ),
    {
        let line = TextLine::new(text, self.style.header_style(&level));
        self.lines.push(ContentLine::Text(line));
        proof {
            assert(self.models() =~= old(self).models().push(
                (text@, old(self).style.header_spec(level).content_color),
            ));
        }
    }

    /// Adds a line of text to the banner.
    pub fn add_text(&mut self, text: &str)
        ensures
            final(self).style == old(self).style,
            final(self).width == old(self).width,
            final(self).models() == old(self).models().push(
                (text@, old(self).style.text.content_color),
            ),
    {
        let line = TextLine::new(text, &self.style.text);
        self.lines.push(ContentLine::Text(line));
        proof {
            assert(self.models() =~= old(self).models().push(
                (text@, old(self).style.text.content_color),
            ));
        }
    }

    /// Adds a line showing a key value pair to the banner.
    pub fn add_key_value(&mut self, key: &str, value: &str)
        ensures
            final(self).style == old(self).style,
            final(self).width == old(self).width,
            final(self).models() == old(self).models().push(
                (key@ + ": "@ + value@, old(self).style.text.content_color),
            ),
    {
        let line = KeyValueLine::new(key, value, &self.style.text);
        self.lines.push(ContentLine::KeyValue(line));
        proof {
            assert(self.models() =~= old(self).models().push(
                (key@ + ": "@ + value@, old(self).style.text.content_color),
            ));
        }
    }

    /// Assembles the banner. Assembling is read-only and deterministic: the
    /// result is a function of the banner's state alone, so repeated calls
    /// without intervening mutation yield identical strings.
    #[verifier::loop_isolation(false)]
    pub fn assemble(&self) -> (r: String)
        ensures
            r@ == assemble_spec(self.style, self.width as nat, self.models()),
    {
        let border_painter = BorderPainter::new(
            &self.style.border,
            self.style.no_color_codes,
            self.width,
        );
        let mut result = border_painter.top();
        result.append("\r\n");
        proof {
            assert(self.models().take(0) =~= Seq::<(Seq<char>, Color)>::empty());
            assert(result@ =~= top_spec(self.style.border, self.style.no_color_codes, self.width as nat)
                + "\r\n"@ + rows_spec(self.style, self.width as nat, self.models().take(0)));
        }
        let mut i: usize = 0;
        while i < self.lines.len()
            invariant
                i <= self.lines.len(),
                result@ == top_spec(self.style.border, self.style.no_color_codes, self.width as nat)
                    + "\r\n"@ + rows_spec(self.style, self.width as nat, self.models().take(i as int)),
            decreases self.lines.len() - i,
        {
            let line = &self.lines[i];
            let row = render_row(&border_painter, &self.style, line);
            result.append(row.as_str());
            proof {
                let models = self.models();
                assert(models.take(i + 1).drop_last() =~= models.take(i as int));
                assert(models.take(i + 1).last() == models[i as int]);
                assert(result@ =~= top_spec(
                    self.style.border,
                    self.style.no_color_codes,
                    self.width as nat,
                ) + "\r\n"@ + rows_spec(self.style, self.width as nat, models.take(i + 1)));
            }
            i = i + 1;
        }
        let bottom = border_painter.bottom();
        result.append(bottom.as_str());
        result.append("\r\n");
        proof {
            assert(self.models().take(self.lines.len() as int) =~= self.models());
            assert(result@ =~= assemble_spec(self.style, self.width as nat, self.models()));
        }
        result
    }
}

} // verus!

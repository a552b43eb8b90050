use vstd::prelude::*;
use vstd::string::*;

verus! {

/// The closed set of named terminal colors a banner can use.
#[derive(Clone, Copy)]
pub enum Color {
    Red,
    Blue,
    Green,
    Yellow,
    Magenta,
    Cyan,
    White,
    Black,
}

impl Color {
    /// The lowercase terminal identifier for the color.
    pub open spec fn name_spec(self) -> Seq<char> {
        match self {
            Color::Red => "red"@,
            Color::Blue => "blue"@,
            Color::Green => "green"@,
            Color::Yellow => "yellow"@,
            Color::Magenta => "magenta"@,
            Color::Cyan => "cyan"@,
            Color::White => "white"@,
            Color::Black => "black"@,
        }
    }

    /// The two-digit ANSI foreground code that paints text in the color.
    pub open spec fn ansi_code_spec(self) -> Seq<char> {
        match self {
            Color::Red => "31"@,
            Color::Blue => "34"@,
            Color::Green => "32"@,
            Color::Yellow => "33"@,
            Color::Magenta => "35"@,
            Color::Cyan => "36"@,
            Color::White => "37"@,
            Color::Black => "30"@,
        }
    }

    /// Returns the lowercase terminal identifier for the color.
    pub fn to_string(&self) -> (r: &'static str)
        ensures
            r@ == self.name_spec(),
    {
        match self {
            Color::Red => "red",
            Color::Blue => "blue",
            Color::Green => "green",
            Color::Yellow => "yellow",
            Color::Magenta => "magenta",
            Color::Cyan => "cyan",
            Color::White => "white",
            Color::Black => "black",
        }
    }
}

/// A string wrapped in the ANSI escape codes that paint it in the given color.
pub open spec fn wrap_spec(c: Color, s: Seq<char>) -> Seq<char> {
    "\u{1b}["@ + c.ansi_code_spec() + "m"@ + s + "\u{1b}[0m"@
}

/// What formatting a string produces: unchanged when color codes are
/// suppressed, otherwise wrapped in the color's escape codes.
pub open spec fn paint_spec(c: Color, suppress: bool, s: Seq<char>) -> Seq<char> {
    if suppress {
        s
    } else {
        wrap_spec(c, s)
    }
}

/// Relies on `colored::Color::to_fg_str`: each of the eight standard colors
/// maps to its fixed two-digit ANSI foreground code.
#[verifier::external_body]
fn ansi_fg_code(color: &Color) -> (r: String)
    ensures
        r@ == color.ansi_code_spec(),
{
    let c = match color {
        Color::Red => colored::Color::Red,
        Color::Blue => colored::Color::Blue,
        Color::Green => colored::Color::Green,
        Color::Yellow => colored::Color::Yellow,
        Color::Magenta => colored::Color::Magenta,
        Color::Cyan => colored::Color::Cyan,
        Color::White => colored::Color::White,
        Color::Black => colored::Color::Black,
    };
    c.to_fg_str().into_owned()
}

/// Paints a string in the given color unless color codes are suppressed.
pub fn paint(text: &str, color: &Color, suppress: bool) -> (r: String)
    ensures
        r@ == paint_spec(*color, suppress, text@),
{
    if suppress {
        text.to_owned()
    } else {
        let mut r = "\u{1b}[".to_owned();
        let code = ansi_fg_code(color);
        r.append(code.as_str());
        r.append("m");
        r.append(text);
        r.append("\u{1b}[0m");
        r
    }
}

} // verus!

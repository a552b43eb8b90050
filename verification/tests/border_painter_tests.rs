use banner::rendering::BorderPainter;
use banner::style::BorderGlyphs;
use banner::style::BorderStyle;
use banner::Color;

/// Creates a default border style for use in unit tests.
fn default_border_style() -> BorderStyle {
    BorderStyle { color: Color::White, is_visible: true, glyphs: BorderGlyphs::new() }
}

/// Verifies that the painter renders a basic top border line.
#[test]
fn test_fmt_top_basic() {
    let style = default_border_style();
    let painter: BorderPainter = BorderPainter::new(&style, true, 4);
    let expected = format!("{}", "┌────┐");
    assert_eq!(expected, painter.top());
}

/// Verifies that the top painter handles a width that is too small.
#[test]
fn test_fmt_top_zero_width() {
    let style = default_border_style();
    let painter: BorderPainter = BorderPainter::new(&style, true, 0);
    let expected = format!("{}", "");
    assert_eq!(expected, painter.top());
}

/// Verifies that the painter renders a top border line that includes color codes.
#[test]
fn test_fmt_top_colored() {
    let mut style = default_border_style();
    style.color = Color::Red;
    let painter: BorderPainter = BorderPainter::new(&style, false, 4);
    let expected = format!("{}", "\u{1b}[31m┌────┐\u{1b}[0m");
    assert_eq!(expected, painter.top());
}

/// Verifies that the painter renders a basic bottom border line.
#[test]
fn test_fmt_bottom_basic() {
    let style = default_border_style();
    let painter: BorderPainter = BorderPainter::new(&style, true, 4);
    let expected = format!("{}", "└────┘");
    assert_eq!(expected, painter.bottom());
}

/// Verifies that the bottom painter handles a width that is too small.
#[test]
fn test_fmt_bottom_zero_width() {
    let style = default_border_style();
    let painter: BorderPainter = BorderPainter::new(&style, true, 0);
    let expected = format!("{}", "");
    assert_eq!(expected, painter.bottom());
}

/// Verifies that the painter renders a bottom border line that includes color codes.
#[test]
fn test_fmt_bottom_colored() {
    let mut style = default_border_style();
    style.color = Color::Red;
    let painter: BorderPainter = BorderPainter::new(&style, false, 4);
    let expected = format!("{}", "\u{1b}[31m└────┘\u{1b}[0m");
    assert_eq!(expected, painter.bottom());
}

/// Verifies painting a basic left border.
#[test]
fn test_fmt_left_basic() {
    let style = default_border_style();
    let painter: BorderPainter = BorderPainter::new(&style, true, 4);
    let expected = format!("{}", "│");
    assert_eq!(expected, painter.left());
}

/// Verifies painting a colored left border.
#[test]
fn test_fmt_left_colored() {
    let mut style = default_border_style();
    style.color = Color::Red;
    let painter: BorderPainter = BorderPainter::new(&style, false, 4);
    let expected = format!("{}", "\u{1b}[31m│\u{1b}[0m");
    assert_eq!(expected, painter.left());
}

/// Verifies painting a basic right border.
#[test]
fn test_fmt_right_default_monochrome() {
    let style = default_border_style();
    let painter: BorderPainter = BorderPainter::new(&style, true, 4);
    let expected = format!("{}", "│");
    assert_eq!(expected, painter.right());
}

/// Verifies painting a colored right border.
#[test]
fn test_fmt_right_colored() {
    let mut style = default_border_style();
    style.color = Color::Red;
    let painter: BorderPainter = BorderPainter::new(&style, false, 4);
    let expected = format!("{}", "\u{1b}[31m│\u{1b}[0m");
    assert_eq!(expected, painter.right());
}

/// Verifies that for a width of at least two the visible top border has
/// exactly width + 2 characters and begins and ends with the corner glyphs.
#[test]
fn test_top_visible_shape() {
    let style = default_border_style();
    let painter: BorderPainter = BorderPainter::new(&style, true, 7);
    let top = painter.top();
    assert_eq!(top.chars().count(), 9);
    assert_eq!(top.chars().next(), Some('┌'));
    assert_eq!(top.chars().last(), Some('┐'));
}

/// Verifies that below a width of two both horizontal borders are empty.
#[test]
fn test_borders_empty_below_minimal_width() {
    let style = default_border_style();
    let painter: BorderPainter = BorderPainter::new(&style, true, 1);
    assert_eq!("", painter.top());
    assert_eq!("", painter.bottom());
}

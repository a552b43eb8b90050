use banner::banner::BorderPainter;
use banner::style::BorderGlyphs;
use banner::style::BorderStyle;
use banner::Color;

/// Creates a default border style for use in unit tests.
fn legacy_border_style() -> BorderStyle {
    BorderStyle { color: Color::White, is_visible: true, glyphs: BorderGlyphs::new() }
}

/// Verifies that the painter renders a basic top border line.
#[test]
fn border_painter_test_fmt_top_basic() {
    let style = legacy_border_style();
    let painter: BorderPainter = BorderPainter::new(&style, true, 4);
    let expected = format!("{}", "┌──┐");
    assert_eq!(expected, painter.top());
}

/// Verifies that the top painter handles a width that is too small.
#[test]
fn border_painter_test_fmt_top_zero_width() {
    let style = legacy_border_style();
    let painter: BorderPainter = BorderPainter::new(&style, true, 0);
    let expected = format!("{}", "");
    assert_eq!(expected, painter.top());
}

/// Verifies that the monochrome flag wins over a configured color.
#[test]
fn border_painter_test_fmt_top_colored() {
    let mut style = legacy_border_style();
    style.color = Color::Red;
    let painter: BorderPainter = BorderPainter::new(&style, true, 4);
    let expected = format!("{}", "┌──┐");
    assert_eq!(expected, painter.top());
}

/// Verifies that the painter renders a basic bottom border line.
#[test]
fn border_painter_test_fmt_bottom_basic() {
    let style = legacy_border_style();
    let painter: BorderPainter = BorderPainter::new(&style, true, 4);
    let expected = format!("{}", "└──┘");
    assert_eq!(expected, painter.bottom());
}

/// Verifies that the bottom painter handles a width that is too small.
#[test]
fn border_painter_test_fmt_bottom_zero_width() {
    let style = legacy_border_style();
    let painter: BorderPainter = BorderPainter::new(&style, true, 0);
    let expected = format!("{}", "");
    assert_eq!(expected, painter.bottom());
}

/// Verifies painting a basic left border.
#[test]
fn border_painter_test_fmt_left_basic() {
    let style = legacy_border_style();
    let painter: BorderPainter = BorderPainter::new(&style, true, 4);
    let expected = format!("{}", "│");
    assert_eq!(expected, painter.left());
}

/// Verifies painting a basic right border.
#[test]
fn border_painter_test_fmt_right_default_monochrome() {
    let style = legacy_border_style();
    let painter: BorderPainter = BorderPainter::new(&style, true, 4);
    let expected = format!("{}", "│");
    assert_eq!(expected, painter.right());
}

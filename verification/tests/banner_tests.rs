use banner::Banner;
use banner::Color;
use banner::HeaderLevel;
use banner::Style;

/// Tests that a banner can be rendered without color codes.
#[test]
fn test_assemble_empty_no_color_codes() {
    // Create a style with suppressed color codes
    let mut style: Style = Style::new();
    style.no_color_codes = true;

    let mut banner: Banner = Banner::new(&style);
    banner.width = 4;
    assert_eq!("┌────┐\r\n└────┘\r\n", banner.assemble());
}

/// Tests that a banner pads a short line up to the panel width.
#[test]
fn test_assemble_right_padding() {
    // Create a style with suppressed color codes
    let mut style: Style = Style::new();
    style.no_color_codes = true;

    let mut banner: Banner = Banner::new(&style);
    banner.width = 10;
    banner.add_text("Test");

    assert_eq!("┌──────────┐\r\n│Test      │\r\n└──────────┘\r\n", banner.assemble());
}

/// Tests that a banner declared too narrow widens to fit its content.
#[test]
fn test_assemble_auto_width() {
    // Create a style with suppressed color codes
    let mut style: Style = Style::new();
    style.no_color_codes = true;

    let mut banner: Banner = Banner::new(&style);
    banner.width = 2; // Banner declared with width 2
    banner.add_text("Test"); // but should auto-widen to 4

    assert_eq!("┌────┐\r\n│Test│\r\n└────┘\r\n", banner.assemble());
}

#[test]
fn test_assemble_banner_no_color_codes() {
    // Create a style with suppressed color codes
    let mut style: Style = Style::new();
    style.no_color_codes = true;

    let mut banner: Banner = Banner::new(&style);
    banner.width = 12;
    banner.add_header("Header h1", HeaderLevel::H1);
    banner.add_header("Header h2", HeaderLevel::H2);
    banner.add_header("Header h3", HeaderLevel::H3);
    banner.add_text("Text");
    banner.add_key_value("Key", "Val");

    let expected = "┌────────────┐\r\n│Header h1   │\r\n│Header h2   │\r\n│Header h3   │\r\n│Text        │\r\n│Key: Val    │\r\n└────────────┘\r\n";
    assert_eq!(expected, banner.assemble());
}

/// Tests that an empty banner is assembled correctly.
#[test]
fn test_assemble_empty() {
    // Create a style
    let mut style: Style = Style::new();
    style.border.color = Color::White;

    // Build the banner
    let mut banner: Banner = Banner::new(&style);
    banner.width = 4;

    let expected = "\u{1b}[37m┌────┐\u{1b}[0m\r\n\u{1b}[37m└────┘\u{1b}[0m\r\n";
    assert_eq!(expected, banner.assemble());
}

/// Verifies that a banner with a single text line is assembled correctly.
#[test]
fn test_assemble_simple() {
    // Create a style
    let mut style: Style = Style::new();
    style.no_color_codes = true;

    // Build the banner
    let mut banner: Banner = Banner::new(&style);
    banner.width = 16;
    banner.add_text("Hello!");

    let expected = "┌────────────────┐\r\n│Hello!          │\r\n└────────────────┘\r\n";
    assert_eq!(expected, banner.assemble());
}

/// Verifies that a banner with colored text lines is assembled correctly.
#[test]
fn test_assemble_simple_colored() {
    // Create a style
    let mut style: Style = Style::new();
    style.border.color = Color::White;
    style.text.content_color = Color::Red;

    // Build a banner
    let mut banner: Banner = Banner::new(&style);
    banner.width = 16;

    // Add multiple lines of text
    banner.add_text("Hello, ");
    banner.add_text("World!");

    let expected = "\u{1b}[37m┌────────────────┐\u{1b}[0m\r\n\u{1b}[37m│\u{1b}[0m\u{1b}[31mHello, \u{1b}[0m         \u{1b}[37m│\u{1b}[0m\r\n\u{1b}[37m│\u{1b}[0m\u{1b}[31mWorld!\u{1b}[0m          \u{1b}[37m│\u{1b}[0m\r\n\u{1b}[37m└────────────────┘\u{1b}[0m\r\n";
    assert_eq!(expected, banner.assemble());
}

/// Verifies that a key-value line renders as the key, a colon and a space,
/// and the value, padded up to the panel width.
#[test]
fn test_assemble_keyvalue_simple() {
    let mut style: Style = Style::new();
    style.no_color_codes = true;

    let mut banner: Banner = Banner::new(&style);
    banner.width = 12;
    banner.add_key_value("Key", "Val");

    assert_eq!("┌────────────┐\r\n│Key: Val    │\r\n└────────────┘\r\n", banner.assemble());
}

/// Verifies that assembling twice without mutation yields identical strings.
#[test]
fn test_assemble_idempotent() {
    let mut style: Style = Style::new();
    style.text.content_color = Color::Cyan;

    let mut banner: Banner = Banner::new(&style);
    banner.width = 8;
    banner.add_text("Twice");
    banner.add_key_value("a", "b");

    let first = banner.assemble();
    let second = banner.assemble();
    assert_eq!(first, second);
}

/// Verifies that auto-widening grows the width to the widest line and that a
/// later, shorter line leaves it unchanged.
#[test]
fn test_monotonic_widening() {
    let mut style: Style = Style::new();
    style.no_color_codes = true;

    let mut banner: Banner = Banner::new(&style);
    banner.width = 2;
    assert!(banner.auto_widen);
    banner.add_text("xxxxx");
    assert_eq!(banner.width, 5);
    banner.add_text("xx");
    assert_eq!(banner.width, 5);
    banner.add_key_value("a", "b");
    assert_eq!(banner.width, 5);
}

/// Verifies that with colors enabled each content row is wrapped in its own
/// color while the border rows are wrapped in the border color as one unit.
#[test]
fn test_rows_painted_independently() {
    let mut style: Style = Style::new();
    style.border.color = Color::White;
    style.h1.content_color = Color::Green;
    style.text.content_color = Color::Red;

    let mut banner: Banner = Banner::new(&style);
    banner.width = 6;
    banner.add_header("Hi", HeaderLevel::H1);
    banner.add_text("Yo");

    let expected = "\u{1b}[37m┌──────┐\u{1b}[0m\r\n\u{1b}[37m│\u{1b}[0m\u{1b}[32mHi\u{1b}[0m    \u{1b}[37m│\u{1b}[0m\r\n\u{1b}[37m│\u{1b}[0m\u{1b}[31mYo\u{1b}[0m    \u{1b}[37m│\u{1b}[0m\r\n\u{1b}[37m└──────┘\u{1b}[0m\r\n";
    assert_eq!(expected, banner.assemble());
}

/// Verifies that a line wider than a non-widening panel overflows without
/// padding instead of failing.
#[test]
fn test_assemble_overflow_clamps_padding() {
    let mut style: Style = Style::new();
    style.no_color_codes = true;

    let mut banner: Banner = Banner::new(&style);
    banner.width = 4;
    banner.auto_widen = false;
    banner.add_text("Overflow");

    assert_eq!("┌────┐\r\n│Overflow│\r\n└────┘\r\n", banner.assemble());
}

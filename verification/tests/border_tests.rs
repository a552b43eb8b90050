use banner::banner::Border;

#[test]
fn test_fmt_top() {
    let border: Border = Border::new();
    let expected = "\u{1b}[37m┌──┐\u{1b}[0m";
    assert_eq!(expected, border.fmt_top(4));
}

#[test]
fn test_fmt_bottom() {
    let border: Border = Border::new();
    let expected = "\u{1b}[37m└──┘\u{1b}[0m";
    assert_eq!(expected, border.fmt_bottom(4));
}

#[test]
fn test_fmt_left() {
    let border: Border = Border::new();
    let expected = "\u{1b}[37m│\u{1b}[0m";
    assert_eq!(expected, border.fmt_left());
}

#[test]
fn test_fmt_right() {
    let border: Border = Border::new();
    let expected = "\u{1b}[37m│\u{1b}[0m";
    assert_eq!(expected, border.fmt_right());
}

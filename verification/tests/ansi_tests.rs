use usb_serial::serial::ansi::{push_decimal, Color, EscapeSequence, Style};

const ALL_NAMED: [(Color, &str, &str); 16] = [
    (Color::Black, "30", "40"),
    (Color::Red, "31", "41"),
    (Color::Green, "32", "42"),
    (Color::Yellow, "33", "43"),
    (Color::Blue, "34", "44"),
    (Color::Magenta, "35", "45"),
    (Color::Cyan, "36", "46"),
    (Color::White, "37", "47"),
    (Color::LightBlack, "90", "100"),
    (Color::LightRed, "91", "101"),
    (Color::LightGreen, "92", "102"),
    (Color::LightYellow, "93", "103"),
    (Color::LightBlue, "94", "104"),
    (Color::LightMagenta, "95", "105"),
    (Color::LightCyan, "96", "106"),
    (Color::LightWhite, "97", "107"),
];

#[test]
fn empty_sequence_is_introducer_and_terminator() {
    assert_eq!(EscapeSequence::new().render(true), "\u{1b}[m");
}

#[test]
fn red_foreground() {
    assert_eq!(EscapeSequence::new().set_fg(Color::Red).render(true), "\u{1b}[31m");
}

#[test]
fn true_color_foreground() {
    let seq = EscapeSequence::new().set_fg(Color::TrueColor { r: 1, g: 2, b: 3 });
    assert_eq!(seq.render(true), "\u{1b}[38;2;1;2;3m");
}

#[test]
fn true_color_background() {
    let seq = EscapeSequence::new().set_bg(Color::TrueColor { r: 255, g: 0, b: 128 });
    assert_eq!(seq.render(true), "\u{1b}[48;2;255;0;128m");
}

#[test]
fn every_named_foreground() {
    for (color, fg, _) in ALL_NAMED {
        let text = EscapeSequence::new().set_fg(color).render(true);
        assert_eq!(text, format!("\u{1b}[{}m", fg));
    }
}

#[test]
fn every_named_background() {
    for (color, _, bg) in ALL_NAMED {
        let text = EscapeSequence::new().set_bg(color).render(true);
        assert_eq!(text, format!("\u{1b}[{}m", bg));
    }
}

#[test]
fn every_style_code() {
    let cases = [
        (Style::Clear, "0"),
        (Style::Bold, "1"),
        (Style::Dimmed, "2"),
        (Style::Italic, "3"),
        (Style::Underline, "4"),
        (Style::Blink, "5"),
        (Style::Reversed, "7"),
        (Style::Hidden, "8"),
        (Style::Strikethrough, "9"),
    ];
    for (style, code) in cases {
        let styles = [style];
        let text = EscapeSequence::new().set_styles(&styles).render(true);
        assert_eq!(text, format!("\u{1b}[{}m", code));
        assert_eq!(style.code().to_string(), code);
    }
}

#[test]
fn styles_keep_their_order() {
    let styles = [Style::Bold, Style::Underline, Style::Clear, Style::Strikethrough];
    let text = EscapeSequence::new().set_styles(&styles).render(true);
    assert_eq!(text, "\u{1b}[1409m");
    let reversed = [Style::Strikethrough, Style::Clear, Style::Underline, Style::Bold];
    let text = EscapeSequence::new().set_styles(&reversed).render(true);
    assert_eq!(text, "\u{1b}[9041m");
}

#[test]
fn foreground_background_styles_are_concatenated() {
    let styles = [Style::Bold];
    let seq = EscapeSequence::new().set_styles(&styles).set_bg(Color::Blue).set_fg(Color::Red);
    assert_eq!(seq.render(true), "\u{1b}[31441m");
}

#[test]
fn builders_replace_what_was_set() {
    let first = [Style::Bold];
    let second = [Style::Italic];
    let seq = EscapeSequence::new()
        .set_fg(Color::Red)
        .set_fg(Color::Green)
        .set_bg(Color::Black)
        .set_bg(Color::LightWhite)
        .set_styles(&first)
        .set_styles(&second);
    assert_eq!(seq.render(true), "\u{1b}[321073m");
}

#[test]
fn builders_hand_back_a_changed_copy() {
    let base = EscapeSequence::new().set_fg(Color::Cyan);
    let _changed = base.set_bg(Color::Red);
    assert_eq!(base.render(true), "\u{1b}[36m");
    assert_eq!(base, EscapeSequence::new().set_fg(Color::Cyan));
}

#[test]
fn disabled_color_renders_nothing() {
    let styles = [Style::Bold, Style::Blink];
    assert_eq!(EscapeSequence::new().render(false), "");
    assert_eq!(EscapeSequence::new().set_fg(Color::Red).render(false), "");
    assert_eq!(
        EscapeSequence::new()
            .set_fg(Color::TrueColor { r: 1, g: 2, b: 3 })
            .set_bg(Color::White)
            .set_styles(&styles)
            .render(false),
        ""
    );
}

#[test]
fn push_to_appends_behind_what_is_there() {
    let mut out = String::from("abc");
    EscapeSequence::new().set_fg(Color::Red).push_to(true, &mut out);
    assert_eq!(out, "abc\u{1b}[31m");
    EscapeSequence::new().set_fg(Color::Red).push_to(false, &mut out);
    assert_eq!(out, "abc\u{1b}[31m");
}

#[test]
fn push_code_of_both_grounds() {
    let mut out = String::new();
    Color::LightCyan.push_code(false, &mut out);
    out.push(' ');
    Color::LightCyan.push_code(true, &mut out);
    out.push(' ');
    Color::TrueColor { r: 10, g: 200, b: 0 }.push_code(true, &mut out);
    assert_eq!(out, "96 106 48;2;10;200;0");
}

#[test]
fn decimal_numerals() {
    for n in [0u32, 7, 9, 10, 11, 99, 100, 101, 255, 1000, 65535, 4294967295] {
        let mut out = String::from("x");
        push_decimal(&mut out, n);
        assert_eq!(out, format!("x{}", n));
    }
}

//! Terminal escape sequences for colour and style, in the restricted SGR
//! subset with the 24-bit colour extension.

use vstd::prelude::*;
use vstd::string::*;

verus! {

/// A terminal colour: one of the sixteen named colours, or a 24-bit triple.
#[derive(Clone, Copy, PartialEq, Eq, Debug, Structural)]
#[allow(missing_docs)]
pub enum Color {
    Black,
    Red,
    Green,
    Yellow,
    Blue,
    Magenta,
    Cyan,
    White,
    LightBlack,
    LightRed,
    LightGreen,
    LightYellow,
    LightBlue,
    LightMagenta,
    LightCyan,
    LightWhite,
    TrueColor { r: u8, g: u8, b: u8 },
}

/// A text style token.
#[derive(Clone, Copy, PartialEq, Eq, Debug, Structural)]
#[allow(missing_docs)]
pub enum Style {
    Clear,
    Bold,
    Dimmed,
    Underline,
    Reversed,
    Italic,
    Blink,
    Hidden,
    Strikethrough,
}

/// The character that stands for a decimal digit.
pub open spec fn digit_char(d: nat) -> char {
    if d == 0 {
        '0'
    } else if d == 1 {
        '1'
    } else if d == 2 {
        '2'
    } else if d == 3 {
        '3'
    } else if d == 4 {
        '4'
    } else if d == 5 {
        '5'
    } else if d == 6 {
        '6'
    } else if d == 7 {
        '7'
    } else if d == 8 {
        '8'
    } else {
        '9'
    }
}

/// The decimal numeral of `n`, most significant digit first, without
/// leading zeros.
pub open spec fn decimal(n: nat) -> Seq<char>
    decreases n,
{
    if n < 10 {
        seq![digit_char(n)]
    } else {
        decimal(n / 10).push(digit_char(n % 10))
    }
}

/// The digit that a character stands for; 0 for any other character.
pub open spec fn digit_value(c: char) -> nat {
    if c == '1' {
        1
    } else if c == '2' {
        2
    } else if c == '3' {
        3
    } else if c == '4' {
        4
    } else if c == '5' {
        5
    } else if c == '6' {
        6
    } else if c == '7' {
        7
    } else if c == '8' {
        8
    } else if c == '9' {
        9
    } else {
        0
    }
}

/// The number that a sequence of digits denotes in base ten.
pub open spec fn numeral_value(digits: Seq<char>) -> nat
    decreases digits.len(),
{
    if digits.len() == 0 {
        0
    } else {
        numeral_value(digits.drop_last()) * 10 + digit_value(digits.last())
    }
}

/// A decimal numeral denotes the number it was written for, and it has no
/// leading zero but for the numeral of zero itself.
pub proof fn decimal_denotes(n: nat)
    ensures
        numeral_value(decimal(n)) == n,
        decimal(n).len() >= 1,
        n >= 1 ==> decimal(n)[0] != '0',
    decreases n,
{
    if n < 10 {
        assert(decimal(n).drop_last() =~= Seq::<char>::empty());
        assert(numeral_value(decimal(n).drop_last()) == 0);
    } else {
        decimal_denotes(n / 10);
        assert(decimal(n).drop_last() =~= decimal(n / 10));
        assert(decimal(n).last() == digit_char(n % 10));
    }
}

/// The one-character text of a digit.
fn digit_str(d: u32) -> (s: &'static str)
    requires
        d < 10,
    ensures
        s@ == seq![digit_char(d as nat)],
{
    proof {
        reveal_strlit("0");
        reveal_strlit("1");
        reveal_strlit("2");
        reveal_strlit("3");
        reveal_strlit("4");
        reveal_strlit("5");
        reveal_strlit("6");
        reveal_strlit("7");
        reveal_strlit("8");
        reveal_strlit("9");
    }
    let s = match d {
        0 => "0",
        1 => "1",
        2 => "2",
        3 => "3",
        4 => "4",
        5 => "5",
        6 => "6",
        7 => "7",
        8 => "8",
        _ => "9",
    };
    assert(s@ =~= seq![digit_char(d as nat)]);
    s
}

/// Appends the decimal numeral of `n` to `out`.
pub fn push_decimal(out: &mut String, n: u32)
    ensures
        final(out)@ == old(out)@ + decimal(n as nat),
    decreases n,
{
    if n >= 10 {
        push_decimal(out, n / 10);
    }
    out.append(digit_str(n % 10));
    assert(out@ =~= old(out)@ + decimal(n as nat));
}

impl Color {
    /// The numeric code that selects a named colour as foreground. The
    /// standard colours take 30 to 37, the bright ones 90 to 97.
    pub open spec fn fg_number(self) -> nat {
        match self {
            Color::Black => 30,
            Color::Red => 31,
            Color::Green => 32,
            Color::Yellow => 33,
            Color::Blue => 34,
            Color::Magenta => 35,
            Color::Cyan => 36,
            Color::White => 37,
            Color::LightBlack => 90,
            Color::LightRed => 91,
            Color::LightGreen => 92,
            Color::LightYellow => 93,
            Color::LightBlue => 94,
            Color::LightMagenta => 95,
            Color::LightCyan => 96,
            Color::LightWhite => 97,
            Color::TrueColor { .. } => 38,
        }
    }

    /// The text that selects this colour: the numeral of its code, ten higher
    /// for a background; for a 24-bit triple the extended form, the code,
    /// `;2;` and the three components separated by `;`.
    pub open spec fn code(self, background: bool) -> Seq<char> {
        let base: nat = if background {
            self.fg_number() + 10
        } else {
            self.fg_number()
        };
        match self {
            Color::TrueColor { r, g, b } => decimal(base) + seq![';', '2', ';'] + decimal(
                r as nat,
            ) + seq![';'] + decimal(g as nat) + seq![';'] + decimal(b as nat),
            _ => decimal(base),
        }
    }

    /// The numeric code of a named colour as foreground; 38 for a triple.
    fn number(self) -> (n: u32)
        ensures
            n == self.fg_number(),
    {
        match self {
            Color::Black => 30,
            Color::Red => 31,
            Color::Green => 32,
            Color::Yellow => 33,
            Color::Blue => 34,
            Color::Magenta => 35,
            Color::Cyan => 36,
            Color::White => 37,
            Color::LightBlack => 90,
            Color::LightRed => 91,
            Color::LightGreen => 92,
            Color::LightYellow => 93,
            Color::LightBlue => 94,
            Color::LightMagenta => 95,
            Color::LightCyan => 96,
            Color::LightWhite => 97,
            Color::TrueColor { .. } => 38,
        }
    }

    /// Appends the text that selects this colour to `out`.
    pub fn push_code(self, background: bool, out: &mut String)
        ensures
            final(out)@ == old(out)@ + self.code(background),
    {
        let base: u32 = if background {
            self.number() + 10
        } else {
            self.number()
        };
        push_decimal(out, base);
        if let Color::TrueColor { r, g, b } = self {
            proof {
                reveal_strlit(";2;");
                reveal_strlit(";");
            }
            out.append(";2;");
            push_decimal(out, r as u32);
            out.append(";");
            push_decimal(out, g as u32);
            out.append(";");
            push_decimal(out, b as u32);
        }
        assert(out@ =~= old(out)@ + self.code(background));
    }
}

impl Style {
    /// The numeric code of a style token.
    pub open spec fn number(self) -> nat {
        match self {
            Style::Clear => 0,
            Style::Bold => 1,
            Style::Dimmed => 2,
            Style::Italic => 3,
            Style::Underline => 4,
            Style::Blink => 5,
            Style::Reversed => 7,
            Style::Hidden => 8,
            Style::Strikethrough => 9,
        }
    }

    /// The numeric code of a style token.
    pub fn code(self) -> (n: u32)
        ensures
            n == self.number(),
    {
        match self {
            Style::Clear => 0,
            Style::Bold => 1,
            Style::Dimmed => 2,
            Style::Italic => 3,
            Style::Underline => 4,
            Style::Blink => 5,
            Style::Reversed => 7,
            Style::Hidden => 8,
            Style::Strikethrough => 9,
        }
    }
}

/// The codes of a sequence of style tokens, written one after another in
/// the order of the sequence.
pub open spec fn style_codes(styles: Seq<Style>) -> Seq<char>
    decreases styles.len(),
{
    if styles.len() == 0 {
        Seq::empty()
    } else {
        style_codes(styles.drop_last()) + decimal(styles.last().number())
    }
}

/// What an escape sequence holds.
pub struct EscapeSequenceView {
    /// The foreground colour, if one is set.
    pub fg: Option<Color>,
    /// The background colour, if one is set.
    pub bg: Option<Color>,
    /// The style tokens, in the order in which they are written.
    pub styles: Seq<Style>,
}

impl EscapeSequenceView {
    /// The text of the foreground part: empty where no colour is set.
    pub open spec fn fg_text(self) -> Seq<char> {
        match self.fg {
            Some(color) => color.code(false),
            None => Seq::empty(),
        }
    }

    /// The text of the background part: empty where no colour is set.
    pub open spec fn bg_text(self) -> Seq<char> {
        match self.bg {
            Some(color) => color.code(true),
            None => Seq::empty(),
        }
    }

    /// The text that a terminal receives for this value: nothing at all
    /// where colour output is disabled; otherwise the introducer `ESC [`,
    /// the foreground, the background, the styles in order, and `m`.
    pub open spec fn rendered(self, color_enabled: bool) -> Seq<char> {
        if color_enabled {
            seq!['\u{1b}', '['] + self.fg_text() + self.bg_text() + style_codes(self.styles)
                + seq!['m']
        } else {
            Seq::empty()
        }
    }
}

/// A colour and style selection for a terminal. It is a plain value: the
/// builders hand back a changed copy.
#[derive(Clone, Copy, PartialEq, Eq, Debug)]
pub struct EscapeSequence<'a> {
    fg: Option<Color>,
    bg: Option<Color>,
    styles: &'a [Style],
}

impl<'a> View for EscapeSequence<'a> {
    type V = EscapeSequenceView;

    closed spec fn view(&self) -> EscapeSequenceView {
        EscapeSequenceView { fg: self.fg, bg: self.bg, styles: self.styles@ }
    }
}

impl<'a> EscapeSequence<'a> {
    /// An escape sequence that selects nothing.
    pub fn new() -> (seq: Self)
        ensures
            seq@ == (EscapeSequenceView { fg: None, bg: None, styles: Seq::empty() }),
    {
        let seq = Self { bg: None, fg: None, styles: &[] };
        assert(seq.styles@ =~= Seq::empty());
        seq
    }

    /// The same selection with `color` as foreground.
    pub fn set_fg(self, color: Color) -> (seq: Self)
        ensures
            seq@ == (EscapeSequenceView { fg: Some(color), ..self@ }),
    {
        EscapeSequence { fg: Some(color), ..self }
    }

    /// The same selection with `color` as background.
    pub fn set_bg(self, color: Color) -> (seq: Self)
        ensures
            seq@ == (EscapeSequenceView { bg: Some(color), ..self@ }),
    {
        EscapeSequence { bg: Some(color), ..self }
    }

    /// The same selection with `styles` in place of its style tokens.
    pub fn set_styles(self, styles: &'a [Style]) -> (seq: Self)
        ensures
            seq@ == (EscapeSequenceView { styles: styles@, ..self@ }),
    {
        EscapeSequence { styles, ..self }
    }

    /// Appends the text of this escape sequence to `out`.
    pub fn push_to(&self, color_enabled: bool, out: &mut String)
        ensures
            final(out)@ == old(out)@ + self@.rendered(color_enabled),
    {
        if !color_enabled {
            assert(out@ =~= old(out)@ + self@.rendered(color_enabled));
            return ;
        }
        proof {
            reveal_strlit("\u{1b}[");
            reveal_strlit("m");
        }
        out.append("\u{1b}[");
        if let Some(color) = self.fg {
            color.push_code(false, out);
        }
        if let Some(color) = self.bg {
            color.push_code(true, out);
        }
        let ghost head = old(out)@ + seq!['\u{1b}', '['] + self@.fg_text() + self@.bg_text();
        assert(out@ =~= head);
        let mut i: usize = 0;
        while i < self.styles.len()
            invariant
                i <= self.styles@.len(),
                out@ == head + style_codes(self.styles@.take(i as int)),
            decreases self.styles.len() - i,
        {
            push_decimal(out, self.styles[i].code());
            proof {
                let next = self.styles@.take(i + 1);
                assert(next.drop_last() =~= self.styles@.take(i as int));
                assert(next.last() == self.styles@[i as int]);
            }
            i += 1;
        }
        assert(self.styles@.take(i as int) =~= self.styles@);
        out.append("m");
        assert(out@ =~= old(out)@ + self@.rendered(color_enabled));
    }

    /// The text that a terminal receives for this escape sequence, with
    /// colour output enabled or disabled.
    pub fn render(&self, color_enabled: bool) -> (text: String)
        ensures
            text@ == self@.rendered(color_enabled),
    {
        let mut text = String::new();
        self.push_to(color_enabled, &mut text);
        text
    }
}

/// With colour output disabled every escape sequence renders as the empty
/// text, whatever it holds.
pub proof fn colorless_rendering_is_empty(seq: EscapeSequenceView)
    ensures
        seq.rendered(false) == Seq::<char>::empty(),
{
}

/// An escape sequence that selects nothing renders as the introducer
/// directly followed by the terminator.
pub proof fn bare_rendering(seq: EscapeSequenceView)
    requires
        seq.fg is None,
        seq.bg is None,
        seq.styles.len() == 0,
    ensures
        seq.rendered(true) == seq!['\u{1b}', '[', 'm'],
{
    assert(seq.rendered(true) =~= seq!['\u{1b}', '[', 'm']);
}

/// With colour output enabled every rendering opens with the introducer
/// and closes with the terminator.
pub proof fn rendering_is_framed(seq: EscapeSequenceView)
    ensures
        seq.rendered(true).len() >= 3,
        seq.rendered(true)[0] == '\u{1b}',
        seq.rendered(true)[1] == '[',
        seq.rendered(true).last() == 'm',
{
}

} // verus!

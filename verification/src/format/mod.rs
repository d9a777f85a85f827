//! Turning a `§`-coded message of the day into text components.
use crate::text::{chars_of, push_char};
use vstd::prelude::*;

verus! {

/// The sixteen chat colours, in the order of their codes `0` to `f`.
#[derive(Debug, Clone, Copy, PartialEq, Eq, Structural)]
pub enum MotdColor {
    Black,
    DarkBlue,
    DarkGreen,
    DarkAqua,
    DarkRed,
    DarkPurple,
    Gold,
    Gray,
    DarkGray,
    Blue,
    Green,
    Aqua,
    Red,
    LightPurple,
    Yellow,
    White,
}

/// The formatting of a text component: a colour and the style flags that are set.
#[derive(Debug, Clone, Copy, PartialEq, Eq, Structural)]
pub struct MotdStyle {
    pub color: Option<MotdColor>,
    pub obfuscated: bool,
    pub bold: bool,
    pub strikethrough: bool,
    pub underlined: bool,
    pub italic: bool,
    pub reset: bool,
}

/// A run of text with its formatting.
pub struct MotdComponent {
    pub text: String,
    pub style: MotdStyle,
}

/// The colour that a format code names, if it names one.
pub open spec fn color_code(c: char) -> Option<MotdColor> {
    if c == '0' {
        Some(MotdColor::Black)
    } else if c == '1' {
        Some(MotdColor::DarkBlue)
    } else if c == '2' {
        Some(MotdColor::DarkGreen)
    } else if c == '3' {
        Some(MotdColor::DarkAqua)
    } else if c == '4' {
        Some(MotdColor::DarkRed)
    } else if c == '5' {
        Some(MotdColor::DarkPurple)
    } else if c == '6' {
        Some(MotdColor::Gold)
    } else if c == '7' {
        Some(MotdColor::Gray)
    } else if c == '8' {
        Some(MotdColor::DarkGray)
    } else if c == '9' {
        Some(MotdColor::Blue)
    } else if c == 'a' {
        Some(MotdColor::Green)
    } else if c == 'b' {
        Some(MotdColor::Aqua)
    } else if c == 'c' {
        Some(MotdColor::Red)
    } else if c == 'd' {
        Some(MotdColor::LightPurple)
    } else if c == 'e' {
        Some(MotdColor::Yellow)
    } else if c == 'f' {
        Some(MotdColor::White)
    } else {
        None
    }
}

/// No colour and no style flag.
pub open spec fn plain_style() -> MotdStyle {
    MotdStyle {
        color: None,
        obfuscated: false,
        bold: false,
        strikethrough: false,
        underlined: false,
        italic: false,
        reset: false,
    }
}

/// `st` after the format code `c`: a colour code sets the colour, `k`, `l`, `m`, `n`, `o`
/// and `r` set the obfuscated, bold, strikethrough, underlined, italic and reset flags, and
/// any other character changes nothing.
pub open spec fn apply_code(st: MotdStyle, c: char) -> MotdStyle {
    if color_code(c) is Some {
        MotdStyle { color: color_code(c), ..st }
    } else if c == 'k' {
        MotdStyle { obfuscated: true, ..st }
    } else if c == 'l' {
        MotdStyle { bold: true, ..st }
    } else if c == 'm' {
        MotdStyle { strikethrough: true, ..st }
    } else if c == 'n' {
        MotdStyle { underlined: true, ..st }
    } else if c == 'o' {
        MotdStyle { italic: true, ..st }
    } else if c == 'r' {
        MotdStyle { reset: true, ..st }
    } else {
        st
    }
}

/// The components that the characters of `s` from `i` on give, `text` being the text
/// gathered since the last component and `st` the formatting it has. A `§` that has a
/// character after it ends the gathered text (which becomes a component if it is not
/// empty, the next one starting with no formatting) and applies that character as a format
/// code; every other character is text. Text left at the end becomes the last component.
pub open spec fn motd_components(s: Seq<char>, i: nat, text: Seq<char>, st: MotdStyle) -> Seq<
    (Seq<char>, MotdStyle),
>
    decreases s.len() - i,
{
    if i >= s.len() {
        if text.len() > 0 {
            seq![(text, st)]
        } else {
            Seq::empty()
        }
    } else if s[i as int] == '§' && i + 1 < s.len() {
        if text.len() > 0 {
            seq![(text, st)] + motd_components(
                s,
                i + 2,
                Seq::empty(),
                apply_code(plain_style(), s[i + 1 as int]),
            )
        } else {
            motd_components(s, i + 2, Seq::empty(), apply_code(st, s[i + 1 as int]))
        }
    } else {
        motd_components(s, i + 1, text.push(s[i as int]), st)
    }
}

/// The components of a whole message of the day.
pub open spec fn spec_format_motd(motd: Seq<char>) -> Seq<(Seq<char>, MotdStyle)> {
    motd_components(motd, 0, Seq::empty(), plain_style())
}

/// The components taken by their text and formatting.
pub open spec fn components_view(v: Seq<MotdComponent>) -> Seq<(Seq<char>, MotdStyle)> {
    v.map_values(|c: MotdComponent| (c.text@, c.style))
}

/// The characters of `s` from `i` on with every format code (a `§` and the character
/// after it) left out.
pub open spec fn strip_codes(s: Seq<char>, i: nat) -> Seq<char>
    decreases s.len() - i,
{
    if i >= s.len() {
        Seq::empty()
    } else if s[i as int] == '§' && i + 1 < s.len() {
        strip_codes(s, i + 2)
    } else {
        seq![s[i as int]] + strip_codes(s, i + 1)
    }
}

/// The texts of `parts`, one after the other.
pub open spec fn joined_text(parts: Seq<(Seq<char>, MotdStyle)>) -> Seq<char>
    decreases parts.len(),
{
    if parts.len() == 0 {
        Seq::empty()
    } else {
        parts[0].0 + joined_text(parts.drop_first())
    }
}

proof fn lemma_joined_text_cons(x: (Seq<char>, MotdStyle), rest: Seq<(Seq<char>, MotdStyle)>)
    ensures
        joined_text(seq![x] + rest) == x.0 + joined_text(rest),
{
    assert((seq![x] + rest).drop_first() =~= rest);
}

proof fn lemma_components_text(s: Seq<char>, i: nat, text: Seq<char>, st: MotdStyle)
    ensures
        joined_text(motd_components(s, i, text, st)) == text + strip_codes(s, i),
        forall|k: int|
            0 <= k < motd_components(s, i, text, st).len() ==> (#[trigger] motd_components(
                s,
                i,
                text,
                st,
            )[k]).0.len() > 0,
    decreases s.len() - i,
{
    let parts = motd_components(s, i, text, st);
    if i >= s.len() {
        if text.len() > 0 {
            lemma_joined_text_cons((text, st), Seq::empty());
            assert(seq![(text, st)] =~= seq![(text, st)] + Seq::<(Seq<char>, MotdStyle)>::empty());
            assert(text + Seq::<char>::empty() =~= text);
        } else {
            assert(text =~= Seq::<char>::empty());
            assert(text + Seq::<char>::empty() =~= Seq::<char>::empty());
        }
    } else if s[i as int] == '§' && i + 1 < s.len() {
        if text.len() > 0 {
            let next = apply_code(plain_style(), s[i + 1 as int]);
            lemma_components_text(s, i + 2, Seq::empty(), next);
            let rest = motd_components(s, i + 2, Seq::empty(), next);
            lemma_joined_text_cons((text, st), rest);
            assert(Seq::<char>::empty() + strip_codes(s, i + 2) =~= strip_codes(s, i + 2));
            assert forall|k: int| 0 <= k < parts.len() implies (#[trigger] parts[k]).0.len() > 0 by {
                if k > 0 {
                    assert(parts[k] == rest[k - 1]);
                }
            }
        } else {
            lemma_components_text(s, i + 2, Seq::empty(), apply_code(st, s[i + 1 as int]));
            assert(text =~= Seq::<char>::empty());
            assert(Seq::<char>::empty() + strip_codes(s, i + 2) =~= strip_codes(s, i + 2));
        }
    } else {
        lemma_components_text(s, i + 1, text.push(s[i as int]), st);
        assert(text.push(s[i as int]) + strip_codes(s, i + 1) =~= text + (seq![s[i as int]]
            + strip_codes(s, i + 1)));
    }
}

/// Formatting keeps the text: the components' texts, one after the other, are the message
/// with its format codes left out, and no component is empty.
pub proof fn law_motd_keeps_text(motd: Seq<char>)
    ensures
        joined_text(spec_format_motd(motd)) == strip_codes(motd, 0),
        forall|k: int|
            0 <= k < spec_format_motd(motd).len() ==> (#[trigger] spec_format_motd(motd)[k]).0.len()
                > 0,
{
    lemma_components_text(motd, 0, Seq::empty(), plain_style());
    assert(Seq::<char>::empty() + strip_codes(motd, 0) =~= strip_codes(motd, 0));
}

fn color_of(c: char) -> (r: Option<MotdColor>)
    ensures
        r == color_code(c),
{
    match c {
        '0' => Some(MotdColor::Black),
        '1' => Some(MotdColor::DarkBlue),
        '2' => Some(MotdColor::DarkGreen),
        '3' => Some(MotdColor::DarkAqua),
        '4' => Some(MotdColor::DarkRed),
        '5' => Some(MotdColor::DarkPurple),
        '6' => Some(MotdColor::Gold),
        '7' => Some(MotdColor::Gray),
        '8' => Some(MotdColor::DarkGray),
        '9' => Some(MotdColor::Blue),
        'a' => Some(MotdColor::Green),
        'b' => Some(MotdColor::Aqua),
        'c' => Some(MotdColor::Red),
        'd' => Some(MotdColor::LightPurple),
        'e' => Some(MotdColor::Yellow),
        'f' => Some(MotdColor::White),
        _ => None,
    }
}

fn plain() -> (r: MotdStyle)
    ensures
        r == plain_style(),
{
    MotdStyle {
        color: None,
        obfuscated: false,
        bold: false,
        strikethrough: false,
        underlined: false,
        italic: false,
        reset: false,
    }
}

fn apply(st: MotdStyle, c: char) -> (r: MotdStyle)
    ensures
        r == apply_code(st, c),
{
    let color = color_of(c);
    if color.is_some() {
        MotdStyle { color, ..st }
    } else if c == 'k' {
        MotdStyle { obfuscated: true, ..st }
    } else if c == 'l' {
        MotdStyle { bold: true, ..st }
    } else if c == 'm' {
        MotdStyle { strikethrough: true, ..st }
    } else if c == 'n' {
        MotdStyle { underlined: true, ..st }
    } else if c == 'o' {
        MotdStyle { italic: true, ..st }
    } else if c == 'r' {
        MotdStyle { reset: true, ..st }
    } else {
        st
    }
}

/// The sixteen colour codes and the JSON names of the colours they give: `0` black, `1`
/// dark blue, `2` dark green, `3` dark aqua, `4` dark red, `5` dark purple, `6` gold, `7`
/// gray, `8` dark gray, `9` blue, `a` green, `b` aqua, `c` red, `d` light purple, `e`
/// yellow, `f` white. No other character is a colour code.
pub proof fn law_color_codes(c: char)
    ensures
        color_code(c) is Some <==> ('0' <= c <= '9' || 'a' <= c <= 'f'),
        color_name(color_code('0')->0) == "black"@,
        color_name(color_code('1')->0) == "dark_blue"@,
        color_name(color_code('2')->0) == "dark_green"@,
        color_name(color_code('3')->0) == "dark_aqua"@,
        color_name(color_code('4')->0) == "dark_red"@,
        color_name(color_code('5')->0) == "dark_purple"@,
        color_name(color_code('6')->0) == "gold"@,
        color_name(color_code('7')->0) == "gray"@,
        color_name(color_code('8')->0) == "dark_gray"@,
        color_name(color_code('9')->0) == "blue"@,
        color_name(color_code('a')->0) == "green"@,
        color_name(color_code('b')->0) == "aqua"@,
        color_name(color_code('c')->0) == "red"@,
        color_name(color_code('d')->0) == "light_purple"@,
        color_name(color_code('e')->0) == "yellow"@,
        color_name(color_code('f')->0) == "white"@,
{
}

/// The name of colour `c` in JSON text components.
pub open spec fn color_name(c: MotdColor) -> Seq<char> {
    match c {
        MotdColor::Black => "black"@,
        MotdColor::DarkBlue => "dark_blue"@,
        MotdColor::DarkGreen => "dark_green"@,
        MotdColor::DarkAqua => "dark_aqua"@,
        MotdColor::DarkRed => "dark_red"@,
        MotdColor::DarkPurple => "dark_purple"@,
        MotdColor::Gold => "gold"@,
        MotdColor::Gray => "gray"@,
        MotdColor::DarkGray => "dark_gray"@,
        MotdColor::Blue => "blue"@,
        MotdColor::Green => "green"@,
        MotdColor::Aqua => "aqua"@,
        MotdColor::Red => "red"@,
        MotdColor::LightPurple => "light_purple"@,
        MotdColor::Yellow => "yellow"@,
        MotdColor::White => "white"@,
    }
}

impl MotdColor {
    /// The name of the colour in JSON text components.
    pub fn name(&self) -> (r: &'static str)
        ensures
            r@ == color_name(*self),
    {
        match self {
            MotdColor::Black => "black",
            MotdColor::DarkBlue => "dark_blue",
            MotdColor::DarkGreen => "dark_green",
            MotdColor::DarkAqua => "dark_aqua",
            MotdColor::DarkRed => "dark_red",
            MotdColor::DarkPurple => "dark_purple",
            MotdColor::Gold => "gold",
            MotdColor::Gray => "gray",
            MotdColor::DarkGray => "dark_gray",
            MotdColor::Blue => "blue",
            MotdColor::Green => "green",
            MotdColor::Aqua => "aqua",
            MotdColor::Red => "red",
            MotdColor::LightPurple => "light_purple",
            MotdColor::Yellow => "yellow",
            MotdColor::White => "white",
        }
    }
}

/// JSON text format parser: splits a `§`-coded message of the day into components.
pub fn format_motd(motd: &str) -> (r: Vec<MotdComponent>)
    ensures
        components_view(r@) == spec_format_motd(motd@),
{
    let chars = chars_of(motd);
    let mut out: Vec<MotdComponent> = Vec::new();
    let mut current_text = String::new();
    let mut current_style = plain();
    let mut i: usize = 0;
    let n = chars.len();
    while i < n
        invariant
            n == chars@.len(),
            chars@ == motd@,
            i <= n,
            components_view(out@) + motd_components(chars@, i as nat, current_text@, current_style)
                == spec_format_motd(motd@),
        decreases n - i,
    {
        if chars[i] == '§' && i + 1 < n {
            let code = chars[i + 1];
            if !current_text.as_str().is_empty() {
                let ghost before = components_view(out@);
                let ghost t = current_text@;
                let ghost st = current_style;
                out.push(MotdComponent { text: current_text, style: current_style });
                assert(components_view(out@) =~= before + seq![(t, st)]);
                current_text = String::new();
                current_style = apply(plain(), code);
                let ghost r = motd_components(chars@, (i + 2) as nat, Seq::empty(), current_style);
                assert(motd_components(chars@, i as nat, t, st) == seq![(t, st)] + r);
                assert(before + seq![(t, st)] + r =~= before + (seq![(t, st)] + r));
            } else {
                assert(current_text@ =~= Seq::<char>::empty());
                current_style = apply(current_style, code);
            }
            i = i + 2;
        } else {
            push_char(&mut current_text, chars[i]);
            i = i + 1;
        }
    }
    if !current_text.as_str().is_empty() {
        let ghost before = components_view(out@);
        let ghost t = current_text@;
        out.push(MotdComponent { text: current_text, style: current_style });
        assert(components_view(out@) =~= before + seq![(t, current_style)]);
    } else {
        assert(components_view(out@) + Seq::empty() =~= components_view(out@));
    }
    out
}

} // verus!

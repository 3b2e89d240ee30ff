//! Colour styling of text, done by the `colored` crate.
//!
//! Whether `colored` styles anything is decided by the terminal and the
//! environment, so each styling call has two possible outcomes: the text as
//! it was, or the text wrapped in an escape pair. Either way the characters
//! that are shown stay the same.

use vstd::prelude::*;
use crate::ansi::{escaping, lemma_scan_push, lemma_visible_concat, visible, ESC};

verus! {

/// The eight standard terminal colours.
#[derive(Debug, Clone, Copy, PartialEq, Eq, Structural)]
pub enum Color {
    Black,
    Red,
    Green,
    Yellow,
    Blue,
    Magenta,
    Cyan,
    White,
}

/// The digits that select `color` as the foreground in an escape sequence.
pub open spec fn color_code(color: Color) -> Seq<char> {
    match color {
        Color::Black => seq!['3', '0'],
        Color::Red => seq!['3', '1'],
        Color::Green => seq!['3', '2'],
        Color::Yellow => seq!['3', '3'],
        Color::Blue => seq!['3', '4'],
        Color::Magenta => seq!['3', '5'],
        Color::Cyan => seq!['3', '6'],
        Color::White => seq!['3', '7'],
    }
}

/// The escape sequence that switches a style on.
pub open spec fn style_start(color: Color, bold: bool) -> Seq<char> {
    if bold {
        seq![ESC, '[', '1', ';'] + color_code(color) + seq!['m']
    } else {
        seq![ESC, '['] + color_code(color) + seq!['m']
    }
}

/// The escape sequence that switches every style off.
pub open spec fn style_end() -> Seq<char> {
    seq![ESC, '[', '0', 'm']
}

/// Whether `s` ends with the sequence that switches every style off.
pub open spec fn ends_with_style_end(s: Seq<char>) -> bool {
    s.len() >= 4 && s.subrange(s.len() - 4, s.len() as int) == style_end()
}

/// `s` with the style switched on again after every place where `s` itself
/// switches all styles off.
pub open spec fn restyled(s: Seq<char>, start: Seq<char>) -> Seq<char>
    decreases s.len(),
{
    if s.len() == 0 {
        s
    } else if ends_with_style_end(s) {
        restyled(s.take(s.len() - 4), start) + style_end() + start
    } else {
        restyled(s.drop_last(), start).push(s.last())
    }
}

/// `text` as it reads once styled: the style switched on, the text, and
/// every style switched off.
pub open spec fn painted(text: Seq<char>, color: Color, bold: bool) -> Seq<char> {
    style_start(color, bold) + restyled(text, style_start(color, bold)) + style_end()
}

/// Whether `out` is one of the two things that styling `text` can give: the
/// text as it was, where colours are switched off, or the painted text.
pub open spec fn styled(out: Seq<char>, text: Seq<char>, color: Color, bold: bool) -> bool {
    out == text || out == painted(text, color, bold)
}

/// `colored`'s `Colorize::color` on `text`, rendered with `to_string`.
///
/// With colours switched off `colored` hands the text back as it was. With
/// colours on it writes the sequence that selects the colour, the text, and
/// the reset sequence; where the text holds reset sequences of its own, the
/// colour is selected again after each of them. Which of the two happens is
/// up to the environment, and is taken not to change while the call runs.
#[verifier::external_body]
pub(crate) fn paint(text: &str, color: Color) -> (out: String)
    ensures
        styled(out@, text@, color, false),
{
    let tint = match color {
        Color::Black => colored::Color::Black,
        Color::Red => colored::Color::Red,
        Color::Green => colored::Color::Green,
        Color::Yellow => colored::Color::Yellow,
        Color::Blue => colored::Color::Blue,
        Color::Magenta => colored::Color::Magenta,
        Color::Cyan => colored::Color::Cyan,
        Color::White => colored::Color::White,
    };
    colored::Colorize::color(text, tint).to_string()
}

/// `colored`'s `Colorize::bold` and then `Colorize::color` on `text`,
/// rendered with `to_string`.
///
/// As `paint`, with the bold attribute selected before the colour in the
/// opening sequence.
#[verifier::external_body]
pub(crate) fn paint_bold(text: &str, color: Color) -> (out: String)
    ensures
        styled(out@, text@, color, true),
{
    let tint = match color {
        Color::Black => colored::Color::Black,
        Color::Red => colored::Color::Red,
        Color::Green => colored::Color::Green,
        Color::Yellow => colored::Color::Yellow,
        Color::Blue => colored::Color::Blue,
        Color::Magenta => colored::Color::Magenta,
        Color::Cyan => colored::Color::Cyan,
        Color::White => colored::Color::White,
    };
    colored::Colorize::color(colored::Colorize::bold(text), tint).to_string()
}

/// A whole escape span joined to a text shows nothing more, and leaves the
/// scanner outside every span.
pub proof fn lemma_append_style_start(s: Seq<char>, color: Color, bold: bool)
    ensures
        visible(s + style_start(color, bold)) == visible(s),
        !escaping(s + style_start(color, bold)),
{
    let code = color_code(color);
    assert(code.len() == 2 && code[0] == '3' && code[1] != ESC && code[1] != 'm');
    let t0 = s.push(ESC);
    let t1 = t0.push('[');
    lemma_scan_push(s, ESC);
    lemma_scan_push(t0, '[');
    if bold {
        let t2 = t1.push('1');
        let t3 = t2.push(';');
        let t4 = t3.push(code[0]);
        let t5 = t4.push(code[1]);
        let t6 = t5.push('m');
        lemma_scan_push(t1, '1');
        lemma_scan_push(t2, ';');
        lemma_scan_push(t3, code[0]);
        lemma_scan_push(t4, code[1]);
        lemma_scan_push(t5, 'm');
        assert(t6 =~= s + style_start(color, bold));
    } else {
        let t4 = t1.push(code[0]);
        let t5 = t4.push(code[1]);
        let t6 = t5.push('m');
        lemma_scan_push(t1, code[0]);
        lemma_scan_push(t4, code[1]);
        lemma_scan_push(t5, 'm');
        assert(t6 =~= s + style_start(color, bold));
    }
}

/// The reset sequence joined to a text shows nothing more, and leaves the
/// scanner outside every span.
pub proof fn lemma_append_style_end(s: Seq<char>)
    ensures
        visible(s + style_end()) == visible(s),
        !escaping(s + style_end()),
{
    let t0 = s.push(ESC);
    let t1 = t0.push('[');
    let t2 = t1.push('0');
    let t3 = t2.push('m');
    lemma_scan_push(s, ESC);
    lemma_scan_push(t0, '[');
    lemma_scan_push(t1, '0');
    lemma_scan_push(t2, 'm');
    assert(t3 =~= s + style_end());
}

/// Switching the style on again after each reset changes neither what is
/// shown nor where the scanner ends.
pub proof fn lemma_restyled_visible(s: Seq<char>, color: Color, bold: bool)
    ensures
        visible(restyled(s, style_start(color, bold))) == visible(s),
        escaping(restyled(s, style_start(color, bold))) == escaping(s),
    decreases s.len(),
{
    let start = style_start(color, bold);
    if s.len() == 0 {
    } else if ends_with_style_end(s) {
        let p = s.take(s.len() - 4);
        lemma_restyled_visible(p, color, bold);
        lemma_append_style_end(restyled(p, start));
        lemma_append_style_start(restyled(p, start) + style_end(), color, bold);
        lemma_append_style_end(p);
        assert(p + style_end() =~= s);
    } else {
        lemma_restyled_visible(s.drop_last(), color, bold);
        assert(restyled(s, start).drop_last() =~= restyled(s.drop_last(), start));
    }
}

/// A painted text shows exactly what the text shows, and ends outside every
/// escape span.
pub proof fn lemma_painted_visible(text: Seq<char>, color: Color, bold: bool)
    ensures
        visible(painted(text, color, bold)) == visible(text),
        !escaping(painted(text, color, bold)),
{
    let start = style_start(color, bold);
    lemma_append_style_start(Seq::empty(), color, bold);
    assert(Seq::<char>::empty() + start =~= start);
    lemma_visible_concat(start, restyled(text, start));
    lemma_restyled_visible(text, color, bold);
    lemma_append_style_end(start + restyled(text, start));
    assert(visible(start) + visible(text) =~= visible(text));
}

/// Styling never changes the characters that are shown.
pub proof fn lemma_styled_visible(out: Seq<char>, text: Seq<char>, color: Color, bold: bool)
    requires
        styled(out, text, color, bold),
    ensures
        visible(out) == visible(text),
{
    lemma_painted_visible(text, color, bold);
}

} // verus!

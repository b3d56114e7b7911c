//! Colour for terminals: a level's name in the colour of the level. Lines
//! written to the sink never carry it.

use vstd::prelude::*;
use owo_colors::OwoColorize;
use crate::level::LogLevels;

verus! {

/// The character for one decimal digit.
pub open spec fn digit(d: nat) -> char {
    if d == 0 {
        '0'
    } else if d == 1 {
        '1'
    } else if d == 2 {
        '2'
    } else if d == 3 {
        '3'
    } else if d == 4 {
        '4'
    } else if d == 5 {
        '5'
    } else if d == 6 {
        '6'
    } else if d == 7 {
        '7'
    } else if d == 8 {
        '8'
    } else {
        '9'
    }
}

/// A number in decimal, without sign or leading zeros.
pub open spec fn decimal(n: nat) -> Seq<char>
    decreases n,
{
    if n < 10 {
        seq![digit(n)]
    } else {
        decimal(n / 10).push(digit(n % 10))
    }
}

/// `text` between the escape sequence that sets a 24-bit foreground colour
/// and the one that resets the foreground.
pub open spec fn truecolor_text(text: Seq<char>, r: u8, g: u8, b: u8) -> Seq<char> {
    "\x1b[38;2;"@ + decimal(r as nat) + ";"@ + decimal(g as nat) + ";"@ + decimal(b as nat) + "m"@
        + text + "\x1b[39m"@
}

/// The name of a level in the colour of the level.
pub open spec fn colored_name_text(level: LogLevels) -> Seq<char> {
    truecolor_text(level.spec_name(), level.spec_color().0, level.spec_color().1, level.spec_color().2)
}

/// Wraps `text` in a 24-bit foreground colour.
///
/// Calls `OwoColorize::truecolor` of owo-colors and formats the result with
/// `{}`: the escape sequence `ESC[38;2;r;g;bm` with the three parts in
/// decimal, then the text, then `ESC[39m`.
#[verifier::external_body]
pub(crate) fn paint(text: &str, r: u8, g: u8, b: u8) -> (painted: String)
    ensures
        painted@ == truecolor_text(text@, r, g, b),
{
    format!("{}", text.truecolor(r, g, b))
}

/// The name of a level in the colour of the level, for showing it on a
/// terminal.
pub fn colored_name(level: LogLevels) -> (label: String)
    ensures
        label@ == colored_name_text(level),
{
    let (r, g, b) = level.color();
    paint(level.name(), r, g, b)
}

} // verus!

//! Terminal colours and the escape sequences that carry them.

use vstd::prelude::*;

verus! {

/// The foreground colours that a rendered log line uses.
#[derive(Clone, Copy, Debug, PartialEq, Eq, Structural)]
pub enum Colour {
    Red,
    Green,
    Yellow,
    Blue,
    Purple,
    White,
}

/// The SGR number that selects `colour` as the foreground.
pub open spec fn colour_code(colour: Colour) -> Seq<char> {
    match colour {
        Colour::Red => "31"@,
        Colour::Green => "32"@,
        Colour::Yellow => "33"@,
        Colour::Blue => "34"@,
        Colour::Purple => "35"@,
        Colour::White => "37"@,
    }
}

/// The sequence that switches the terminal to `colour`, in bold when `bold`.
pub open spec fn style_prefix(colour: Colour, bold: bool) -> Seq<char> {
    "\x1b["@ + (if bold {
        "1;"@
    } else {
        Seq::<char>::empty()
    }) + colour_code(colour) + "m"@
}

/// The sequence that switches the terminal back to its defaults.
pub open spec fn style_reset() -> Seq<char> {
    "\x1b[0m"@
}

/// `text` between the sequence that selects its style and the reset.
pub open spec fn painted(colour: Colour, bold: bool, text: Seq<char>) -> Seq<char> {
    style_prefix(colour, bold) + text + style_reset()
}

/// Calls `ansi_term::Colour::paint` and writes the `ANSIString` out with
/// `to_string`. The contract claims what ansi_term's `Display` impl writes for
/// a style with a foreground colour only: the prefix `ESC [ <code> m`, the
/// text unchanged, and the reset `ESC [ 0 m`, also around an empty text.
#[verifier::external_body]
pub(crate) fn paint(colour: Colour, text: &str) -> (r: String)
    ensures
        r@ == painted(colour, false, text@),
{
    let tint = match colour {
        Colour::Red => ansi_term::Colour::Red,
        Colour::Green => ansi_term::Colour::Green,
        Colour::Yellow => ansi_term::Colour::Yellow,
        Colour::Blue => ansi_term::Colour::Blue,
        Colour::Purple => ansi_term::Colour::Purple,
        Colour::White => ansi_term::Colour::White,
    };
    tint.paint(text).to_string()
}

/// Calls `ansi_term::Colour::bold` and `ansi_term::Style::paint`, and writes
/// the `ANSIString` out with `to_string`. The contract claims what ansi_term
/// writes for a bold style with a foreground colour: the prefix
/// `ESC [ 1 ; <code> m`, the text unchanged, and the reset `ESC [ 0 m`.
#[verifier::external_body]
pub(crate) fn paint_bold(colour: Colour, text: &str) -> (r: String)
    ensures
        r@ == painted(colour, true, text@),
{
    let tint = match colour {
        Colour::Red => ansi_term::Colour::Red,
        Colour::Green => ansi_term::Colour::Green,
        Colour::Yellow => ansi_term::Colour::Yellow,
        Colour::Blue => ansi_term::Colour::Blue,
        Colour::Purple => ansi_term::Colour::Purple,
        Colour::White => ansi_term::Colour::White,
    };
    tint.bold().paint(text).to_string()
}

} // verus!

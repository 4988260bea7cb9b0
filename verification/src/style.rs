//! Colouring of text for a terminal.

use crate::text::decimal;
use vstd::prelude::*;
use yansi::Paint;

verus! {

/// A colour as its red, green and blue parts.
pub type Rgb = (u8, u8, u8);

/// The escape sequence that switches the foreground to `color`.
pub open spec fn foreground_on(color: Rgb) -> Seq<char> {
    seq!['\x1b', '[', '3', '8', ';', '2', ';'] + decimal(color.0 as nat) + seq![';'] + decimal(
        color.1 as nat,
    ) + seq![';'] + decimal(color.2 as nat) + seq!['m']
}

/// The escape sequence that switches all styling off again.
pub open spec fn styling_off() -> Seq<char> {
    seq!['\x1b', '[', '0', 'm']
}

/// `text` in the foreground colour `color`: wrapped in the two escape
/// sequences where painting is `on`, bare where it is off.
pub open spec fn painted(text: Seq<char>, color: Rgb, on: bool) -> Seq<char> {
    if on {
        foreground_on(color) + text + styling_off()
    } else {
        text
    }
}

/// Whether `out` is `text` painted in `color`, with painting either on or
/// off.
pub open spec fn paints(out: Seq<char>, text: Seq<char>, color: Rgb) -> bool {
    out == painted(text, color, true) || out == painted(text, color, false)
}

/// yansi's `Paint::rgb(r, g, b, text)`, written out through `Display`.
///
/// Not proved: yansi decides by a process-wide switch, at the moment of the
/// call, whether it decorates. While painting is enabled it writes the
/// foreground sequence `ESC [ 3 8;2;r;g;b m`, the text and the reset
/// sequence `ESC [ 0 m`; while painting is disabled it writes the text
/// alone. The contract claims that the result is one of these two.
#[verifier::external_body]
pub(crate) fn paint_rgb(color: Rgb, text: &str) -> (out: String)
    ensures
        paints(out@, text@, color),
{
    Paint::rgb(color.0, color.1, color.2, text).to_string()
}

} // verus!

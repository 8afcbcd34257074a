//! The color model: three 8-bit channels, and the textual form the log line
//! and the caption use.

use vstd::prelude::*;

verus! {

/// An RGB color with 8-bit channels.
#[derive(Clone, Copy, Debug, PartialEq, Eq, Structural)]
pub struct Color {
    pub red: u8,
    pub green: u8,
    pub blue: u8,
}

impl Color {
    /// The channel with the given index: red, green, blue in that order.
    pub open spec fn channel(&self, ch: int) -> u8 {
        if ch == 0 {
            self.red
        } else if ch == 1 {
            self.green
        } else {
            self.blue
        }
    }
}

/// The decimal digit `d` as a character, for `0 <= d <= 9`.
pub open spec fn digit_char(d: int) -> char {
    if d == 0 {
        '0'
    } else if d == 1 {
        '1'
    } else if d == 2 {
        '2'
    } else if d == 3 {
        '3'
    } else if d == 4 {
        '4'
    } else if d == 5 {
        '5'
    } else if d == 6 {
        '6'
    } else if d == 7 {
        '7'
    } else if d == 8 {
        '8'
    } else {
        '9'
    }
}

/// The decimal representation of a channel value, without leading zeros.
pub open spec fn decimal_of(n: int) -> Seq<char>
    recommends
        0 <= n < 256,
{
    if n < 10 {
        seq![digit_char(n)]
    } else if n < 100 {
        seq![digit_char(n / 10), digit_char(n % 10)]
    } else {
        seq![digit_char(n / 100), digit_char((n / 10) % 10), digit_char(n % 10)]
    }
}

/// The textual form of a color, as the log line shows it:
/// `"Rgb([R, G, B])"` with decimal channel values.
pub open spec fn color_text(c: Color) -> Seq<char> {
    "Rgb(["@ + decimal_of(c.red as int) + ", "@ + decimal_of(c.green as int) + ", "@ + decimal_of(
        c.blue as int,
    ) + "])"@
}

/// A single decimal digit as a string slice.
fn digit_str(d: u8) -> (r: &'static str)
    requires
        d < 10,
    ensures
        r@ =~= seq![digit_char(d as int)],
{
    proof {
        reveal_strlit("0");
        reveal_strlit("1");
        reveal_strlit("2");
        reveal_strlit("3");
        reveal_strlit("4");
        reveal_strlit("5");
        reveal_strlit("6");
        reveal_strlit("7");
        reveal_strlit("8");
        reveal_strlit("9");
    }
    if d == 0 {
        "0"
    } else if d == 1 {
        "1"
    } else if d == 2 {
        "2"
    } else if d == 3 {
        "3"
    } else if d == 4 {
        "4"
    } else if d == 5 {
        "5"
    } else if d == 6 {
        "6"
    } else if d == 7 {
        "7"
    } else if d == 8 {
        "8"
    } else {
        "9"
    }
}

/// Renders a channel value in decimal, without leading zeros.
fn channel_string(n: u8) -> (r: String)
    ensures
        r@ == decimal_of(n as int),
{
    if n < 10 {
        String::from_str(digit_str(n))
    } else if n < 100 {
        let mut s = String::from_str(digit_str(n / 10));
        s.append(digit_str(n % 10));
        assert(s@ =~= decimal_of(n as int));
        s
    } else {
        let mut s = String::from_str(digit_str(n / 100));
        s.append(digit_str((n / 10) % 10));
        s.append(digit_str(n % 10));
        assert(s@ =~= decimal_of(n as int));
        s
    }
}

/// Renders a color as the log line shows it: `"Rgb([R, G, B])"`.
pub fn color_string(c: Color) -> (r: String)
    ensures
        r@ == color_text(c),
{
    let mut s = String::from_str("Rgb([");
    s.append(channel_string(c.red).as_str());
    s.append(", ");
    s.append(channel_string(c.green).as_str());
    s.append(", ");
    s.append(channel_string(c.blue).as_str());
    s.append("])");
    assert(s@ =~= color_text(c));
    s
}

} // verus!

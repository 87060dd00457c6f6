//! Colour samples and their `#RRGGBB` text.

use vstd::prelude::*;
use vstd::string::*;

verus! {

/// One sampled colour: red, green and blue, eight bits each.
#[derive(Clone, Copy, Debug, PartialEq, Eq, Structural)]
pub struct Rgb {
    pub r: u8,
    pub g: u8,
    pub b: u8,
}

/// The sixteen upper-case hexadecimal digits, in order of value.
pub open spec fn hex_digits() -> Seq<char> {
    seq!['0', '1', '2', '3', '4', '5', '6', '7', '8', '9', 'A', 'B', 'C', 'D', 'E', 'F']
}

/// The digit that stands for `n`, for `0 <= n < 16`.
pub open spec fn hex_digit(n: int) -> char
    recommends
        0 <= n < 16,
{
    hex_digits()[n]
}

/// Two digits for one channel, high nibble first, padded with a zero.
pub open spec fn channel_hex(c: u8) -> Seq<char> {
    seq![hex_digit(c as int / 16), hex_digit(c as int % 16)]
}

/// The text of a colour: `#`, then red, green and blue as two digits each.
pub open spec fn hex_text(c: Rgb) -> Seq<char> {
    seq!['#'] + channel_hex(c.r) + channel_hex(c.g) + channel_hex(c.b)
}

/// Whether `c` is one of `0`-`9` or `A`-`F`.
pub open spec fn is_upper_hex_digit(c: char) -> bool {
    ('0' <= c && c <= '9') || ('A' <= c && c <= 'F')
}

/// The value of an upper-case hexadecimal digit.
pub open spec fn hex_value(c: char) -> int
    recommends
        is_upper_hex_digit(c),
{
    if c <= '9' {
        c as int - '0' as int
    } else {
        c as int - 'A' as int + 10
    }
}

/// The complement of one channel.
pub open spec fn complement_channel(c: u8) -> u8 {
    (255 - c) as u8
}

fn push_hex_digit(text: &mut String, n: u8)
    requires
        n < 16,
    ensures
        final(text)@ == old(text)@.push(hex_digit(n as int)),
{
    let digits = "0123456789ABCDEF";
    proof {
        reveal_strlit("0123456789ABCDEF");
    }
    let start: usize = n as usize;
    let digit = digits.substring_ascii(start, start + 1);
    text.append(digit);
}

fn push_channel(text: &mut String, c: u8)
    ensures
        final(text)@ == old(text)@ + channel_hex(c),
{
    push_hex_digit(text, c / 16);
    push_hex_digit(text, c % 16);
}

impl Rgb {
    /// The colour that contrasts with this one: every channel turned
    /// into `255 - channel`.
    pub open spec fn spec_complement(self) -> Rgb {
        Rgb {
            r: complement_channel(self.r),
            g: complement_channel(self.g),
            b: complement_channel(self.b),
        }
    }

    #[verifier::when_used_as_spec(spec_complement)]
    pub fn complement(self) -> (out: Rgb)
        ensures
            out == self.spec_complement(),
    {
        Rgb { r: 255 - self.r, g: 255 - self.g, b: 255 - self.b }
    }

    /// Formats the colour as `#RRGGBB`.
    pub fn to_hex(&self) -> (text: String)
        ensures
            text@ == hex_text(*self),
    {
        let mut text = String::from_str("#");
        proof {
            reveal_strlit("#");
        }
        push_channel(&mut text, self.r);
        push_channel(&mut text, self.g);
        push_channel(&mut text, self.b);
        text
    }
}

/// Every digit of the table is an upper-case hexadecimal digit, and reading
/// it back gives its place in the table.
pub proof fn hex_digit_reads_back(n: int)
    requires
        0 <= n < 16,
    ensures
        is_upper_hex_digit(hex_digit(n)),
        hex_value(hex_digit(n)) == n,
{
}

/// The text of any colour has exactly seven characters: `#`, then six
/// upper-case hexadecimal digits. Each channel takes two of them, padded
/// with a zero, and reading the two digits back gives the channel.
pub proof fn hex_text_shape(c: Rgb)
    ensures
        hex_text(c).len() == 7,
        hex_text(c)[0] == '#',
        forall|i: int| 1 <= i < 7 ==> is_upper_hex_digit(#[trigger] hex_text(c)[i]),
        16 * hex_value(hex_text(c)[1]) + hex_value(hex_text(c)[2]) == c.r,
        16 * hex_value(hex_text(c)[3]) + hex_value(hex_text(c)[4]) == c.g,
        16 * hex_value(hex_text(c)[5]) + hex_value(hex_text(c)[6]) == c.b,
{
    let t = hex_text(c);
    hex_digit_reads_back(c.r as int / 16);
    hex_digit_reads_back(c.r as int % 16);
    hex_digit_reads_back(c.g as int / 16);
    hex_digit_reads_back(c.g as int % 16);
    hex_digit_reads_back(c.b as int / 16);
    hex_digit_reads_back(c.b as int % 16);
    assert(t =~= seq![
        '#',
        hex_digit(c.r as int / 16),
        hex_digit(c.r as int % 16),
        hex_digit(c.g as int / 16),
        hex_digit(c.g as int % 16),
        hex_digit(c.b as int / 16),
        hex_digit(c.b as int % 16),
    ]);
}

/// Two colours with the same text are the same colour.
pub proof fn hex_text_is_injective(a: Rgb, b: Rgb)
    requires
        hex_text(a) == hex_text(b),
    ensures
        a == b,
{
    hex_text_shape(a);
    hex_text_shape(b);
}

/// Each channel of the complement is 255 minus the channel, and the
/// complement of the complement is the colour itself.
pub proof fn complement_is_an_involution(c: Rgb)
    ensures
        c.spec_complement().r == 255 - c.r,
        c.spec_complement().g == 255 - c.g,
        c.spec_complement().b == 255 - c.b,
        c.spec_complement().spec_complement() == c,
{
}

} // verus!

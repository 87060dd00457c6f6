//! What the picker writes, and how it is dressed.

use vstd::prelude::*;
use vstd::string::*;
use crate::color::{hex_text, hex_text_shape, is_upper_hex_digit, Rgb};

verus! {

/// The colours of a piece of terminal text.
#[derive(Clone, Copy, Debug, PartialEq, Eq, Structural)]
pub struct Style {
    pub background: Rgb,
    pub foreground: Rgb,
}

/// Where a piece of text goes.
#[derive(Clone, Copy, Debug, PartialEq, Eq, Structural)]
pub enum Stream {
    /// Standard output.
    Stdout,
    /// The diagnostic stream.
    Stderr,
}

/// One piece of text to write. With a style, the text is written in the
/// style's colours and the terminal's own colours are restored after it;
/// without one, the text is written as it is and nothing else.
#[derive(Debug, PartialEq, Eq)]
pub struct Emission {
    pub stream: Stream,
    pub style: Option<Style>,
    pub text: String,
}

/// An emission as contracts see it.
pub struct EmissionView {
    pub stream: Stream,
    pub style: Option<Style>,
    pub text: Seq<char>,
}

impl View for Emission {
    type V = EmissionView;

    open spec fn view(&self) -> EmissionView {
        EmissionView { stream: self.stream, style: self.style, text: self.text@ }
    }
}

/// The character that starts every terminal escape sequence.
pub open spec fn escape() -> char {
    '\x1b'
}

/// The style that shows a colour: the colour itself behind the text, its
/// complement in front.
pub open spec fn spec_swatch(color: Rgb) -> Style {
    Style { background: color, foreground: color.spec_complement() }
}

/// The line that shows a colour: its text and a line end, on standard
/// output; on the colour's swatch for an interactive terminal, bare
/// otherwise.
pub open spec fn spec_present(color: Rgb, interactive: bool) -> EmissionView {
    EmissionView {
        stream: Stream::Stdout,
        style: if interactive {
            Some(spec_swatch(color))
        } else {
            None
        },
        text: hex_text(color).push('\n'),
    }
}

/// The style that shows a colour.
#[verifier::when_used_as_spec(spec_swatch)]
pub fn swatch(color: Rgb) -> (out: Style)
    ensures
        out == spec_swatch(color),
{
    Style { background: color, foreground: color.complement() }
}

/// The line that shows a colour, for an interactive terminal or for
/// anything else.
pub fn present(color: Rgb, interactive: bool) -> (out: Emission)
    ensures
        out@ == spec_present(color, interactive),
{
    let mut text = color.to_hex();
    text.append("\n");
    proof {
        reveal_strlit("\n");
        assert(text@ =~= hex_text(color).push('\n'));
    }
    let style = if interactive {
        Some(swatch(color))
    } else {
        None
    };
    Emission { stream: Stream::Stdout, style, text }
}

/// Away from an interactive terminal a colour is shown without a style:
/// its bare text and a line end, with no escape character in it.
pub proof fn plain_presentation_is_bare(color: Rgb)
    ensures
        spec_present(color, false).stream == Stream::Stdout,
        spec_present(color, false).style is None,
        spec_present(color, false).text == hex_text(color) + seq!['\n'],
        forall|i: int|
            0 <= i < spec_present(color, false).text.len() ==> #[trigger] spec_present(
                color,
                false,
            ).text[i] != escape(),
{
    hex_text_shape(color);
}

/// On an interactive terminal the text stands on the colour itself, in the
/// colour's complement.
pub proof fn interactive_presentation_is_a_swatch(color: Rgb)
    ensures
        spec_present(color, true).style == Some(
            Style { background: color, foreground: color.spec_complement() },
        ),
        spec_present(color, true).text == spec_present(color, false).text,
{
}

} // verus!

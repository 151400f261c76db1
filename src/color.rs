use vstd::prelude::*;

verus! {

/// Terminal foreground colours that mark scale degrees.
#[derive(Copy, Clone, Debug, PartialEq, Eq, Structural)]
pub enum Highlight {
    Green,
    Red,
    Cyan,
    Black,
    Blue,
    Magenta,
    Yellow,
}

/// The colour of a scale degree: the root green, the thirds red, the fourth
/// cyan, the tritone black, the fifth blue, the sixth magenta, the sevenths
/// yellow; other degrees stay uncoloured.
pub open spec fn degree_highlight(step: nat) -> Option<Highlight> {
    if step == 0 {
        Some(Highlight::Green)
    } else if step == 3 || step == 4 {
        Some(Highlight::Red)
    } else if step == 5 {
        Some(Highlight::Cyan)
    } else if step == 6 {
        Some(Highlight::Black)
    } else if step == 7 {
        Some(Highlight::Blue)
    } else if step == 9 {
        Some(Highlight::Magenta)
    } else if step == 10 || step == 11 {
        Some(Highlight::Yellow)
    } else {
        None
    }
}

/// `s` holds no escape character.
pub open spec fn no_escape(s: Seq<char>) -> bool {
    forall|i: int| 0 <= i < s.len() ==> s[i] != '\u{1b}'
}

/// The two digits of the terminal's foreground code for a colour.
pub open spec fn fg_code(c: Highlight) -> Seq<char> {
    match c {
        Highlight::Black => seq!['3', '0'],
        Highlight::Red => seq!['3', '1'],
        Highlight::Green => seq!['3', '2'],
        Highlight::Yellow => seq!['3', '3'],
        Highlight::Blue => seq!['3', '4'],
        Highlight::Magenta => seq!['3', '5'],
        Highlight::Cyan => seq!['3', '6'],
    }
}

/// `s` in colour `c`: the style sequence `ESC [ code m`, the text, and the
/// reset sequence `ESC [ 0 m`.
pub open spec fn painted(s: Seq<char>, c: Highlight) -> Seq<char> {
    seq!['\u{1b}', '['] + fg_code(c) + seq!['m'] + s + seq!['\u{1b}', '[', '0', 'm']
}

/// What a label of scale degree `step` may show as: the label itself, or,
/// when colour is asked for and the degree has a colour, the label painted in
/// that colour. Whether the colour is actually applied depends on the
/// terminal environment.
pub open spec fn label_shown(r: Seq<char>, s: Seq<char>, step: nat, colored: bool) -> bool {
    r == s || (colored && degree_highlight(step) is Some && r == painted(
        s,
        degree_highlight(step)->0,
    ))
}

/// The colour of a scale degree, as `degree_highlight` gives it.
pub fn step_highlight(step: usize) -> (r: Option<Highlight>)
    ensures
        r == degree_highlight(step as nat),
{
    if step == 0 {
        Some(Highlight::Green)
    } else if step == 3 || step == 4 {
        Some(Highlight::Red)
    } else if step == 5 {
        Some(Highlight::Cyan)
    } else if step == 6 {
        Some(Highlight::Black)
    } else if step == 7 {
        Some(Highlight::Blue)
    } else if step == 9 {
        Some(Highlight::Magenta)
    } else if step == 10 || step == 11 {
        Some(Highlight::Yellow)
    } else {
        None
    }
}

/// Relies on colored's `Colorize::color` and the `Display` impl of
/// `ColoredString`: the text comes out unchanged where the environment turns
/// colours off, and otherwise between the style sequence of the foreground
/// colour and the reset sequence; the input itself is only rewritten where it
/// holds a reset sequence.
#[verifier::external_body]
fn paint(s: &str, c: Highlight) -> (r: String)
    ensures
        no_escape(s@) ==> (r@ == s@ || r@ == painted(s@, c)),
{
    let color = match c {
        Highlight::Green => colored::Color::Green,
        Highlight::Red => colored::Color::Red,
        Highlight::Cyan => colored::Color::Cyan,
        Highlight::Black => colored::Color::Black,
        Highlight::Blue => colored::Color::Blue,
        Highlight::Magenta => colored::Color::Magenta,
        Highlight::Yellow => colored::Color::Yellow,
    };
    colored::Colorize::color(s, color).to_string()
}

/// The label `note_string` coloured after the scale degree `step`. Uncoloured
/// output, or a degree without a colour, gives the label unchanged; otherwise
/// the label comes back painted in the degree's colour, or unchanged where the
/// terminal environment turns colours off.
pub fn format_with_color(note_string: &str, step: usize, colored: bool) -> (r: String)
    ensures
        !colored || degree_highlight(step as nat) is None ==> r@ == note_string@,
        no_escape(note_string@) ==> label_shown(r@, note_string@, step as nat, colored),
{
    if !colored {
        return crate::text::owned(note_string);
    }
    match step_highlight(step) {
        Some(c) => paint(note_string, c),
        None => crate::text::owned(note_string),
    }
}

} // verus!

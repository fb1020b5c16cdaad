//! The clock widget: a single text surface whose markup is replaced on each
//! tick with the current local time. Rendering never suspends and holds no
//! state beyond the rendered text.

use vstd::prelude::*;

verus! {

/// A decimal digit character.
pub open spec fn is_digit(c: char) -> bool {
    '0' <= c && c <= '9'
}

/// The shape of the rendered time text: `HH:MM:SS | dd.mm.yy`.
pub open spec fn is_clock_text(s: Seq<char>) -> bool {
    &&& s.len() == 19
    &&& is_digit(s[0])
    &&& is_digit(s[1])
    &&& s[2] == ':'
    &&& is_digit(s[3])
    &&& is_digit(s[4])
    &&& s[5] == ':'
    &&& is_digit(s[6])
    &&& is_digit(s[7])
    &&& s[8] == ' '
    &&& s[9] == '|'
    &&& s[10] == ' '
    &&& is_digit(s[11])
    &&& is_digit(s[12])
    &&& s[13] == '.'
    &&& is_digit(s[14])
    &&& is_digit(s[15])
    &&& s[16] == '.'
    &&& is_digit(s[17])
    &&& is_digit(s[18])
}

/// Text wrapped in the 16-point font-size presentation attribute.
pub open spec fn spanned(t: Seq<char>) -> Seq<char> {
    "<span font='16'>"@ + t + "</span>"@
}

/// The clock surface shows some well-shaped time text inside the span markup.
pub open spec fn is_clock_markup(s: Seq<char>) -> bool {
    exists|t: Seq<char>| is_clock_text(t) && s == spanned(t)
}

/// Relies on chrono::Local::now and its formatting with
/// `%H:%M:%S | %d.%m.%y`: each specifier prints exactly two zero-padded
/// decimal digits (`%y` is the year floor-modulo 100, so never signed) and
/// the separators pass through verbatim. The value depends on the wall
/// clock, so only the shape is stated.
#[verifier::external_body]
fn local_time_text() -> (r: String)
    ensures
        is_clock_text(r@),
{
    chrono::Local::now().format("%H:%M:%S | %d.%m.%y").to_string()
}

/// One clock per bar: owns the markup shown on its text surface.
pub struct ClockWidget {
    /// The markup currently shown.
    pub label: String,
}

impl ClockWidget {
    /// A fresh clock shows a placeholder until the first render.
    pub fn new() -> (r: Self)
        ensures
            r.label@ == spanned("Loading..."@),
    {
        let label = String::from_str("<span font='16'>Loading...</span>");
        proof {
            reveal_strlit("<span font='16'>Loading...</span>");
            reveal_strlit("<span font='16'>");
            reveal_strlit("Loading...");
            reveal_strlit("</span>");
            assert(label@ =~= spanned("Loading..."@));
        }
        ClockWidget { label }
    }

    /// The markup of the text surface, as the window tree embeds it.
    pub fn widget(&self) -> (r: String)
        ensures
            r@ == self.label@,
    {
        self.label.clone()
    }

    /// Render the current local time: replace the surface text with the
    /// freshly formatted time wrapped in the span markup.
    pub fn update(&mut self)
        ensures
            is_clock_markup(final(self).label@),
    {
        let t = local_time_text();
        let mut label = String::from_str("<span font='16'>");
        label.append(t.as_str());
        label.append("</span>");
        proof {
            assert(label@ =~= spanned(t@));
        }
        self.label = label;
    }
}

} // verus!

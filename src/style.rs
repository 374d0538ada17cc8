//! How a log line is toned, by the words it holds.

use vstd::prelude::*;

verus! {

/// Whether `needle` occurs in `s` as a run of consecutive characters.
pub open spec fn occurs_in(s: Seq<char>, needle: Seq<char>) -> bool {
    exists|i: int| 0 <= i && i + needle.len() <= s.len() && #[trigger] s.subrange(i, i + needle.len()) == needle
}

/// Relies on `str::contains` with a `&str` pattern: whether `needle` occurs in `s`.
#[verifier::external_body]
fn contains(s: &str, needle: &str) -> (r: bool)
    ensures
        r == occurs_in(s@, needle@),
{
    s.contains(needle)
}

/// The tone of a log line.
#[derive(Clone, Copy, Debug, PartialEq, Eq, Structural)]
pub enum Tone {
    /// A section heading.
    Heading,
    /// A line to draw the eye to.
    Highlight,
    /// Any other line.
    Plain,
}

/// A line that names a section is a heading; else a line that holds "ipsum" is
/// highlighted; any other line is plain.
pub open spec fn tone_of(s: Seq<char>) -> Tone {
    if occurs_in(s, "Section"@) {
        Tone::Heading
    } else if occurs_in(s, "ipsum"@) {
        Tone::Highlight
    } else {
        Tone::Plain
    }
}

/// The tone of a log line.
pub fn line_tone(s: &str) -> (r: Tone)
    ensures
        r == tone_of(s@),
{
    if contains(s, "Section") {
        Tone::Heading
    } else if contains(s, "ipsum") {
        Tone::Highlight
    } else {
        Tone::Plain
    }
}

} // verus!

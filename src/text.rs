//! Line-level text helpers: what a blank line is, and how raw text becomes lines.

use vstd::prelude::*;

verus! {

/// The characters that carry Unicode's `White_Space` property.
pub open spec fn is_white_space(c: char) -> bool {
    let n = c as u32;
    (0x09 <= n && n <= 0x0D) || n == 0x20 || n == 0x85 || n == 0xA0 || n == 0x1680
        || (0x2000 <= n && n <= 0x200A) || n == 0x2028 || n == 0x2029 || n == 0x202F
        || n == 0x205F || n == 0x3000
}

/// A line is blank when every character in it is white space (the empty line included).
pub open spec fn is_blank(s: Seq<char>) -> bool {
    forall|i: int| 0 <= i < s.len() ==> is_white_space(#[trigger] s[i])
}

/// `s` without its leading white space.
pub open spec fn trim_start_white(s: Seq<char>) -> Seq<char>
    decreases s.len(),
{
    if s.len() > 0 && is_white_space(s[0]) {
        trim_start_white(s.drop_first())
    } else {
        s
    }
}

/// `s` without its trailing white space.
pub open spec fn trim_end_white(s: Seq<char>) -> Seq<char>
    decreases s.len(),
{
    if s.len() > 0 && is_white_space(s.last()) {
        trim_end_white(s.drop_last())
    } else {
        s
    }
}

/// `s` without leading and trailing white space.
pub open spec fn trim_white(s: Seq<char>) -> Seq<char> {
    trim_end_white(trim_start_white(s))
}

/// The index of the first `'\n'` in `s`, or the length of `s` when there is none.
pub open spec fn newline_at(s: Seq<char>) -> nat
    decreases s.len(),
{
    if s.len() == 0 || s[0] == '\n' {
        0
    } else {
        1 + newline_at(s.drop_first())
    }
}

/// `line` without one `'\r'` at its end, if it has one.
pub open spec fn strip_cr(line: Seq<char>) -> Seq<char> {
    if line.len() > 0 && line.last() == '\r' {
        line.drop_last()
    } else {
        line
    }
}

/// `newline_at` finds the first `'\n'`, or stops at the end.
pub proof fn lemma_newline_at(s: Seq<char>)
    ensures
        newline_at(s) <= s.len(),
        newline_at(s) < s.len() ==> s[newline_at(s) as int] == '\n',
        forall|j: int| 0 <= j < newline_at(s) ==> #[trigger] s[j] != '\n',
    decreases s.len(),
{
    if s.len() > 0 && s[0] != '\n' {
        lemma_newline_at(s.drop_first());
        assert forall|j: int| 0 <= j < newline_at(s) implies #[trigger] s[j] != '\n' by {
            if j > 0 {
                assert(s[j] == s.drop_first()[j - 1]);
            }
        }
    }
}

/// The text after the first line is shorter than the text.
#[via_fn]
pub proof fn lemma_text_lines_decreases(s: Seq<char>) {
    lemma_newline_at(s);
}

/// The lines of a text as `str::lines` cuts them: at each `'\n'`, which is dropped
/// together with one `'\r'` right before it; a last line without `'\n'` is kept as it
/// is, and a text that is empty or ends in `'\n'` yields no empty last line.
pub open spec fn text_lines(s: Seq<char>) -> Seq<Seq<char>>
    decreases s.len(),
    via lemma_text_lines_decreases
{
    if s.len() == 0 {
        seq![]
    } else if newline_at(s) == s.len() {
        seq![s]
    } else {
        seq![strip_cr(s.take(newline_at(s) as int))] + text_lines(s.skip(newline_at(s) + 1int))
    }
}

/// The views of a sequence of strings.
pub open spec fn string_views(v: Seq<String>) -> Seq<Seq<char>> {
    v.map_values(|s: String| s@)
}

/// Relies on `str::trim`: the slice without leading and trailing `White_Space` characters.
#[verifier::external_body]
fn trim(s: &str) -> (r: &str)
    ensures
        r@ == trim_white(s@),
{
    s.trim()
}

/// Relies on `str::lines`: the text cut at each `"\n"` or `"\r\n"`, the endings dropped
/// and no empty line after a final ending.
#[verifier::external_body]
pub(crate) fn lines_of(text: &str) -> (r: Vec<String>)
    ensures
        string_views(r@) == text_lines(text@),
{
    text.lines().map(|l| l.to_string()).collect()
}

proof fn lemma_trim_start_blank(s: Seq<char>)
    ensures
        trim_start_white(s).len() == 0 <==> is_blank(s),
        is_blank(s) || !is_white_space(trim_start_white(s)[0]),
        trim_start_white(s).len() <= s.len(),
        forall|i: int| 0 <= i < trim_start_white(s).len()
            ==> trim_start_white(s)[i] == #[trigger] s[s.len() - trim_start_white(s).len() + i],
    decreases s.len(),
{
    if s.len() > 0 && is_white_space(s[0]) {
        lemma_trim_start_blank(s.drop_first());
        if is_blank(s.drop_first()) {
            assert forall|i: int| 0 <= i < s.len() implies is_white_space(#[trigger] s[i]) by {
                if i > 0 {
                    assert(s[i] == s.drop_first()[i - 1]);
                }
            }
        } else {
            let j = choose|j: int| 0 <= j < s.drop_first().len() && !is_white_space(#[trigger] s.drop_first()[j]);
            assert(s[j + 1] == s.drop_first()[j]);
        }
        let t = trim_start_white(s);
        assert forall|i: int| 0 <= i < t.len()
            implies t[i] == #[trigger] s[s.len() - t.len() + i] by {
            assert(s.drop_first()[s.drop_first().len() - t.len() + i] == s[s.len() - t.len() + i]);
        }
    } else if s.len() > 0 {
        assert(!is_white_space(s[0]));
    }
}

proof fn lemma_trim_end_len(s: Seq<char>)
    ensures
        trim_end_white(s).len() == 0 ==> is_blank(s),
        s.len() > 0 && !is_white_space(s[0]) ==> trim_end_white(s).len() > 0,
    decreases s.len(),
{
    if s.len() > 0 && is_white_space(s.last()) {
        lemma_trim_end_len(s.drop_last());
        if trim_end_white(s).len() == 0 {
            assert forall|i: int| 0 <= i < s.len() implies is_white_space(#[trigger] s[i]) by {
                if i < s.len() - 1 {
                    assert(s[i] == s.drop_last()[i]);
                }
            }
        }
        if s.len() > 0 && !is_white_space(s[0]) {
            assert(s.len() > 1);
            assert(s.drop_last()[0] == s[0]);
        }
    }
}

/// Trimming leaves nothing exactly when the line is blank.
pub proof fn lemma_trim_empty_iff_blank(s: Seq<char>)
    ensures
        trim_white(s).len() == 0 <==> is_blank(s),
{
    lemma_trim_start_blank(s);
    let t = trim_start_white(s);
    lemma_trim_end_len(t);
    if is_blank(s) {
        assert(t.len() == 0);
        assert(trim_end_white(t) == t);
    }
}

/// Whether a line is blank, that is empty once white space is trimmed.
pub fn line_is_blank(line: &str) -> (r: bool)
    ensures
        r == is_blank(line@),
{
    let t = trim(line);
    proof {
        lemma_trim_empty_iff_blank(line@);
    }
    t.is_empty()
}

} // verus!

//! Cutting a sequence of lines into paragraphs: maximal runs of non-blank lines.

use vstd::prelude::*;
use crate::text::{is_blank, line_is_blank, lines_of, string_views, text_lines};

verus! {

/// The paragraphs of `lines`, built line by line: a blank line ends the paragraph
/// before it, and a non-blank line either extends the paragraph of the line before
/// it or, after a blank line or at the start, opens a new one.
pub open spec fn paragraphs_of(lines: Seq<Seq<char>>) -> Seq<Seq<Seq<char>>>
    decreases lines.len(),
{
    if lines.len() == 0 {
        seq![]
    } else {
        let before = paragraphs_of(lines.drop_last());
        let l = lines.last();
        if is_blank(l) {
            before
        } else if lines.len() >= 2 && !is_blank(lines[lines.len() - 2]) {
            before.update(before.len() - 1, before.last().push(l))
        } else {
            before.push(seq![l])
        }
    }
}

/// Whether a maximal run of non-blank lines starts at index `i`.
pub open spec fn starts_run(lines: Seq<Seq<char>>, i: int) -> bool {
    !is_blank(lines[i]) && (i == 0 || is_blank(lines[i - 1]))
}

/// The number of maximal runs of non-blank lines in `lines`.
pub open spec fn run_count(lines: Seq<Seq<char>>) -> nat
    decreases lines.len(),
{
    if lines.len() == 0 {
        0
    } else {
        run_count(lines.drop_last()) + if starts_run(lines, lines.len() - 1) {
            1nat
        } else {
            0nat
        }
    }
}

/// The non-blank lines of `lines`, in order.
pub open spec fn non_blank(lines: Seq<Seq<char>>) -> Seq<Seq<char>> {
    lines.filter(|l: Seq<char>| !is_blank(l))
}

/// The view of a sequence of paragraphs.
pub open spec fn paragraph_views(ps: Seq<Vec<String>>) -> Seq<Seq<Seq<char>>> {
    ps.map_values(|p: Vec<String>| string_views(p@))
}

/// The paragraphs closed so far, followed by the open one if it holds a line.
pub open spec fn close_open(done: Seq<Seq<Seq<char>>>, open: Seq<Seq<char>>) -> Seq<Seq<Seq<char>>> {
    if open.len() == 0 {
        done
    } else {
        done.push(open)
    }
}

/// Segmenting yields one paragraph per maximal run of non-blank lines, no paragraph is
/// empty, and the paragraphs laid end to end give back the non-blank lines in order:
/// the input with its blank lines taken out.
pub proof fn lemma_paragraphs_cover_runs(lines: Seq<Seq<char>>)
    ensures
        paragraphs_of(lines).len() == run_count(lines),
        forall|k: int| 0 <= k < paragraphs_of(lines).len() ==> #[trigger] paragraphs_of(lines)[k].len() > 0,
        paragraphs_of(lines).flatten() == non_blank(lines),
        lines.len() > 0 && !is_blank(lines.last()) ==> paragraphs_of(lines).len() > 0,
    decreases lines.len(),
{
    if lines.len() > 0 {
        let init = lines.drop_last();
        lemma_paragraphs_cover_runs(init);
        let before = paragraphs_of(init);
        let l = lines.last();
        let keep = |x: Seq<char>| !is_blank(x);
        assert(lines == init.push(l));
        init.lemma_filter_push(l, keep);
        if is_blank(l) {
        } else if lines.len() >= 2 && !is_blank(lines[lines.len() - 2]) {
            assert(init.last() == lines[lines.len() - 2]);
            let n = before.len() - 1;
            let after = before.update(n, before.last().push(l));
            assert(before == before.drop_last().push(before.last()));
            assert(after == before.drop_last().push(before.last().push(l)));
            before.drop_last().lemma_flatten_push(before.last());
            before.drop_last().lemma_flatten_push(before.last().push(l));
            assert(before.last().push(l) == before.last() + seq![l]);
            assert(after.flatten() == before.flatten() + seq![l]);
            assert(before.flatten().push(l) == before.flatten() + seq![l]);
            assert forall|k: int| 0 <= k < after.len() implies #[trigger] after[k].len() > 0 by {
                if k < n {
                    assert(after[k] == before[k]);
                }
            }
        } else {
            before.lemma_flatten_push(seq![l]);
            assert(before.flatten().push(l) == before.flatten() + seq![l]);
            let after = before.push(seq![l]);
            assert forall|k: int| 0 <= k < after.len() implies #[trigger] after[k].len() > 0 by {
                if k < before.len() {
                    assert(after[k] == before[k]);
                }
            }
        }
    }
}

/// The paragraphs laid end to end, with one empty line between each two.
pub open spec fn join_paragraphs(ps: Seq<Seq<Seq<char>>>) -> Seq<Seq<char>>
    decreases ps.len(),
{
    if ps.len() == 0 {
        seq![]
    } else if ps.len() == 1 {
        ps[0]
    } else {
        join_paragraphs(ps.drop_last()).push(Seq::<char>::empty()) + ps.last()
    }
}

/// `lines` with the blank lines at the start and at the end taken out, and each run of
/// blank lines between two non-blank lines replaced by one empty line.
pub open spec fn squeeze_blank(lines: Seq<Seq<char>>) -> Seq<Seq<char>>
    decreases lines.len(),
{
    if lines.len() == 0 {
        seq![]
    } else {
        let before = squeeze_blank(lines.drop_last());
        let l = lines.last();
        if is_blank(l) {
            before
        } else if before.len() == 0 {
            seq![l]
        } else if is_blank(lines[lines.len() - 2]) {
            before.push(Seq::<char>::empty()).push(l)
        } else {
            before.push(l)
        }
    }
}

/// Joining the paragraphs with one empty line between each two gives back the input,
/// but for its leading and trailing blank lines, and with each run of blank lines
/// between paragraphs written as one empty line.
pub proof fn lemma_join_paragraphs(lines: Seq<Seq<char>>)
    ensures
        join_paragraphs(paragraphs_of(lines)) == squeeze_blank(lines),
        squeeze_blank(lines).len() == 0 <==> paragraphs_of(lines).len() == 0,
    decreases lines.len(),
{
    if lines.len() > 0 {
        let init = lines.drop_last();
        lemma_join_paragraphs(init);
        lemma_paragraphs_cover_runs(init);
        let before = paragraphs_of(init);
        let l = lines.last();
        if is_blank(l) {
        } else if lines.len() >= 2 && !is_blank(lines[lines.len() - 2]) {
            assert(init.last() == lines[lines.len() - 2]);
            let n = before.len() - 1;
            let after = before.update(n, before.last().push(l));
            if before.len() >= 2 {
                assert(after.drop_last() == before.drop_last());
            }
            assert(join_paragraphs(after) == join_paragraphs(before).push(l));
        } else {
            let after = before.push(seq![l]);
            assert(after.drop_last() == before);
            if before.len() == 0 {
                assert(after.len() == 1);
            } else {
                assert(lines.len() >= 2);
                assert(join_paragraphs(before).push(Seq::<char>::empty()) + seq![l]
                    == join_paragraphs(before).push(Seq::<char>::empty()).push(l));
            }
        }
    }
}

/// Cuts `lines` into paragraphs, maximal runs of non-blank lines; blank lines, and
/// runs of them at the start, between paragraphs or at the end, yield no paragraph.
pub fn split_paragraphs(lines: &Vec<String>) -> (r: Vec<Vec<String>>)
    ensures
        paragraph_views(r@) == paragraphs_of(string_views(lines@)),
{
    let ghost lv = string_views(lines@);
    let mut done: Vec<Vec<String>> = Vec::new();
    let mut open: Vec<String> = Vec::new();
    let mut i: usize = 0;
    while i < lines.len()
        invariant
            i <= lines@.len(),
            lv == string_views(lines@),
            close_open(paragraph_views(done@), string_views(open@)) == paragraphs_of(lv.take(i as int)),
            open@.len() > 0 <==> (i > 0 && !is_blank(lv[i - 1])),
        decreases lines@.len() - i,
    {
        let line = &lines[i];
        let blank = line_is_blank(line.as_str());
        let ghost pre = lv.take(i as int);
        let ghost post = lv.take(i as int + 1);
        let ghost dv = paragraph_views(done@);
        let ghost ov = string_views(open@);
        proof {
            assert(post.drop_last() == pre);
            assert(post.last() == line@);
        }
        if blank {
            if open.len() > 0 {
                done.push(open);
                open = Vec::new();
                assert(paragraph_views(done@) == dv.push(ov));
            }
            assert(string_views(open@) == Seq::<Seq<char>>::empty());
        } else {
            open.push(line.clone());
            proof {
                assert(string_views(open@) == ov.push(line@));
                if ov.len() > 0 {
                    assert(post[post.len() - 2] == lv[i - 1]);
                    assert(dv.push(ov).update(dv.len() as int, ov.push(line@)) == dv.push(ov.push(line@)));
                } else {
                    assert(i == 0 || is_blank(post[post.len() - 2]));
                    assert(ov == Seq::<Seq<char>>::empty());
                }
            }
        }
        i = i + 1;
    }
    if open.len() > 0 {
        done.push(open);
    }
    assert(lv.take(lines@.len() as int) == lv);
    done
}

/// Reads `text` as lines, as `str::lines` cuts it, and splits them into paragraphs.
pub fn paragraphs_from_text(text: &str) -> (r: Vec<Vec<String>>)
    ensures
        paragraph_views(r@) == paragraphs_of(text_lines(text@)),
{
    let lines = lines_of(text);
    split_paragraphs(&lines)
}

} // verus!

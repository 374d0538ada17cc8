//! Keeping a selected line inside a viewport of a given height.

use vstd::prelude::*;
use crate::outline::{shown_lines, tagged_views, visible, visible_prefix};

verus! {

/// The scroll offset that shows line `line` in a window of `capacity` lines over a
/// list of `line_count` lines, starting from offset `offset`: unchanged when the line
/// is already in the window, else the least change that brings it in; `0` when the
/// window or the list is empty.
pub open spec fn scrolled(offset: nat, line: nat, capacity: nat, line_count: nat) -> nat {
    if capacity == 0 || line_count == 0 {
        0
    } else if offset <= line && line < offset + capacity {
        offset
    } else if line >= offset + capacity {
        (line - capacity + 1) as nat
    } else {
        line
    }
}

/// The index of the first line tagged `p`, if any.
pub open spec fn first_tagged(lines: Seq<(int, Seq<char>)>, p: int) -> Option<int> {
    if exists|i: int| 0 <= i < lines.len() && (#[trigger] lines[i]).0 == p {
        Some(choose|i: int| 0 <= i < lines.len() && (#[trigger] lines[i]).0 == p
            && forall|j: int| 0 <= j < i ==> (#[trigger] lines[j]).0 != p)
    } else {
        None
    }
}

/// The new scroll offset of a pane (see `scrolled`); the line then lies in the window.
pub fn scroll_offset(offset: usize, line: usize, capacity: usize, line_count: usize) -> (r: usize)
    ensures
        r == scrolled(offset as nat, line as nat, capacity as nat, line_count as nat),
        capacity > 0 && line_count > 0 ==> r <= line < r + capacity,
{
    if capacity == 0 || line_count == 0 {
        0
    } else if offset <= line && line - offset < capacity {
        offset
    } else if line >= offset {
        line - capacity + 1
    } else {
        line
    }
}

/// Where the first line of paragraph `p` stands in a visible line list.
pub fn selection_line(lines: &Vec<(usize, String)>, p: usize) -> (r: Option<usize>)
    ensures
        first_tagged(tagged_views(lines@), p as int) == match r {
            Some(i) => Some(i as int),
            None => None::<int>,
        },
{
    let ghost tv = tagged_views(lines@);
    let mut i: usize = 0;
    while i < lines.len()
        invariant
            i <= lines@.len(),
            tv == tagged_views(lines@),
            forall|j: int| 0 <= j < i ==> (#[trigger] tv[j]).0 != p,
        decreases lines@.len() - i,
    {
        if lines[i].0 == p {
            proof {
                assert(tv[i as int].0 == p);
                let k = choose|k: int| 0 <= k < tv.len() && (#[trigger] tv[k]).0 == p
                    && forall|j: int| 0 <= j < k ==> (#[trigger] tv[j]).0 != p;
                if k < i {
                } else if k > i {
                    assert(tv[i as int].0 != p);
                }
            }
            return Some(i);
        }
        i = i + 1;
    }
    None
}

proof fn lemma_shown_tags(paras: Seq<Seq<Seq<char>>>, flags: Seq<bool>, k: int)
    requires
        0 <= k < paras.len(),
        k < flags.len(),
        paras[k].len() > 0,
    ensures
        shown_lines(paras, flags, k).len() > 0,
        forall|j: int| 0 <= j < shown_lines(paras, flags, k).len() ==> (#[trigger] shown_lines(paras, flags, k)[j]).0 == k,
{
}

proof fn lemma_prefix_tags(paras: Seq<Seq<Seq<char>>>, flags: Seq<bool>, m: int)
    requires
        0 <= m <= paras.len(),
        flags.len() == paras.len(),
        forall|k: int| 0 <= k < paras.len() ==> #[trigger] paras[k].len() > 0,
    ensures
        forall|j: int| 0 <= j < visible_prefix(paras, flags, m).len()
            ==> 0 <= (#[trigger] visible_prefix(paras, flags, m)[j]).0 < m,
    decreases m,
{
    if m > 0 {
        lemma_prefix_tags(paras, flags, m - 1);
        lemma_shown_tags(paras, flags, m - 1);
        let a = visible_prefix(paras, flags, m - 1);
        let b = shown_lines(paras, flags, m - 1);
        assert forall|j: int| 0 <= j < (a + b).len() implies 0 <= (#[trigger] (a + b)[j]).0 < m by {
            if j >= a.len() {
                assert((a + b)[j] == b[j - a.len()]);
            } else {
                assert((a + b)[j] == a[j]);
            }
        }
    }
}

proof fn lemma_prefix_grows(paras: Seq<Seq<Seq<char>>>, flags: Seq<bool>, m: int, n: int)
    requires
        0 <= m <= n,
    ensures
        visible_prefix(paras, flags, m).len() <= visible_prefix(paras, flags, n).len(),
        forall|j: int| 0 <= j < visible_prefix(paras, flags, m).len()
            ==> #[trigger] visible_prefix(paras, flags, n)[j] == visible_prefix(paras, flags, m)[j],
    decreases n - m,
{
    if m < n {
        lemma_prefix_grows(paras, flags, m, n - 1);
        let a = visible_prefix(paras, flags, n - 1);
        let b = shown_lines(paras, flags, n - 1);
        assert forall|j: int| 0 <= j < a.len() implies #[trigger] (a + b)[j] == a[j] by {}
    }
}

/// In the visible line list, the first line of paragraph `p` comes right after the
/// visible lines of the paragraphs before it.
pub proof fn lemma_first_line_of_paragraph(paras: Seq<Seq<Seq<char>>>, flags: Seq<bool>, p: int)
    requires
        0 <= p < paras.len(),
        flags.len() == paras.len(),
        forall|k: int| 0 <= k < paras.len() ==> #[trigger] paras[k].len() > 0,
    ensures
        first_tagged(visible(paras, flags), p) == Some(visible_prefix(paras, flags, p).len() as int),
{
    let vis = visible(paras, flags);
    let at = visible_prefix(paras, flags, p).len() as int;
    let n = paras.len() as int;
    lemma_prefix_tags(paras, flags, p);
    lemma_shown_tags(paras, flags, p);
    lemma_prefix_grows(paras, flags, p, n);
    lemma_prefix_grows(paras, flags, p + 1, n);
    let next = visible_prefix(paras, flags, p + 1);
    assert(next[at] == shown_lines(paras, flags, p)[0]);
    assert(vis[at].0 == p);
    assert forall|j: int| 0 <= j < at implies (#[trigger] vis[j]).0 != p by {
        assert(vis[j] == visible_prefix(paras, flags, p)[j]);
    }
    let i = choose|i: int| 0 <= i < vis.len() && (#[trigger] vis[i]).0 == p
        && forall|j: int| 0 <= j < i ==> (#[trigger] vis[j]).0 != p;
    if i < at {
        assert(vis[i].0 != p);
    } else if i > at {
        assert(vis[at].0 != p);
    }
}

/// Recomputing the offset of a pane whose selected line is already in the window
/// gives back the same offset.
pub proof fn lemma_scroll_stable(offset: nat, line: nat, capacity: nat, line_count: nat)
    requires
        line_count > 0,
        offset <= line < offset + capacity,
    ensures
        scrolled(offset, line, capacity, line_count) == offset,
{
}

/// Recomputing the offset for an unchanged selection changes nothing: the first
/// computation already brought the line into the window.
pub proof fn lemma_scroll_settles(offset: nat, line: nat, capacity: nat, line_count: nat)
    ensures
        scrolled(scrolled(offset, line, capacity, line_count), line, capacity, line_count)
            == scrolled(offset, line, capacity, line_count),
{
}

} // verus!

//! The outline: paragraphs with one collapse flag each, and the visible line list
//! that they project to.

use vstd::prelude::*;
use crate::segment::{paragraph_views, paragraphs_from_text, paragraphs_of};
use crate::text::{string_views, text_lines};

verus! {

/// The lines that paragraph `k` shows, each tagged with `k`: its first line alone
/// when it is collapsed, all of its lines when it is expanded.
pub open spec fn shown_lines(paras: Seq<Seq<Seq<char>>>, flags: Seq<bool>, k: int) -> Seq<(int, Seq<char>)> {
    if flags[k] {
        seq![(k, paras[k][0])]
    } else {
        paras[k].map_values(|l: Seq<char>| (k, l))
    }
}

/// The visible lines of the first `n` paragraphs, in order.
pub open spec fn visible_prefix(paras: Seq<Seq<Seq<char>>>, flags: Seq<bool>, n: int) -> Seq<(int, Seq<char>)>
    decreases n,
{
    if n <= 0 {
        seq![]
    } else {
        visible_prefix(paras, flags, n - 1) + shown_lines(paras, flags, n - 1)
    }
}

/// The visible line list: for each paragraph in order, the lines it shows.
pub open spec fn visible(paras: Seq<Seq<Seq<char>>>, flags: Seq<bool>) -> Seq<(int, Seq<char>)> {
    visible_prefix(paras, flags, paras.len() as int)
}

/// The flags after flipping flag `i`; an index out of range changes nothing.
pub open spec fn toggled(flags: Seq<bool>, i: int) -> Seq<bool> {
    if 0 <= i < flags.len() {
        flags.update(i, !flags[i])
    } else {
        flags
    }
}

/// The view of a list of tagged lines.
pub open spec fn tagged_views(v: Seq<(usize, String)>) -> Seq<(int, Seq<char>)> {
    v.map_values(|t: (usize, String)| (t.0 as int, t.1@))
}

/// Paragraphs, each a non-empty sequence of lines, with one collapse flag per paragraph.
pub struct Outline {
    paragraphs: Vec<Vec<String>>,
    collapsed: Vec<bool>,
}

impl Outline {
    /// The paragraphs' lines.
    pub closed spec fn paras(&self) -> Seq<Seq<Seq<char>>> {
        paragraph_views(self.paragraphs@)
    }

    /// The collapse flags, one per paragraph; `true` shows the first line only.
    pub closed spec fn flags(&self) -> Seq<bool> {
        self.collapsed@
    }

    /// As many flags as paragraphs, and no paragraph without a line.
    pub open spec fn wf(&self) -> bool {
        &&& self.flags().len() == self.paras().len()
        &&& forall|k: int| 0 <= k < self.paras().len() ==> #[trigger] self.paras()[k].len() > 0
    }

    /// The number of paragraphs.
    pub open spec fn count(&self) -> nat {
        self.paras().len()
    }

    /// An outline of `paragraphs` whose flags are all `collapsed`.
    pub fn build(paragraphs: Vec<Vec<String>>, collapsed: bool) -> (r: Outline)
        requires
            forall|k: int| 0 <= k < paragraphs@.len() ==> #[trigger] paragraphs@[k]@.len() > 0,
        ensures
            r.wf(),
            r.paras() == paragraph_views(paragraphs@),
            r.flags() == Seq::new(paragraphs@.len(), |k: int| collapsed),
    {
        let mut flags: Vec<bool> = Vec::new();
        let mut i: usize = 0;
        while i < paragraphs.len()
            invariant
                i <= paragraphs@.len(),
                flags@ == Seq::new(i as nat, |k: int| collapsed),
            decreases paragraphs@.len() - i,
        {
            flags.push(collapsed);
            i = i + 1;
        }
        let r = Outline { paragraphs, collapsed: flags };
        assert forall|k: int| 0 <= k < r.paras().len() implies #[trigger] r.paras()[k].len() > 0 by {
            assert(r.paras()[k] == string_views(paragraphs@[k]@));
        }
        r
    }

    /// The outline of a text: its paragraphs, all with the flag `collapsed`.
    pub fn from_text(text: &str, collapsed: bool) -> (r: Outline)
        ensures
            r.wf(),
            r.paras() == paragraphs_of(text_lines(text@)),
            r.flags() == Seq::new(r.paras().len(), |k: int| collapsed),
    {
        let paragraphs = paragraphs_from_text(text);
        proof {
            crate::segment::lemma_paragraphs_cover_runs(text_lines(text@));
            assert forall|k: int| 0 <= k < paragraphs@.len() implies #[trigger] paragraphs@[k]@.len() > 0 by {
                assert(paragraph_views(paragraphs@)[k] == string_views(paragraphs@[k]@));
            }
        }
        Outline::build(paragraphs, collapsed)
    }

    /// The number of paragraphs.
    pub fn len(&self) -> (r: usize)
        ensures
            r == self.count(),
    {
        self.paragraphs.len()
    }

    /// Whether paragraph `i` is collapsed.
    pub fn is_collapsed(&self, i: usize) -> (r: bool)
        requires
            self.wf(),
            i < self.count(),
        ensures
            r == self.flags()[i as int],
    {
        self.collapsed[i]
    }

    /// The first line of paragraph `i`.
    pub fn first_line(&self, i: usize) -> (r: &String)
        requires
            self.wf(),
            i < self.count(),
        ensures
            r@ == self.paras()[i as int][0],
    {
        assert(self.paras()[i as int] == string_views(self.paragraphs@[i as int]@));
        &self.paragraphs[i][0]
    }

    /// Flips the collapse flag of paragraph `i`; an index out of range changes nothing.
    pub fn toggle(&mut self, i: usize)
        requires
            old(self).wf(),
        ensures
            final(self).wf(),
            final(self).paras() == old(self).paras(),
            final(self).flags() == toggled(old(self).flags(), i as int),
    {
        if i < self.collapsed.len() {
            let v = self.collapsed[i];
            self.collapsed.set(i, !v);
        }
    }

    /// The visible line list, each line tagged with the index of its paragraph.
    pub fn visible_lines(&self) -> (r: Vec<(usize, String)>)
        requires
            self.wf(),
        ensures
            tagged_views(r@) == visible(self.paras(), self.flags()),
    {
        let ghost paras = self.paras();
        let ghost flags = self.flags();
        let mut lines: Vec<(usize, String)> = Vec::new();
        let mut i: usize = 0;
        while i < self.paragraphs.len()
            invariant
                self.wf(),
                paras == self.paras(),
                flags == self.flags(),
                i <= paras.len(),
                tagged_views(lines@) == visible_prefix(paras, flags, i as int),
            decreases paras.len() - i,
        {
            let para = &self.paragraphs[i];
            let ghost before = tagged_views(lines@);
            proof {
                assert(paras[i as int] == string_views(para@));
            }
            let ghost prev = lines@;
            if self.collapsed[i] {
                lines.push((i, para[0].clone()));
                assert(tagged_views(lines@) == tagged_views(prev).push((i as int, para@[0]@)));
                assert(tagged_views(lines@) == before + shown_lines(paras, flags, i as int));
            } else {
                let mut j: usize = 0;
                while j < para.len()
                    invariant
                        i < paras.len(),
                        j <= para@.len(),
                        paras[i as int] == string_views(para@),
                        !flags[i as int],
                        tagged_views(lines@) == before + paras[i as int].take(j as int).map_values(
                            |l: Seq<char>| (i as int, l),
                        ),
                    decreases para@.len() - j,
                {
                    let ghost prev = lines@;
                    lines.push((i, para[j].clone()));
                    proof {
                        let m = |l: Seq<char>| (i as int, l);
                        assert(lines@ == prev.push((i, para@[j as int])));
                        assert(tagged_views(lines@) == tagged_views(prev).push((i as int, para@[j as int]@)));
                        assert(paras[i as int].take(j as int + 1) == paras[i as int].take(j as int).push(para@[j as int]@));
                        assert(paras[i as int].take(j as int + 1).map_values(m) == paras[i as int].take(j as int).map_values(m).push((i as int, para@[j as int]@)));
                        assert(tagged_views(lines@) == before + paras[i as int].take(j as int + 1).map_values(m));
                    }
                    j = j + 1;
                }
                assert(paras[i as int].take(para@.len() as int) == paras[i as int]);
            }
            i = i + 1;
        }
        lines
    }
}

/// Toggling the same paragraph twice restores the collapse flags, and with them the
/// visible line list.
pub proof fn lemma_toggle_twice(o: Outline, i: int)
    requires
        o.wf(),
    ensures
        toggled(toggled(o.flags(), i), i) == o.flags(),
        visible(o.paras(), toggled(toggled(o.flags(), i), i)) == visible(o.paras(), o.flags()),
{
    assert(toggled(toggled(o.flags(), i), i) =~= o.flags());
}

} // verus!

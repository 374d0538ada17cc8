//! The dual-pane viewer: an outline, the focus over it, and each pane's scroll offset,
//! with what a render shows derived afresh from them.

use vstd::prelude::*;
use vstd::string::StringExecFns;
use crate::focus::{initial, step, Focus, Pane, Transition};
use crate::outline::{tagged_views, toggled, visible, visible_prefix, Outline};
use crate::scroll::{lemma_first_line_of_paragraph, scroll_offset, scrolled, selection_line};
use crate::segment::paragraphs_of;
use crate::text::text_lines;

verus! {

/// A line to draw, and whether it is highlighted.
pub struct RenderLine {
    pub text: String,
    pub highlighted: bool,
}

/// What one pane shows: its lines, from which line on, and whether it has the focus.
pub struct PaneRender {
    pub lines: Vec<RenderLine>,
    pub offset: usize,
    pub active: bool,
}

/// The label of paragraph `k` in the navigation pane: a collapse marker, a space and
/// the paragraph's first line.
pub open spec fn nav_label(collapsed: bool, first: Seq<char>) -> Seq<char> {
    (if collapsed { "[+] "@ } else { "[-] "@ }) + first
}

/// The views of rendered lines: each line's text and highlight.
pub open spec fn render_views(v: Seq<RenderLine>) -> Seq<(Seq<char>, bool)> {
    v.map_values(|l: RenderLine| (l.text@, l.highlighted))
}

/// The navigation pane's lines: one label per paragraph, the selection highlighted
/// while that pane is active.
pub open spec fn nav_lines(o: Outline, f: Focus) -> Seq<(Seq<char>, bool)> {
    Seq::new(
        o.count(),
        |k: int| (nav_label(o.flags()[k], o.paras()[k][0]), k == f.nav_index && f.pane == Pane::Navigation),
    )
}

/// The content pane's lines: the visible line list, the lines of the content pane's
/// selection highlighted.
pub open spec fn content_lines(o: Outline, f: Focus) -> Seq<(Seq<char>, bool)> {
    let v = visible(o.paras(), o.flags());
    Seq::new(v.len(), |k: int| (v[k].1, v[k].0 == f.content_index))
}

/// The line of the content pane that holds the first line of its selection: the
/// number of lines that the paragraphs before it show.
pub open spec fn content_selection_line(o: Outline, f: Focus) -> nat {
    visible_prefix(o.paras(), o.flags(), f.content_index as int).len()
}

/// The viewer's state.
pub struct App {
    outline: Outline,
    focus: Focus,
    nav_offset: usize,
    content_offset: usize,
}

impl App {
    /// The outline shown.
    pub closed spec fn outline(&self) -> Outline {
        self.outline
    }

    /// The focus state.
    pub closed spec fn focus(&self) -> Focus {
        self.focus
    }

    /// The scroll offset of the navigation pane, as last rendered.
    pub closed spec fn nav_offset(&self) -> nat {
        self.nav_offset as nat
    }

    /// The scroll offset of the content pane, as last rendered.
    pub closed spec fn content_offset(&self) -> nat {
        self.content_offset as nat
    }

    /// The outline is well formed and the selections are in range.
    pub open spec fn wf(&self) -> bool {
        self.outline().wf() && self.focus().wf(self.outline().count())
    }

    /// A viewer of `text` with both panes, every paragraph expanded.
    pub fn new(text: &str) -> (r: App)
        ensures
            r.wf(),
            r.outline().paras() == paragraphs_of(text_lines(text@)),
            r.outline().flags() == Seq::new(r.outline().count(), |k: int| false),
            r.focus() == initial(true),
            r.nav_offset() == 0,
            r.content_offset() == 0,
    {
        App::with_options(text, false, true)
    }

    /// A viewer of `text` whose paragraphs all start `collapsed`, with the navigation
    /// pane or without it.
    pub fn with_options(text: &str, collapsed: bool, dual_pane: bool) -> (r: App)
        ensures
            r.wf(),
            r.outline().paras() == paragraphs_of(text_lines(text@)),
            r.outline().flags() == Seq::new(r.outline().count(), |k: int| collapsed),
            r.focus() == initial(dual_pane),
            r.nav_offset() == 0,
            r.content_offset() == 0,
    {
        App {
            outline: Outline::from_text(text, collapsed),
            focus: Focus::new(dual_pane),
            nav_offset: 0,
            content_offset: 0,
        }
    }

    /// The number of paragraphs.
    pub fn paragraph_count(&self) -> (r: usize)
        ensures
            r == self.outline().count(),
    {
        self.outline.len()
    }

    /// The focus state.
    pub fn focus_state(&self) -> (r: Focus)
        ensures
            r == self.focus(),
    {
        self.focus
    }

    /// Whether paragraph `i` is collapsed.
    pub fn is_collapsed(&self, i: usize) -> (r: bool)
        requires
            self.wf(),
            i < self.outline().count(),
        ensures
            r == self.outline().flags()[i as int],
    {
        self.outline.is_collapsed(i)
    }

    /// Applies transition `t`; returns `false` for `Quit`, `true` otherwise. A collapse
    /// toggle flips the flag of the active pane's selection; the other transitions
    /// move the focus as `step` says.
    pub fn apply(&mut self, t: Transition) -> (r: bool)
        requires
            old(self).wf(),
        ensures
            final(self).wf(),
            r == (t != Transition::Quit),
            final(self).outline().paras() == old(self).outline().paras(),
            final(self).outline().flags() == if t == Transition::ToggleCollapse {
                toggled(
                    old(self).outline().flags(),
                    if old(self).focus().pane == Pane::Navigation {
                        old(self).focus().nav_index as int
                    } else {
                        old(self).focus().content_index as int
                    },
                )
            } else {
                old(self).outline().flags()
            },
            final(self).focus() == step(old(self).focus(), t, old(self).outline().count()),
            final(self).nav_offset() == old(self).nav_offset(),
            final(self).content_offset() == old(self).content_offset(),
    {
        match t {
            Transition::Quit => false,
            Transition::ToggleCollapse => {
                let target = self.focus.toggle_target();
                self.outline.toggle(target);
                true
            },
            _ => {
                let count = self.outline.len();
                self.focus.apply(t, count);
                true
            },
        }
    }

    /// Flips the collapse flag of the active pane's selection.
    pub fn toggle(&mut self)
        requires
            old(self).wf(),
        ensures
            final(self).wf(),
            final(self).outline().paras() == old(self).outline().paras(),
            final(self).outline().flags() == toggled(
                old(self).outline().flags(),
                if old(self).focus().pane == Pane::Navigation {
                    old(self).focus().nav_index as int
                } else {
                    old(self).focus().content_index as int
                },
            ),
            final(self).focus() == old(self).focus(),
            final(self).nav_offset() == old(self).nav_offset(),
            final(self).content_offset() == old(self).content_offset(),
    {
        self.apply(Transition::ToggleCollapse);
    }

    /// Moves the active pane's selection one paragraph down, held at the last one.
    pub fn next(&mut self)
        requires
            old(self).wf(),
        ensures
            final(self).wf(),
            final(self).outline() == old(self).outline(),
            final(self).focus() == step(old(self).focus(), Transition::MoveNext, old(self).outline().count()),
            final(self).nav_offset() == old(self).nav_offset(),
            final(self).content_offset() == old(self).content_offset(),
    {
        let count = self.outline.len();
        self.focus.apply(Transition::MoveNext, count);
    }

    /// Moves the active pane's selection one paragraph up, held at the first one.
    pub fn prev(&mut self)
        requires
            old(self).wf(),
        ensures
            final(self).wf(),
            final(self).outline() == old(self).outline(),
            final(self).focus() == step(old(self).focus(), Transition::MovePrev, old(self).outline().count()),
            final(self).nav_offset() == old(self).nav_offset(),
            final(self).content_offset() == old(self).content_offset(),
    {
        let count = self.outline.len();
        self.focus.apply(Transition::MovePrev, count);
    }

    /// Commits the navigation pane's selection to the content pane.
    pub fn select_nav(&mut self)
        requires
            old(self).wf(),
        ensures
            final(self).wf(),
            final(self).outline() == old(self).outline(),
            final(self).focus() == step(old(self).focus(), Transition::Commit, old(self).outline().count()),
            final(self).nav_offset() == old(self).nav_offset(),
            final(self).content_offset() == old(self).content_offset(),
    {
        let count = self.outline.len();
        self.focus.apply(Transition::Commit, count);
    }

    /// The label of paragraph `i` in the navigation pane.
    fn label(&self, i: usize) -> (r: String)
        requires
            self.wf(),
            i < self.outline().count(),
        ensures
            r@ == nav_label(self.outline().flags()[i as int], self.outline().paras()[i as int][0]),
    {
        let mut label = if self.outline.is_collapsed(i) {
            String::from_str("[+] ")
        } else {
            String::from_str("[-] ")
        };
        label.append(self.outline.first_line(i).as_str());
        label
    }

    /// The lines of the navigation pane.
    pub fn nav_render_lines(&self) -> (r: Vec<RenderLine>)
        requires
            self.wf(),
        ensures
            render_views(r@) == nav_lines(self.outline(), self.focus()),
    {
        let n = self.outline.len();
        let nav_active = self.focus.pane == Pane::Navigation;
        let mut lines: Vec<RenderLine> = Vec::new();
        let mut i: usize = 0;
        while i < n
            invariant
                self.wf(),
                n == self.outline().count(),
                nav_active == (self.focus().pane == Pane::Navigation),
                i <= n,
                render_views(lines@) == nav_lines(self.outline(), self.focus()).take(i as int),
            decreases n - i,
        {
            let text = self.label(i);
            let highlighted = i == self.focus.nav_index && nav_active;
            let ghost prev = lines@;
            lines.push(RenderLine { text, highlighted });
            proof {
                let want = nav_lines(self.outline(), self.focus());
                assert(render_views(lines@) == render_views(prev).push(want[i as int]));
                assert(want.take(i as int + 1) == want.take(i as int).push(want[i as int]));
            }
            i = i + 1;
        }
        assert(nav_lines(self.outline(), self.focus()).take(n as int) == nav_lines(self.outline(), self.focus()));
        lines
    }

    /// The lines of the content pane, built from the visible line list `vis`.
    fn content_render_lines(&self, vis: Vec<(usize, String)>) -> (r: Vec<RenderLine>)
        requires
            self.wf(),
            tagged_views(vis@) == visible(self.outline().paras(), self.outline().flags()),
        ensures
            render_views(r@) == content_lines(self.outline(), self.focus()),
    {
        let ghost want = content_lines(self.outline(), self.focus());
        let ghost tv = tagged_views(vis@);
        let sel = self.focus.content_index;
        let mut lines: Vec<RenderLine> = Vec::new();
        let mut i: usize = 0;
        while i < vis.len()
            invariant
                want == content_lines(self.outline(), self.focus()),
                tv == tagged_views(vis@),
                tv == visible(self.outline().paras(), self.outline().flags()),
                sel == self.focus().content_index,
                i <= vis@.len(),
                render_views(lines@) == want.take(i as int),
            decreases vis@.len() - i,
        {
            let highlighted = vis[i].0 == sel;
            let text = vis[i].1.clone();
            let ghost prev = lines@;
            lines.push(RenderLine { text, highlighted });
            proof {
                assert(tv[i as int] == (vis@[i as int].0 as int, vis@[i as int].1@));
                assert(render_views(lines@) == render_views(prev).push(want[i as int]));
                assert(want.take(i as int + 1) == want.take(i as int).push(want[i as int]));
            }
            i = i + 1;
        }
        assert(want.take(vis@.len() as int) == want);
        lines
    }

    /// Brings both panes' selections into view, in windows of `nav_capacity` and
    /// `content_capacity` lines, and returns what each pane shows.
    pub fn render(&mut self, nav_capacity: usize, content_capacity: usize) -> (r: (PaneRender, PaneRender))
        requires
            old(self).wf(),
        ensures
            final(self).wf(),
            final(self).outline() == old(self).outline(),
            final(self).focus() == old(self).focus(),
            final(self).nav_offset() == scrolled(
                old(self).nav_offset(),
                old(self).focus().nav_index as nat,
                nav_capacity as nat,
                old(self).outline().count(),
            ),
            final(self).content_offset() == scrolled(
                old(self).content_offset(),
                content_selection_line(old(self).outline(), old(self).focus()),
                content_capacity as nat,
                visible(old(self).outline().paras(), old(self).outline().flags()).len(),
            ),
            render_views(r.0.lines@) == nav_lines(old(self).outline(), old(self).focus()),
            r.0.offset == final(self).nav_offset(),
            r.0.active == (old(self).focus().pane == Pane::Navigation),
            render_views(r.1.lines@) == content_lines(old(self).outline(), old(self).focus()),
            r.1.offset == final(self).content_offset(),
            r.1.active == (old(self).focus().pane == Pane::Content),
    {
        let count = self.outline.len();
        self.nav_offset = scroll_offset(self.nav_offset, self.focus.nav_index, nav_capacity, count);
        let vis = self.outline.visible_lines();
        let line_count = vis.len();
        assert(tagged_views(vis@).len() == vis@.len());
        let line = match selection_line(&vis, self.focus.content_index) {
            Some(i) => i,
            None => 0,
        };
        proof {
            if count > 0 {
                lemma_first_line_of_paragraph(
                    self.outline().paras(),
                    self.outline().flags(),
                    self.focus().content_index as int,
                );
            }
        }
        assert(line as nat == content_selection_line(self.outline(), self.focus()));
        self.content_offset = scroll_offset(self.content_offset, line, content_capacity, line_count);
        let nav = PaneRender {
            lines: self.nav_render_lines(),
            offset: self.nav_offset,
            active: self.focus.pane == Pane::Navigation,
        };
        let content = PaneRender {
            lines: self.content_render_lines(vis),
            offset: self.content_offset,
            active: self.focus.pane == Pane::Content,
        };
        (nav, content)
    }

    /// The visible line list of the outline.
    pub fn visible_lines(&self) -> (r: Vec<(usize, String)>)
        requires
            self.wf(),
        ensures
            tagged_views(r@) == visible(self.outline().paras(), self.outline().flags()),
    {
        self.outline.visible_lines()
    }
}

} // verus!

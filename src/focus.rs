//! The focus controller: which pane is active, the selection in each pane, and the
//! transitions that move them while keeping both selections in range.

use vstd::prelude::*;

verus! {

/// The two panes of the view.
#[derive(Clone, Copy, Debug, PartialEq, Eq, Structural)]
pub enum Pane {
    /// The list of paragraphs.
    Navigation,
    /// The paragraphs' lines.
    Content,
}

/// The transitions of the focus controller.
#[derive(Clone, Copy, Debug, PartialEq, Eq, Structural)]
pub enum Transition {
    MoveNext,
    MovePrev,
    SwitchToNav,
    SwitchToContent,
    Commit,
    ToggleCollapse,
    JumpStart,
    JumpEnd,
    Quit,
}

/// The transitions that move a selection or commit one.
pub open spec fn moves_selection(t: Transition) -> bool {
    t == Transition::MoveNext || t == Transition::MovePrev || t == Transition::Commit
        || t == Transition::JumpStart || t == Transition::JumpEnd
}

/// The focus state: the active pane and the paragraph selected in each pane.
#[derive(Clone, Copy, Debug, PartialEq, Eq, Structural)]
pub struct Focus {
    pub pane: Pane,
    pub nav_index: usize,
    pub content_index: usize,
    /// Whether the navigation pane exists; without it the content pane stays active.
    pub dual_pane: bool,
}

/// `i + 1`, held at `count - 1`.
pub open spec fn next_index(i: usize, count: nat) -> usize {
    if i + 1 < count {
        (i + 1) as usize
    } else {
        (count - 1) as usize
    }
}

/// `i - 1`, held at `0`.
pub open spec fn prev_index(i: usize) -> usize {
    if i > 0 {
        (i - 1) as usize
    } else {
        0
    }
}

/// The state after transition `t` in a document of `count` paragraphs. A transition
/// whose pane does not match, or that would move a selection in an empty document,
/// leaves the state as it is.
pub open spec fn step(s: Focus, t: Transition, count: nat) -> Focus {
    let nav = s.pane == Pane::Navigation;
    match t {
        Transition::MoveNext => if count == 0 {
            s
        } else if nav {
            Focus { nav_index: next_index(s.nav_index, count), ..s }
        } else {
            Focus { content_index: next_index(s.content_index, count), ..s }
        },
        Transition::MovePrev => if count == 0 {
            s
        } else if nav {
            Focus { nav_index: prev_index(s.nav_index), ..s }
        } else {
            Focus { content_index: prev_index(s.content_index), ..s }
        },
        Transition::SwitchToNav => if s.dual_pane && !nav {
            Focus { pane: Pane::Navigation, nav_index: s.content_index, ..s }
        } else {
            s
        },
        Transition::SwitchToContent => if s.dual_pane && nav {
            Focus { pane: Pane::Content, ..s }
        } else {
            s
        },
        Transition::Commit => if count > 0 && nav {
            Focus { pane: Pane::Content, content_index: s.nav_index, ..s }
        } else {
            s
        },
        Transition::JumpStart => if count > 0 && !nav {
            Focus { content_index: 0, ..s }
        } else {
            s
        },
        Transition::JumpEnd => if count > 0 && !nav {
            Focus { content_index: (count - 1) as usize, ..s }
        } else {
            s
        },
        Transition::ToggleCollapse => s,
        Transition::Quit => s,
    }
}

/// The state after the transitions `ts`, in order, from `s`.
pub open spec fn run(s: Focus, ts: Seq<Transition>, count: nat) -> Focus
    decreases ts.len(),
{
    if ts.len() == 0 {
        s
    } else {
        step(run(s, ts.drop_last(), count), ts.last(), count)
    }
}

/// The state a session starts in.
pub open spec fn initial(dual_pane: bool) -> Focus {
    Focus {
        pane: if dual_pane { Pane::Navigation } else { Pane::Content },
        nav_index: 0,
        content_index: 0,
        dual_pane,
    }
}

impl Focus {
    /// Both selections lie in `[0, count)`, or are `0` when the document is empty,
    /// and a view without navigation pane keeps the content pane active.
    pub open spec fn wf(&self, count: nat) -> bool {
        &&& count > 0 ==> self.nav_index < count && self.content_index < count
        &&& count == 0 ==> self.nav_index == 0 && self.content_index == 0
        &&& !self.dual_pane ==> self.pane == Pane::Content
    }

    /// The starting state: both selections on the first paragraph, the navigation pane
    /// active when there is one.
    pub fn new(dual_pane: bool) -> (r: Focus)
        ensures
            r == initial(dual_pane),
    {
        Focus {
            pane: if dual_pane { Pane::Navigation } else { Pane::Content },
            nav_index: 0,
            content_index: 0,
            dual_pane,
        }
    }

    /// Applies transition `t` in a document of `count` paragraphs.
    pub fn apply(&mut self, t: Transition, count: usize)
        requires
            old(self).wf(count as nat),
        ensures
            *final(self) == step(*old(self), t, count as nat),
            final(self).wf(count as nat),
    {
        let nav = self.pane == Pane::Navigation;
        match t {
            Transition::MoveNext => {
                if count > 0 {
                    if nav {
                        self.nav_index = if self.nav_index < count - 1 { self.nav_index + 1 } else { count - 1 };
                    } else {
                        self.content_index = if self.content_index < count - 1 { self.content_index + 1 } else { count - 1 };
                    }
                }
            },
            Transition::MovePrev => {
                if count > 0 {
                    if nav {
                        self.nav_index = if self.nav_index > 0 { self.nav_index - 1 } else { 0 };
                    } else {
                        self.content_index = if self.content_index > 0 { self.content_index - 1 } else { 0 };
                    }
                }
            },
            Transition::SwitchToNav => {
                if self.dual_pane && !nav {
                    self.pane = Pane::Navigation;
                    self.nav_index = self.content_index;
                }
            },
            Transition::SwitchToContent => {
                if self.dual_pane && nav {
                    self.pane = Pane::Content;
                }
            },
            Transition::Commit => {
                if count > 0 && nav {
                    self.content_index = self.nav_index;
                    self.pane = Pane::Content;
                }
            },
            Transition::JumpStart => {
                if count > 0 && !nav {
                    self.content_index = 0;
                }
            },
            Transition::JumpEnd => {
                if count > 0 && !nav {
                    self.content_index = count - 1;
                }
            },
            Transition::ToggleCollapse => {},
            Transition::Quit => {},
        }
    }

    /// The paragraph a collapse toggle acts on: the selection of the active pane.
    pub fn toggle_target(&self) -> (r: usize)
        ensures
            r == if self.pane == Pane::Navigation { self.nav_index } else { self.content_index },
    {
        if self.pane == Pane::Navigation {
            self.nav_index
        } else {
            self.content_index
        }
    }
}

/// Every transition keeps both selections in range; in an empty document the
/// transitions that move or commit a selection change nothing.
pub proof fn lemma_step_keeps_wf(s: Focus, t: Transition, count: nat)
    requires
        s.wf(count),
    ensures
        step(s, t, count).wf(count),
        count == 0 && moves_selection(t) ==> step(s, t, count) == s,
{
}

/// Every state reached from the starting state, by any sequence of transitions, has
/// both selections in range.
pub proof fn lemma_reachable_wf(dual_pane: bool, ts: Seq<Transition>, count: nat)
    ensures
        run(initial(dual_pane), ts, count).wf(count),
    decreases ts.len(),
{
    if ts.len() > 0 {
        lemma_reachable_wf(dual_pane, ts.drop_last(), count);
        lemma_step_keeps_wf(run(initial(dual_pane), ts.drop_last(), count), ts.last(), count);
    }
}

/// A commit from the navigation pane of a non-empty document hands its selection to
/// the content pane and makes that pane active.
pub proof fn lemma_commit_syncs(s: Focus, count: nat)
    requires
        s.wf(count),
        s.pane == Pane::Navigation,
        count > 0,
    ensures
        step(s, Transition::Commit, count).content_index == step(s, Transition::Commit, count).nav_index,
        step(s, Transition::Commit, count).pane == Pane::Content,
{
}

} // verus!

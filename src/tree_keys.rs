//! The decisions of the tree browser: which action on the tree an input event asks for.

use vstd::prelude::*;
use crate::dispatch::{InputEvent, Key};

verus! {

/// An action on a tree of collapsible items.
#[derive(Clone, Copy, Debug, PartialEq, Eq, Structural)]
pub enum TreeAction {
    Quit,
    /// Opens or closes the selected item.
    ToggleSelected,
    /// Closes the selected item, or selects its parent.
    KeyLeft,
    /// Opens the selected item.
    KeyRight,
    KeyDown,
    KeyUp,
    SelectFirst,
    SelectLast,
    /// Scrolls down by this many lines.
    ScrollDown(u16),
    /// Scrolls up by this many lines.
    ScrollUp(u16),
    /// Selects the item at this column and row.
    ClickAt(u16, u16),
    /// Draws again, nothing else.
    Redraw,
}

/// The lines that a page key scrolls by.
pub const PAGE_LINES: u16 = 3;

/// The action an event asks for. `selected_depth` is the length of the selected
/// item's path and `selected_open` whether that item is open: a top-level item that
/// is closed keeps the selection on a left key, so that there always is one.
pub open spec fn tree_action_of(event: InputEvent, selected_depth: nat, selected_open: bool) -> Option<TreeAction> {
    match event {
        InputEvent::Key(k) => match k {
            Key::Char(c) => if c == 'q' {
                Some(TreeAction::Quit)
            } else if c == '\n' || c == ' ' {
                Some(TreeAction::ToggleSelected)
            } else {
                None
            },
            Key::Left => if selected_depth == 1 && !selected_open {
                None
            } else {
                Some(TreeAction::KeyLeft)
            },
            Key::Right => Some(TreeAction::KeyRight),
            Key::Down => Some(TreeAction::KeyDown),
            Key::Up => Some(TreeAction::KeyUp),
            Key::Esc => Some(TreeAction::SelectFirst),
            Key::Home => Some(TreeAction::SelectFirst),
            Key::End => Some(TreeAction::SelectLast),
            Key::PageDown => Some(TreeAction::ScrollDown(PAGE_LINES)),
            Key::PageUp => Some(TreeAction::ScrollUp(PAGE_LINES)),
            _ => None,
        },
        InputEvent::ScrollDown => Some(TreeAction::ScrollDown(1)),
        InputEvent::ScrollUp => Some(TreeAction::ScrollUp(1)),
        InputEvent::Click(col, row) => Some(TreeAction::ClickAt(col, row)),
        InputEvent::Resize(_, _) => Some(TreeAction::Redraw),
        _ => None,
    }
}

/// The action an event asks for (see `tree_action_of`).
pub fn tree_action(event: InputEvent, selected_depth: usize, selected_open: bool) -> (r: Option<TreeAction>)
    ensures
        r == tree_action_of(event, selected_depth as nat, selected_open),
{
    match event {
        InputEvent::Key(k) => match k {
            Key::Char(c) => {
                if c == 'q' {
                    Some(TreeAction::Quit)
                } else if c == '\n' || c == ' ' {
                    Some(TreeAction::ToggleSelected)
                } else {
                    None
                }
            },
            Key::Left => {
                if selected_depth == 1 && !selected_open {
                    None
                } else {
                    Some(TreeAction::KeyLeft)
                }
            },
            Key::Right => Some(TreeAction::KeyRight),
            Key::Down => Some(TreeAction::KeyDown),
            Key::Up => Some(TreeAction::KeyUp),
            Key::Esc => Some(TreeAction::SelectFirst),
            Key::Home => Some(TreeAction::SelectFirst),
            Key::End => Some(TreeAction::SelectLast),
            Key::PageDown => Some(TreeAction::ScrollDown(PAGE_LINES)),
            Key::PageUp => Some(TreeAction::ScrollUp(PAGE_LINES)),
            _ => None,
        },
        InputEvent::ScrollDown => Some(TreeAction::ScrollDown(1)),
        InputEvent::ScrollUp => Some(TreeAction::ScrollUp(1)),
        InputEvent::Click(col, row) => Some(TreeAction::ClickAt(col, row)),
        InputEvent::Resize(_, _) => Some(TreeAction::Redraw),
        _ => None,
    }
}

} // verus!

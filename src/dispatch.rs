//! Mapping input events to focus transitions.

use vstd::prelude::*;
use crate::focus::Transition;

verus! {

/// A key, as the input source reports it.
#[derive(Clone, Copy, Debug, PartialEq, Eq, Structural)]
pub enum Key {
    Char(char),
    Up,
    Down,
    Left,
    Right,
    Enter,
    Home,
    End,
    Esc,
    PageUp,
    PageDown,
    /// Any other key.
    Other,
}

/// An input event, as the input source reports it.
#[derive(Clone, Copy, Debug, PartialEq, Eq, Structural)]
pub enum InputEvent {
    Key(Key),
    /// The viewport's new width and height.
    Resize(u16, u16),
    FocusGained,
    FocusLost,
    /// The mouse wheel turned down.
    ScrollDown,
    /// The mouse wheel turned up.
    ScrollUp,
    /// A mouse button went down at this column and row.
    Click(u16, u16),
    /// Any other event.
    Other,
}

/// What an event asks for: at most one transition, and whether to draw again.
#[derive(Clone, Copy, Debug, PartialEq, Eq, Structural)]
pub struct Dispatch {
    pub transition: Option<Transition>,
    pub redraw: bool,
}

/// The transition that a key stands for.
pub open spec fn key_transition(k: Key) -> Option<Transition> {
    match k {
        Key::Char(c) => if c == 'q' {
            Some(Transition::Quit)
        } else if c == 'j' {
            Some(Transition::MoveNext)
        } else if c == 'k' {
            Some(Transition::MovePrev)
        } else if c == 'h' {
            Some(Transition::SwitchToNav)
        } else if c == 'l' {
            Some(Transition::SwitchToContent)
        } else if c == ' ' {
            Some(Transition::ToggleCollapse)
        } else {
            None
        },
        Key::Down => Some(Transition::MoveNext),
        Key::Up => Some(Transition::MovePrev),
        Key::Left => Some(Transition::SwitchToNav),
        Key::Right => Some(Transition::SwitchToContent),
        Key::Enter => Some(Transition::Commit),
        Key::Home => Some(Transition::JumpStart),
        Key::End => Some(Transition::JumpEnd),
        _ => None,
    }
}

/// The transition of a key press; a resize asks only for a redraw; any other event,
/// and a key that stands for nothing, asks for neither.
pub fn dispatch(event: InputEvent) -> (r: Dispatch)
    ensures
        r.transition == match event {
            InputEvent::Key(k) => key_transition(k),
            _ => None::<Transition>,
        },
        r.redraw == (r.transition.is_some() || event is Resize),
{
    match event {
        InputEvent::Key(k) => {
            let t = match k {
                Key::Char(c) => {
                    if c == 'q' {
                        Some(Transition::Quit)
                    } else if c == 'j' {
                        Some(Transition::MoveNext)
                    } else if c == 'k' {
                        Some(Transition::MovePrev)
                    } else if c == 'h' {
                        Some(Transition::SwitchToNav)
                    } else if c == 'l' {
                        Some(Transition::SwitchToContent)
                    } else if c == ' ' {
                        Some(Transition::ToggleCollapse)
                    } else {
                        None
                    }
                },
                Key::Down => Some(Transition::MoveNext),
                Key::Up => Some(Transition::MovePrev),
                Key::Left => Some(Transition::SwitchToNav),
                Key::Right => Some(Transition::SwitchToContent),
                Key::Enter => Some(Transition::Commit),
                Key::Home => Some(Transition::JumpStart),
                Key::End => Some(Transition::JumpEnd),
                _ => None,
            };
            let redraw = t.is_some();
            Dispatch { transition: t, redraw }
        },
        InputEvent::Resize(_, _) => Dispatch { transition: None, redraw: true },
        _ => Dispatch { transition: None, redraw: false },
    }
}

} // verus!

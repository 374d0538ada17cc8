use outline_nav::config::Config;
use outline_nav::dispatch::{dispatch, Dispatch, InputEvent, Key};
use outline_nav::focus::Transition;
use outline_nav::style::{line_tone, Tone};
use outline_nav::tree_keys::{tree_action, TreeAction};

fn key(k: Key) -> Option<Transition> {
    dispatch(InputEvent::Key(k)).transition
}

#[test]
fn keys_map_to_transitions() {
    assert_eq!(key(Key::Char('q')), Some(Transition::Quit));
    assert_eq!(key(Key::Down), Some(Transition::MoveNext));
    assert_eq!(key(Key::Char('j')), Some(Transition::MoveNext));
    assert_eq!(key(Key::Up), Some(Transition::MovePrev));
    assert_eq!(key(Key::Char('k')), Some(Transition::MovePrev));
    assert_eq!(key(Key::Left), Some(Transition::SwitchToNav));
    assert_eq!(key(Key::Char('h')), Some(Transition::SwitchToNav));
    assert_eq!(key(Key::Right), Some(Transition::SwitchToContent));
    assert_eq!(key(Key::Char('l')), Some(Transition::SwitchToContent));
    assert_eq!(key(Key::Char(' ')), Some(Transition::ToggleCollapse));
    assert_eq!(key(Key::Enter), Some(Transition::Commit));
    assert_eq!(key(Key::Home), Some(Transition::JumpStart));
    assert_eq!(key(Key::End), Some(Transition::JumpEnd));
}

#[test]
fn unknown_keys_and_events_do_nothing() {
    let none = Dispatch { transition: None, redraw: false };
    assert_eq!(dispatch(InputEvent::Key(Key::Char('x'))), none);
    assert_eq!(dispatch(InputEvent::Key(Key::Esc)), none);
    assert_eq!(dispatch(InputEvent::Key(Key::Other)), none);
    assert_eq!(dispatch(InputEvent::FocusGained), none);
    assert_eq!(dispatch(InputEvent::Click(1, 2)), none);
}

#[test]
fn resize_asks_for_redraw() {
    assert_eq!(dispatch(InputEvent::Resize(80, 24)), Dispatch { transition: None, redraw: true });
    assert_eq!(
        dispatch(InputEvent::Key(Key::Down)),
        Dispatch { transition: Some(Transition::MoveNext), redraw: true }
    );
}

#[test]
fn tones_of_log_lines() {
    assert_eq!(line_tone("== Section 2 =="), Tone::Heading);
    assert_eq!(line_tone("Section with ipsum"), Tone::Heading);
    assert_eq!(line_tone("lorem ipsum dolor"), Tone::Highlight);
    assert_eq!(line_tone("plain text"), Tone::Plain);
    assert_eq!(line_tone(""), Tone::Plain);
    assert_eq!(line_tone("section"), Tone::Plain);
}

#[test]
fn tree_keys() {
    assert_eq!(tree_action(InputEvent::Key(Key::Char('q')), 1, false), Some(TreeAction::Quit));
    assert_eq!(tree_action(InputEvent::Key(Key::Char(' ')), 1, false), Some(TreeAction::ToggleSelected));
    assert_eq!(tree_action(InputEvent::Key(Key::Char('\n')), 2, true), Some(TreeAction::ToggleSelected));
    assert_eq!(tree_action(InputEvent::Key(Key::Left), 1, false), None);
    assert_eq!(tree_action(InputEvent::Key(Key::Left), 1, true), Some(TreeAction::KeyLeft));
    assert_eq!(tree_action(InputEvent::Key(Key::Left), 2, false), Some(TreeAction::KeyLeft));
    assert_eq!(tree_action(InputEvent::Key(Key::Esc), 2, false), Some(TreeAction::SelectFirst));
    assert_eq!(tree_action(InputEvent::Key(Key::End), 2, false), Some(TreeAction::SelectLast));
    assert_eq!(tree_action(InputEvent::Key(Key::PageDown), 1, false), Some(TreeAction::ScrollDown(3)));
    assert_eq!(tree_action(InputEvent::Key(Key::PageUp), 1, false), Some(TreeAction::ScrollUp(3)));
    assert_eq!(tree_action(InputEvent::ScrollDown, 1, false), Some(TreeAction::ScrollDown(1)));
    assert_eq!(tree_action(InputEvent::Click(4, 7), 1, false), Some(TreeAction::ClickAt(4, 7)));
    assert_eq!(tree_action(InputEvent::Resize(10, 10), 1, false), Some(TreeAction::Redraw));
    assert_eq!(tree_action(InputEvent::FocusLost, 1, false), None);
    assert_eq!(tree_action(InputEvent::Key(Key::Char('z')), 1, false), None);
}

#[test]
fn config_holds_filename() {
    let c = Config::new("log.txt".to_string());
    assert_eq!(c.filename, "log.txt");
}

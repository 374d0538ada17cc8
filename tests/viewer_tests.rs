use outline_nav::focus::{Pane, Transition};
use outline_nav::scroll::{scroll_offset, selection_line};
use outline_nav::viewer::App;

const DOC: &str = "first a\nfirst b\n\nsecond a\nsecond b\nsecond c\n\nthird a\nthird b";

#[test]
fn scroll_keeps_offset_when_in_window() {
    assert_eq!(scroll_offset(3, 3, 4, 10), 3);
    assert_eq!(scroll_offset(3, 6, 4, 10), 3);
    let once = scroll_offset(0, 7, 3, 10);
    assert_eq!(once, 5);
    assert_eq!(scroll_offset(once, 7, 3, 10), once);
}

#[test]
fn scroll_below_and_above() {
    assert_eq!(scroll_offset(0, 5, 2, 9), 4);
    assert_eq!(scroll_offset(6, 2, 3, 9), 2);
}

#[test]
fn scroll_empty_window_or_list() {
    assert_eq!(scroll_offset(4, 5, 0, 9), 0);
    assert_eq!(scroll_offset(4, 5, 3, 0), 0);
}

#[test]
fn selection_line_finds_first_tagged() {
    let lines: Vec<(usize, String)> =
        vec![(0, "a".to_string()), (1, "b".to_string()), (1, "c".to_string()), (2, "d".to_string())];
    assert_eq!(selection_line(&lines, 1), Some(1));
    assert_eq!(selection_line(&lines, 2), Some(3));
    assert_eq!(selection_line(&lines, 5), None);
}

#[test]
fn scroll_to_last_paragraph() {
    let mut app = App::new(DOC);
    assert_eq!(app.paragraph_count(), 3);
    assert!(app.apply(Transition::MoveNext));
    assert!(app.apply(Transition::MoveNext));
    assert!(app.apply(Transition::Commit));
    let f = app.focus_state();
    assert_eq!(f.pane, Pane::Content);
    assert_eq!(f.content_index, 2);
    let (nav, content) = app.render(10, 2);
    assert_eq!(content.offset, 5 - 2 + 1);
    assert!(content.active);
    assert!(!nav.active);
    assert_eq!(nav.offset, 0);
    assert_eq!(content.lines.len(), 7);
    let lit: Vec<bool> = content.lines.iter().map(|l| l.highlighted).collect();
    assert_eq!(lit, vec![false, false, false, false, false, true, true]);
    // Rendering again with the selection unchanged keeps the offset.
    let (_, again) = app.render(10, 2);
    assert_eq!(again.offset, 4);
}

#[test]
fn move_next_at_last_paragraph_changes_nothing() {
    let mut app = App::new(DOC);
    app.next();
    app.next();
    let before = app.focus_state();
    assert_eq!(before.nav_index, 2);
    app.next();
    assert_eq!(app.focus_state(), before);
    app.select_nav();
    app.next();
    let after = app.focus_state();
    assert_eq!(after.content_index, 2);
    assert_eq!(after.nav_index, 2);
}

#[test]
fn navigation_labels_and_highlight() {
    let mut app = App::with_options(DOC, true, true);
    app.next();
    let (nav, content) = app.render(2, 10);
    let texts: Vec<&str> = nav.lines.iter().map(|l| l.text.as_str()).collect();
    assert_eq!(texts, vec!["[+] first a", "[+] second a", "[+] third a"]);
    let lit: Vec<bool> = nav.lines.iter().map(|l| l.highlighted).collect();
    assert_eq!(lit, vec![false, true, false]);
    assert!(nav.active);
    let ctexts: Vec<&str> = content.lines.iter().map(|l| l.text.as_str()).collect();
    assert_eq!(ctexts, vec!["first a", "second a", "third a"]);
}

#[test]
fn toggle_acts_on_active_selection() {
    let mut app = App::new(DOC);
    app.next();
    app.toggle();
    assert!(app.is_collapsed(1));
    assert!(!app.is_collapsed(0));
    assert_eq!(app.visible_lines().len(), 5);
    app.toggle();
    assert!(!app.is_collapsed(1));
    assert!(app.apply(Transition::SwitchToContent));
    assert!(app.apply(Transition::ToggleCollapse));
    assert!(app.is_collapsed(0));
    let (nav, _) = app.render(5, 5);
    assert_eq!(nav.lines[0].text, "[+] first a");
    assert!(!app.apply(Transition::Quit));
}

#[test]
fn nav_scroll_follows_selection() {
    let mut app = App::new(DOC);
    app.next();
    app.next();
    let (nav, _) = app.render(2, 5);
    assert_eq!(nav.offset, 1);
    app.prev();
    app.prev();
    let (nav, _) = app.render(2, 5);
    assert_eq!(nav.offset, 0);
}

#[test]
fn empty_document_viewer() {
    let mut app = App::new("\n\n");
    assert_eq!(app.paragraph_count(), 0);
    assert!(app.apply(Transition::MoveNext));
    assert!(app.apply(Transition::Commit));
    assert!(app.apply(Transition::ToggleCollapse));
    assert_eq!(app.focus_state().pane, Pane::Navigation);
    let (nav, content) = app.render(3, 3);
    assert!(nav.lines.is_empty());
    assert!(content.lines.is_empty());
    assert_eq!(nav.offset, 0);
    assert_eq!(content.offset, 0);
}

#[test]
fn moves_keep_scroll_offsets() {
    let mut app = App::new(DOC);
    app.next();
    app.next();
    let (nav, _) = app.render(2, 2);
    assert_eq!(nav.offset, 1);
    app.prev();
    app.toggle();
    app.select_nav();
    app.next();
    // Offsets change only at render time; the selection is still in the nav window.
    let (nav, _) = app.render(2, 2);
    assert_eq!(nav.offset, 1);
}

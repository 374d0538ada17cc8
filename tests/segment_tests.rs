use outline_nav::segment::{paragraphs_from_text, split_paragraphs};
use outline_nav::text::line_is_blank;

fn strings(v: &[&str]) -> Vec<String> {
    v.iter().map(|s| s.to_string()).collect()
}

#[test]
fn example_three_paragraphs() {
    let ps = paragraphs_from_text("a\nb\n\nc\n\nd\ne\n");
    assert_eq!(ps, vec![strings(&["a", "b"]), strings(&["c"]), strings(&["d", "e"])]);
}

#[test]
fn empty_text_has_no_paragraphs() {
    assert!(paragraphs_from_text("").is_empty());
    assert!(paragraphs_from_text("\n\n  \n").is_empty());
}

#[test]
fn leading_trailing_and_repeated_blank_lines() {
    let lines = strings(&["", "  ", "one", "two", "", "\t", "", "three", " ", ""]);
    let ps = split_paragraphs(&lines);
    assert_eq!(ps, vec![strings(&["one", "two"]), strings(&["three"])]);
}

#[test]
fn paragraph_count_matches_runs() {
    let lines = strings(&["x", "", "y", "z", "", "", "w"]);
    let ps = split_paragraphs(&lines);
    assert_eq!(ps.len(), 3);
    assert!(ps.iter().all(|p| !p.is_empty()));
    let flat: Vec<String> = ps.concat();
    assert_eq!(flat, strings(&["x", "y", "z", "w"]));
    let joined = ps.iter().map(|p| p.join("\n")).collect::<Vec<_>>().join("\n\n");
    assert_eq!(joined, "x\n\ny\nz\n\nw");
}

#[test]
fn carriage_returns_are_line_endings() {
    let ps = paragraphs_from_text("a\r\nb\r\n\r\nc");
    assert_eq!(ps, vec![strings(&["a", "b"]), strings(&["c"])]);
}

#[test]
fn blank_lines() {
    assert!(line_is_blank(""));
    assert!(line_is_blank(" \t \u{a0}"));
    assert!(!line_is_blank(" x "));
    assert!(!line_is_blank("x"));
}

#[test]
fn only_one_carriage_return_before_a_newline_is_dropped() {
    let ps = paragraphs_from_text("a\r\r\nb\r");
    assert_eq!(ps, vec![strings(&["a\r", "b\r"])]);
}

#[test]
fn final_newline_adds_no_line() {
    assert_eq!(paragraphs_from_text("a\n"), vec![strings(&["a"])]);
    assert_eq!(paragraphs_from_text("a"), vec![strings(&["a"])]);
}

use outline_nav::outline::Outline;

fn para(v: &[&str]) -> Vec<String> {
    v.iter().map(|s| s.to_string()).collect()
}

fn sample() -> Outline {
    Outline::build(vec![para(&["a", "b"]), para(&["c"]), para(&["d", "e", "f"])], false)
}

fn tagged(v: &[(usize, &str)]) -> Vec<(usize, String)> {
    v.iter().map(|(i, s)| (*i, s.to_string())).collect()
}

#[test]
fn expanded_outline_shows_every_line() {
    let o = sample();
    assert_eq!(o.len(), 3);
    assert_eq!(
        o.visible_lines(),
        tagged(&[(0, "a"), (0, "b"), (1, "c"), (2, "d"), (2, "e"), (2, "f")])
    );
}

#[test]
fn collapsed_outline_shows_first_lines() {
    let o = Outline::build(vec![para(&["a", "b"]), para(&["c"]), para(&["d", "e", "f"])], true);
    assert_eq!(o.visible_lines(), tagged(&[(0, "a"), (1, "c"), (2, "d")]));
    assert!(o.is_collapsed(2));
}

#[test]
fn toggle_collapses_one_paragraph() {
    let mut o = sample();
    o.toggle(2);
    assert!(o.is_collapsed(2));
    assert!(!o.is_collapsed(0));
    assert_eq!(
        o.visible_lines(),
        tagged(&[(0, "a"), (0, "b"), (1, "c"), (2, "d")])
    );
}

#[test]
fn toggle_twice_restores_visible_lines() {
    let mut o = sample();
    let before = o.visible_lines();
    o.toggle(0);
    assert_ne!(o.visible_lines(), before);
    o.toggle(0);
    assert_eq!(o.visible_lines(), before);
}

#[test]
fn toggle_out_of_range_is_a_no_op() {
    let mut o = sample();
    let before = o.visible_lines();
    o.toggle(3);
    o.toggle(usize::MAX);
    assert_eq!(o.visible_lines(), before);
}

#[test]
fn empty_outline() {
    let o = Outline::from_text("", true);
    assert_eq!(o.len(), 0);
    assert!(o.visible_lines().is_empty());
}

#[test]
fn outline_from_text() {
    let o = Outline::from_text("one\ntwo\n\nthree", false);
    assert_eq!(o.len(), 2);
    assert_eq!(o.first_line(1), "three");
    assert_eq!(
        o.visible_lines(),
        tagged(&[(0, "one"), (0, "two"), (1, "three")])
    );
}

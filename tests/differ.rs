use ogle::differ::Differ;

fn pushall(d: &mut Differ, lines: &[&str]) -> Vec<bool> {
    lines
        .iter()
        .map(|l| {
            d.push(l.to_string());
            d.has_changed()
        })
        .collect()
}

#[test]
fn test_basic() {
    let mut d = Differ::new();
    assert!(!d.has_changed());
    d.push("1".to_owned());
    assert!(d.has_changed());
    d.push("2".to_owned());
    assert_eq!(d.collect_lines(), vec!["1", "2"]);
    d.reset();
    assert!(!d.has_changed());
    d.push("1".to_owned());
    assert!(!d.has_changed());
    d.push("2".to_owned());
    assert!(!d.has_changed());
    d.push("3".to_owned());
    assert!(d.has_changed());
    assert_eq!(d.collect_lines(), vec!["1", "2", "3"]);
}

#[test]
fn identical_runs_never_change() {
    let mut d = Differ::new();
    d.push("x".to_owned());
    d.reset();
    pushall(&mut d, &["a", "b", "c"]);
    d.reset();
    assert_eq!(pushall(&mut d, &["a", "b", "c"]), vec![false, false, false]);
}

#[test]
fn divergence_on_first_mismatch() {
    let mut d = Differ::new();
    pushall(&mut d, &["a", "b", "c"]);
    d.end_run();
    d.reset();
    assert_eq!(pushall(&mut d, &["a", "x"]), vec![false, true]);
    assert_eq!(d.next(), Some("a".to_string()));
    assert_eq!(d.next(), Some("x".to_string()));
    assert_eq!(d.next(), None);
    d.push("y".to_owned());
    assert_eq!(d.collect_lines(), vec!["y"]);
}

#[test]
fn shorter_run_triggers_divergence() {
    let mut d = Differ::new();
    pushall(&mut d, &["a", "b"]);
    d.end_run();
    d.reset();
    d.push("a".to_owned());
    assert!(!d.has_changed());
    assert!(d.has_unmatched());
    d.end_run();
    assert!(d.has_changed());
    assert_eq!(d.collect_lines(), vec!["a"]);
}

#[test]
fn longer_run_diverges_past_baseline() {
    let mut d = Differ::new();
    pushall(&mut d, &["a"]);
    d.end_run();
    d.reset();
    assert_eq!(pushall(&mut d, &["a", "b", "c"]), vec![false, true, true]);
    assert_eq!(d.next(), Some("a".to_string()));
    assert_eq!(d.next(), Some("b".to_string()));
    assert_eq!(d.next(), Some("c".to_string()));
    assert_eq!(d.next(), None);
}

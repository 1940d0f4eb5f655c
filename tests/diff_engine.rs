use seven_display::diff::{decide, filter_ascii, same_chars, starts_with, DiffEngine};
use seven_display::edit::PrimitiveEdit;

fn chars(s: &str) -> Vec<char> {
    s.chars().collect()
}

fn engine_showing(s: &str) -> DiffEngine {
    let mut e = DiffEngine::new();
    e.converge(&chars(s));
    assert_eq!(e.display(), chars(s));
    e
}

fn step_until_converged(e: &mut DiffEngine, target: &str) -> Vec<PrimitiveEdit> {
    let input = chars(target);
    let mut out = Vec::new();
    while let Some(edit) = e.step(&input) {
        out.push(edit);
        assert!(out.len() <= 200);
    }
    out
}

#[test]
fn scenario_append_from_empty() {
    let mut e = DiffEngine::new();
    let edits = step_until_converged(&mut e, "hi");
    assert_eq!(edits, vec![PrimitiveEdit::Append('h'), PrimitiveEdit::Append('i')]);
    assert_eq!(e.display(), chars("hi"));
}

#[test]
fn scenario_clear_to_empty() {
    let mut e = engine_showing("hi");
    let edits = step_until_converged(&mut e, "");
    assert_eq!(edits, vec![PrimitiveEdit::Clear]);
    assert_eq!(e.display(), chars(""));
}

#[test]
fn scenario_backspaces() {
    let mut e = engine_showing("hello");
    let edits = step_until_converged(&mut e, "he");
    assert_eq!(edits, vec![PrimitiveEdit::Backspace; 3]);
    assert_eq!(e.display(), chars("he"));
}

#[test]
fn scenario_replaced_content() {
    let mut e = engine_showing("cat");
    let edits = step_until_converged(&mut e, "dog");
    assert_eq!(
        edits,
        vec![
            PrimitiveEdit::Clear,
            PrimitiveEdit::Append('d'),
            PrimitiveEdit::Append('o'),
            PrimitiveEdit::Append('g'),
        ]
    );
    assert_eq!(e.display(), chars("dog"));
}

#[test]
fn scenario_ratio_clear() {
    let mut e = engine_showing("aaaaaaaaaa");
    let edits = step_until_converged(&mut e, "b");
    assert_eq!(edits, vec![PrimitiveEdit::Clear, PrimitiveEdit::Append('b')]);
    assert_eq!(e.display(), chars("b"));
}

#[test]
fn ratio_boundary_backspaces() {
    // 2 * 2 + 1 == 5 is not below 5: backspace rather than clear.
    let mut e = engine_showing("abcde");
    let edits = step_until_converged(&mut e, "ab");
    assert_eq!(edits, vec![PrimitiveEdit::Backspace; 3]);
    // 2 * 2 + 1 == 5 is below 6: clear, then append.
    let mut e = engine_showing("abcdef");
    let edits = step_until_converged(&mut e, "ab");
    assert_eq!(
        edits,
        vec![PrimitiveEdit::Clear, PrimitiveEdit::Append('a'), PrimitiveEdit::Append('b')]
    );
}

#[test]
fn converged_display_emits_nothing() {
    let mut e = engine_showing("same");
    assert_eq!(e.step(&chars("same")), None);
    assert_eq!(e.display(), chars("same"));
    assert_eq!(e.converge(&chars("same")), vec![]);
    let mut empty = DiffEngine::new();
    assert_eq!(empty.step(&chars("")), None);
}

#[test]
fn non_ascii_never_appended() {
    let mut e = DiffEngine::new();
    let edits = e.converge(&chars("héllo→ wörld"));
    assert_eq!(e.display(), chars("hllo wrld"));
    for edit in &edits {
        if let PrimitiveEdit::Append(c) = edit {
            assert!(c.is_ascii());
        }
    }
    assert_eq!(edits.len(), 9);
}

#[test]
fn only_non_ascii_counts_as_empty() {
    let mut e = engine_showing("abc");
    assert_eq!(e.step(&chars("ééé")), Some(PrimitiveEdit::Clear));
    assert_eq!(e.display(), chars(""));
    assert_eq!(e.step(&chars("ééé")), None);
}

#[test]
fn converge_counts_steps() {
    let mut e = engine_showing("ab");
    assert_eq!(e.converge(&chars("abcd")).len(), 2);
    assert_eq!(e.converge(&chars("a")).len(), 2);
    let mut e = engine_showing("xyz");
    assert_eq!(e.converge(&chars("xq")).len(), 3);
    assert_eq!(e.display(), chars("xq"));
}

#[test]
fn target_changes_mid_convergence() {
    let mut e = DiffEngine::new();
    assert_eq!(e.step(&chars("abc")), Some(PrimitiveEdit::Append('a')));
    assert_eq!(e.step(&chars("abc")), Some(PrimitiveEdit::Append('b')));
    assert_eq!(e.step(&chars("a")), Some(PrimitiveEdit::Backspace));
    assert_eq!(e.step(&chars("ax")), Some(PrimitiveEdit::Append('x')));
    assert_eq!(e.step(&chars("ax")), None);
    assert_eq!(e.display(), chars("ax"));
}

#[test]
fn helpers() {
    assert_eq!(filter_ascii(&chars("aé b")), chars("a b"));
    assert_eq!(filter_ascii(&chars("")), chars(""));
    assert!(starts_with(&chars("hello"), &chars("he")));
    assert!(starts_with(&chars("hello"), &chars("")));
    assert!(!starts_with(&chars("he"), &chars("hello")));
    assert!(!starts_with(&chars("hello"), &chars("hx")));
    assert!(same_chars(&chars("ab"), &chars("ab")));
    assert!(!same_chars(&chars("ab"), &chars("abc")));
    assert_eq!(decide(&chars("he"), &chars("hey")), PrimitiveEdit::Append('y'));
    assert_eq!(decide(&chars("hey"), &chars("he")), PrimitiveEdit::Backspace);
    assert_eq!(decide(&chars("ab"), &chars("cd")), PrimitiveEdit::Clear);
    assert_eq!(decide(&chars("ab"), &chars("")), PrimitiveEdit::Clear);
}

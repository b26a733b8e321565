use wmfocus::hints::HintMap;
use wmfocus::keyboard::KeyPress;
use wmfocus::selection::{run_batches, Selection, Verdict};
use wmfocus::session::SessionState;
use wmfocus::window::DesktopWindow;

fn window(id: i64, x: i32, y: i32, w: i32, h: i32) -> DesktopWindow {
    DesktopWindow { id, pos: (x, y), size: (w, h), is_focused: false }
}

fn text(s: &str) -> KeyPress {
    KeyPress::Text(s.to_string())
}

fn two_windows() -> (DesktopWindow, DesktopWindow, HintMap) {
    let a = window(1, 0, 0, 800, 600);
    let b = window(2, 800, 0, 800, 600);
    let mut hints = HintMap::new();
    hints.insert("a".to_string(), a);
    hints.insert("b".to_string(), b);
    (a, b, hints)
}

#[test]
fn scenario_a_selects_a() {
    let (a, _, hints) = two_windows();
    let r = run_batches(&hints, &vec![vec![text("a")]]);
    assert!(matches!(r, Verdict::Selected(w) if w == a));
}

#[test]
fn scenario_b_selects_b() {
    let (_, b, hints) = two_windows();
    let r = run_batches(&hints, &vec![vec![text("b")]]);
    assert!(matches!(r, Verdict::Selected(w) if w == b));
}

#[test]
fn scenario_escape_selects_nothing() {
    let (_, _, hints) = two_windows();
    let r = run_batches(&hints, &vec![vec![KeyPress::Cancel]]);
    assert!(matches!(r, Verdict::Cancelled));
}

#[test]
fn scenario_unmatched_then_escape_selects_nothing() {
    let (_, _, hints) = two_windows();
    let r = run_batches(&hints, &vec![vec![text("x")], vec![KeyPress::Cancel]]);
    assert!(matches!(r, Verdict::Cancelled));
}

#[test]
fn unmatched_text_stays_pending() {
    let (_, _, hints) = two_windows();
    let r = run_batches(&hints, &vec![vec![text("x")], vec![text("y")], vec![]]);
    assert!(matches!(r, Verdict::Pending));
}

#[test]
fn label_typed_across_batches_selects() {
    let a = window(1, 0, 0, 10, 10);
    let b = window(2, 10, 0, 10, 10);
    let mut hints = HintMap::new();
    hints.insert("aa".to_string(), a);
    hints.insert("ab".to_string(), b);
    let one = run_batches(&hints, &vec![vec![text("a"), text("b")]]);
    assert!(matches!(one, Verdict::Selected(w) if w == b));
    let many = run_batches(&hints, &vec![vec![text("a")], vec![], vec![text("b")]]);
    assert!(matches!(many, Verdict::Selected(w) if w == b));
}

#[test]
fn cancel_mid_label_wins_over_completion_in_same_batch() {
    let (_, _, mut hints) = two_windows();
    hints.insert("ab".to_string(), window(3, 0, 600, 10, 10));
    let r = run_batches(&hints, &vec![vec![text("x")], vec![KeyPress::Cancel, KeyPress::Erase, text("b")]]);
    assert!(matches!(r, Verdict::Cancelled));
}

#[test]
fn backspace_recovers_from_a_typo() {
    let (a, _, hints) = two_windows();
    let r = run_batches(&hints, &vec![vec![text("x")], vec![KeyPress::Erase, text("a")]]);
    assert!(matches!(r, Verdict::Selected(w) if w == a));
}

#[test]
fn backspace_removes_last_character() {
    let mut s = Selection::new();
    s.press(&text("a"));
    s.press(&text("b"));
    s.press(&KeyPress::Erase);
    assert_eq!(s.typed, "a");
    assert!(!s.cancelled);
}

#[test]
fn backspace_on_empty_is_a_no_op() {
    let mut s = Selection::new();
    s.press(&KeyPress::Erase);
    assert_eq!(s.typed, "");
    assert!(!s.cancelled);
}

#[test]
fn ignored_keys_change_nothing() {
    let mut s = Selection::new();
    s.press(&text("a"));
    s.press(&KeyPress::Ignore);
    assert_eq!(s.typed, "a");
    assert!(!s.cancelled);
}

#[test]
fn verdict_tests_cancel_before_labels() {
    let (_, _, hints) = two_windows();
    let mut s = Selection::new();
    s.press(&text("a"));
    s.press(&KeyPress::Cancel);
    assert!(matches!(s.verdict(&hints), Verdict::Cancelled));
}

#[test]
fn no_batches_is_pending() {
    let (_, _, hints) = two_windows();
    assert!(matches!(run_batches(&hints, &vec![]), Verdict::Pending));
}

#[test]
fn hint_map_get_and_replace() {
    let a = window(1, 0, 0, 1, 1);
    let b = window(2, 5, 5, 1, 1);
    let mut hints = HintMap::new();
    assert_eq!(hints.get(&"a".to_string()), None);
    hints.insert("a".to_string(), a);
    assert_eq!(hints.get(&"a".to_string()), Some(a));
    hints.insert("a".to_string(), b);
    assert_eq!(hints.get(&"a".to_string()), Some(b));
    assert_eq!(hints.get(&"b".to_string()), None);
}

#[test]
fn configure_echoes_serial() {
    let mut s = SessionState::new();
    assert!(!s.may_attach());
    assert_eq!(s.on_configure(4242), 4242);
    assert!(s.configured);
    assert!(s.may_attach());
}

#[test]
fn session_applies_presses_and_tests_after_dispatch() {
    let (a, _, hints) = two_windows();
    let mut s = SessionState::new();
    assert!(matches!(s.after_dispatch(&hints), Verdict::Pending));
    s.on_key_press(&text("a"));
    assert!(matches!(s.after_dispatch(&hints), Verdict::Selected(w) if w == a));
}

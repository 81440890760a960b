use std::collections::HashSet;

use hnr::seen::{seen_from_text, seen_to_text};
use hnr::session::Session;

fn save(ids: &HashSet<u64>) -> String {
    seen_to_text(ids.iter().copied().collect()).unwrap()
}

#[test]
fn seen_save_and_load_round_trip() {
    let ids: HashSet<u64> = [1, 2, 3].into_iter().collect();
    let text = save(&ids);
    assert_eq!(seen_from_text(&text), ids);
}

#[test]
fn seen_load_returns_empty_when_no_file() {
    // A missing file reads as empty text.
    assert!(seen_from_text("").is_empty());
}

#[test]
fn seen_load_returns_empty_on_corrupt_file() {
    assert!(seen_from_text("not valid json").is_empty());
}

#[test]
fn save_is_idempotent() {
    let ids: HashSet<u64> = [10, 20].into_iter().collect();
    let first = save(&ids);
    let second = save(&seen_from_text(&first));
    assert_eq!(first, second);
    assert_eq!(seen_from_text(&second), ids);
}

#[test]
fn seen_text_is_sorted_pretty_json() {
    assert_eq!(seen_to_text(vec![3, 1, 2]).unwrap(), "[\n  1,\n  2,\n  3\n]");
    assert_eq!(seen_to_text(Vec::new()).unwrap(), "[]");
    assert!(seen_from_text("[]").is_empty());
    assert!(seen_from_text("[1, -2]").is_empty());
}

#[test]
fn session_save_and_load_round_trip() {
    let session = Session { username: "pg".into(), cookie: "user=abc123xyz".into() };
    let text = session.to_text();
    let loaded = Session::from_text(&text).expect("should load");
    assert_eq!(loaded.username, "pg");
    assert_eq!(loaded.cookie, "user=abc123xyz");
}

#[test]
fn session_text_layout() {
    let session = Session { username: "pg".into(), cookie: "user=abc".into() };
    assert_eq!(session.to_text(), "pg\nuser=abc");
}

#[test]
fn session_from_text_rejects_incomplete_content() {
    assert!(Session::from_text("").is_none());
    assert!(Session::from_text("pg").is_none());
    assert!(Session::from_text("pg\n").is_none());
    assert!(Session::from_text("\nuser=abc").is_none());
    let s = Session::from_text("pg\r\nuser=abc\r\nextra").unwrap();
    assert_eq!(s.username, "pg");
    assert_eq!(s.cookie, "user=abc");
}

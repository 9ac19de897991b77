use std::time::Instant;

use problem_picker::ids::{MAX_PROBLEM_ID, MIN_PROBLEM_ID};
use problem_picker::session::{
    action_message, AppAction, FetchResult, Session, ACTION_MESSAGE_MS, FETCH_TIMEOUT_MS,
};

fn result(generation: u64, title: &str) -> FetchResult {
    FetchResult { generation, title: title.to_string() }
}

#[test]
fn new_session_is_empty() {
    let s = Session::new();
    assert_eq!(s.problem_id(), None);
    assert_eq!(s.url(), "");
    assert_eq!(s.name(), None);
    assert!(!s.is_loading());
    assert!(!s.is_url_valid());
    assert!(s.save_request().is_none());
    assert_eq!(s.get_action_message(0), None);
}

#[test]
fn generate_with_starts_loading() {
    let mut s = Session::new();
    let req = s.generate_with(7, 100);
    assert_eq!(req.url, "https://eolymp.com/uk/problems/7");
    assert_eq!(req.generation, 1);
    assert_eq!(s.generation(), 1);
    assert_eq!(s.problem_id(), Some(7));
    assert_eq!(s.url(), "https://eolymp.com/uk/problems/7");
    assert!(s.is_loading());
    assert!(s.is_url_valid());
    assert_eq!(s.name(), None);
}

#[test]
fn generate_url_returns_at_once() {
    let mut s = Session::new();
    let started = Instant::now();
    let req = s.generate_url(0);
    assert!(started.elapsed().as_millis() < 50);
    let id = s.problem_id().unwrap();
    assert!(id >= MIN_PROBLEM_ID && id <= MAX_PROBLEM_ID);
    assert_eq!(req.url, format!("https://eolymp.com/uk/problems/{}", id));
    assert!(s.is_loading());
}

#[test]
fn awaited_result_is_attached() {
    let mut s = Session::new();
    let req = s.generate_with(42, 0);
    assert!(s.accept(result(req.generation, "Two Sum")));
    assert_eq!(s.name(), Some("Two Sum".to_string()));
    assert!(!s.is_loading());
}

#[test]
fn superseded_result_is_dropped() {
    let mut s = Session::new();
    let first = s.generate_with(1, 0);
    let second = s.generate_with(2, 10);
    assert!(!s.accept(result(first.generation, "Old")));
    assert!(s.is_loading());
    assert_eq!(s.name(), None);
    assert!(s.accept(result(second.generation, "New")));
    assert_eq!(s.name(), Some("New".to_string()));
    assert!(!s.accept(result(second.generation, "Again")));
    assert_eq!(s.name(), Some("New".to_string()));
}

#[test]
fn hung_fetch_times_out() {
    let mut s = Session::new();
    let req = s.generate_with(3, 1000);
    s.check_for_title(None, 1000 + FETCH_TIMEOUT_MS - 1);
    assert!(s.is_loading());
    s.check_for_title(None, 1000 + FETCH_TIMEOUT_MS);
    assert!(!s.is_loading());
    assert_eq!(s.name(), None);
    assert_eq!(s.problem_id(), Some(3));
    s.check_for_title(Some(result(req.generation, "Late")), 1000 + FETCH_TIMEOUT_MS + 5);
    assert_eq!(s.name(), None);
}

#[test]
fn expire_says_whether_it_gave_up() {
    let mut s = Session::new();
    assert!(!s.expire(FETCH_TIMEOUT_MS));
    s.generate_with(3, 500);
    assert!(!s.expire(100));
    assert!(s.expire(500 + FETCH_TIMEOUT_MS));
    assert!(!s.expire(500 + 2 * FETCH_TIMEOUT_MS));
}

#[test]
fn check_for_title_attaches_before_timeout() {
    let mut s = Session::new();
    let req = s.generate_with(9, 0);
    s.check_for_title(Some(result(req.generation, "Nine")), FETCH_TIMEOUT_MS);
    assert_eq!(s.name(), Some("Nine".to_string()));
    assert!(!s.is_loading());
}

#[test]
fn save_request_after_title() {
    let mut s = Session::new();
    let req = s.generate_with(42, 0);
    assert!(s.save_request().is_none());
    s.accept(result(req.generation, "Two Sum"));
    let p = s.save_request().unwrap();
    assert_eq!(p.problem_id, 42);
    assert_eq!(p.name, "Two Sum");
    assert_eq!(p.url, "https://eolymp.com/uk/problems/42");
}

#[test]
fn save_request_of_oversized_id() {
    let mut s = Session::new();
    let req = s.generate_with(u32::MAX, 0);
    s.accept(result(req.generation, "Big"));
    assert!(s.save_request().is_none());
}

#[test]
fn action_message_shows_briefly() {
    let mut s = Session::new();
    s.set_action(AppAction::Saved, 2000);
    assert_eq!(s.get_action_message(2000), Some("💾 Задачу збережено".to_string()));
    assert_eq!(
        s.get_action_message(2000 + ACTION_MESSAGE_MS - 1),
        Some("💾 Задачу збережено".to_string())
    );
    assert_eq!(s.get_action_message(2000 + ACTION_MESSAGE_MS), None);
    assert_eq!(s.get_action_message(1999), None);
}

#[test]
fn action_messages_per_action() {
    assert_eq!(action_message(AppAction::Generated), "✅ URL згенеровано!");
    assert_eq!(action_message(AppAction::Opened), "🌐 URL відкрито в браузері!");
    assert_eq!(action_message(AppAction::Copied), "📋 Скопійовано в буфер обміну!");
    assert_eq!(action_message(AppAction::Saved), "💾 Задачу збережено");
    assert_eq!(action_message(AppAction::Deleted), "🗑 Задачу видалено");
}

#[test]
fn generation_increases() {
    let mut s = Session::new();
    let a = s.generate_with(1, 0);
    let b = s.generate_with(1, 0);
    assert_eq!(b.generation, a.generation + 1);
}

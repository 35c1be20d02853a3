use clipboard_manager::app::{restore_command, MyApp};
use clipboard_manager::history::History;
use clipboard_manager::watcher::{ClipboardCommand, Watcher, POLLING_RATE_MS};
use std::sync::mpsc;
use std::sync::{Arc, Mutex};

fn text_of(cmd: &ClipboardCommand) -> &str {
    match cmd {
        ClipboardCommand::SetText(t) => t,
    }
}

#[test]
fn new_watcher_has_empty_last_seen() {
    let w = Watcher::new();
    assert_eq!(w.last(), "");
    assert_eq!(POLLING_RATE_MS, 500);
}

#[test]
fn new_text_is_captured() {
    let mut w = Watcher::new();
    let mut h = History::new();
    assert!(w.observe(&mut h, Some("copied".to_string())));
    assert_eq!(h.snapshot(), vec!["copied".to_string()]);
    assert_eq!(w.last(), "copied");
}

#[test]
fn unchanged_read_is_not_captured() {
    let mut w = Watcher::new();
    let mut h = History::new();
    assert!(w.observe(&mut h, Some("x".to_string())));
    let before = h.snapshot();
    assert!(!w.observe(&mut h, Some("x".to_string())));
    assert_eq!(h.snapshot(), before);
    assert_eq!(w.last(), "x");
}

#[test]
fn repeated_unchanged_reads_append_nothing() {
    let mut w = Watcher::new();
    let mut h = History::new();
    w.observe(&mut h, Some("x".to_string()));
    for _ in 0..10 {
        assert!(!w.observe(&mut h, Some("x".to_string())));
    }
    assert_eq!(h.snapshot(), vec!["x".to_string()]);
}

#[test]
fn empty_clipboard_at_start_is_not_captured() {
    let mut w = Watcher::new();
    let mut h = History::new();
    assert!(!w.observe(&mut h, Some(String::new())));
    assert_eq!(h.len(), 0);
}

#[test]
fn failed_read_changes_nothing() {
    let mut w = Watcher::new();
    let mut h = History::new();
    w.observe(&mut h, Some("a".to_string()));
    assert!(!w.observe(&mut h, None));
    assert_eq!(h.snapshot(), vec!["a".to_string()]);
    assert_eq!(w.last(), "a");
}

#[test]
fn drained_command_is_not_recaptured() {
    let mut w = Watcher::new();
    let mut h = History::new();
    let text = w.apply_command(ClipboardCommand::SetText("hello".to_string()));
    assert_eq!(text, "hello");
    assert_eq!(w.last(), "hello");
    assert!(!w.observe(&mut h, Some("hello".to_string())));
    assert_eq!(h.len(), 0);
}

#[test]
fn only_the_last_drained_command_counts() {
    let mut w = Watcher::new();
    let mut h = History::new();
    w.apply_command(ClipboardCommand::SetText("a".to_string()));
    w.apply_command(ClipboardCommand::SetText("b".to_string()));
    assert!(!w.observe(&mut h, Some("b".to_string())));
    assert!(w.observe(&mut h, Some("a".to_string())));
    assert_eq!(h.snapshot(), vec!["a".to_string()]);
}

#[test]
fn changed_clipboard_after_command_is_captured() {
    let mut w = Watcher::new();
    let mut h = History::new();
    w.apply_command(ClipboardCommand::SetText("hello".to_string()));
    assert!(w.observe(&mut h, Some("world".to_string())));
    assert_eq!(h.snapshot(), vec!["world".to_string()]);
}

#[test]
fn restore_command_picks_the_entry() {
    let snap = vec!["a".to_string(), "b".to_string()];
    let cmd = restore_command(&snap, 1).unwrap();
    assert_eq!(text_of(&cmd), "b");
    assert!(restore_command(&snap, 2).is_none());
    assert!(restore_command(&Vec::new(), 0).is_none());
}

#[test]
fn my_app_shares_history_and_channel() {
    let contents = Arc::new(Mutex::new(History::new()));
    let (tx, rx) = mpsc::channel();
    let app = MyApp::new(Arc::clone(&contents), tx);
    assert!(Arc::ptr_eq(app.contents(), &contents));
    contents.lock().unwrap().push("shared".to_string());
    assert_eq!(app.contents().lock().unwrap().snapshot(), vec!["shared".to_string()]);
    app.clipboard_tx().send(ClipboardCommand::SetText("go".to_string())).unwrap();
    assert_eq!(text_of(&rx.recv().unwrap()), "go");
}

use std::collections::HashSet;
use trayme::errors::AppError;
use trayme::tray::{get_window_preview, list_windows, minimize_to_tray, restore_from_tray};
use trayme::window::{TrayedWindow, WindowManager};

fn window(id: &str, title: &str) -> TrayedWindow {
    TrayedWindow::from_parts(id.to_string(), title.to_string(), "app".to_string(), 100)
}

#[test]
fn new_window_has_fresh_fields() {
    let w = TrayedWindow::new("Editor".to_string(), "code".to_string());
    assert_eq!(w.title, "Editor");
    assert_eq!(w.app_name, "code");
    assert!(w.process_id.is_none());
    assert!(w.workspace.is_none());
    assert!(w.preview_data.is_none());
    assert!(w.metadata.is_empty());
    assert_eq!(w.id.len(), 36);
    assert!(w.created_at > 1_600_000_000);
}

#[test]
fn add_then_get_then_remove() {
    let mut m = WindowManager::new();
    let id = m.add_to_tray(window("w-1", "One"));
    assert_eq!(id, "w-1");
    let got = m.get_trayed_window("w-1").unwrap();
    assert_eq!(got.title, "One");
    assert_eq!(got.created_at, 100);
    let removed = m.remove_from_tray("w-1").unwrap();
    assert_eq!(removed.id, "w-1");
    assert_eq!(removed.title, "One");
    assert!(m.get_trayed_window("w-1").is_none());
}

#[test]
fn remove_unknown_is_absent() {
    let mut m = WindowManager::new();
    m.add_to_tray(window("a", "A"));
    assert!(m.remove_from_tray("b").is_none());
    assert_eq!(m.list_trayed_windows().len(), 1);
}

#[test]
fn add_same_id_replaces() {
    let mut m = WindowManager::new();
    m.add_to_tray(window("a", "First"));
    m.add_to_tray(window("a", "Second"));
    let all = m.list_trayed_windows();
    assert_eq!(all.len(), 1);
    assert_eq!(all[0].title, "Second");
}

#[test]
fn list_holds_each_entry_once() {
    let mut m = WindowManager::new();
    assert!(m.list_trayed_windows().is_empty());
    m.add_to_tray(window("a", "A"));
    m.add_to_tray(window("b", "B"));
    m.add_to_tray(window("c", "C"));
    m.remove_from_tray("b");
    let ids: HashSet<String> = m.list_trayed_windows().iter().map(|w| w.id.clone()).collect();
    let expected: HashSet<String> = ["a", "c"].iter().map(|s| s.to_string()).collect();
    assert_eq!(ids, expected);
}

#[test]
fn update_sets_preview_and_process() {
    let mut m = WindowManager::new();
    m.add_to_tray(window("a", "A"));
    let found = m.update_window("a", |mut w| {
        w.preview_data = Some(vec![1, 2, 3]);
        w.process_id = Some(42);
        w
    });
    assert!(found);
    let w = m.get_trayed_window("a").unwrap();
    assert_eq!(w.preview_data, Some(vec![1, 2, 3]));
    assert_eq!(w.process_id, Some(42));
    assert!(!m.update_window("zz", |w| w));
}

#[test]
fn generated_ids_are_distinct() {
    let mut m = WindowManager::new();
    let mut ids = HashSet::new();
    for i in 0..1000 {
        let id = m.add_to_tray(TrayedWindow::new(format!("t{}", i), "app".to_string()));
        ids.insert(id);
    }
    assert_eq!(ids.len(), 1000);
    assert_eq!(m.list_trayed_windows().len(), 1000);
}

#[test]
fn minimize_list_restore_scenario() {
    let mut m = WindowManager::new();
    let x = minimize_to_tray(&mut m, "Terminal".to_string(), "term-app".to_string());
    let listed = list_windows(&m);
    assert_eq!(listed.len(), 1);
    assert_eq!(listed[0].id, x);
    assert_eq!(listed[0].title, "Terminal");
    assert_eq!(listed[0].app_name, "term-app");
    let info = restore_from_tray(&mut m, &x).unwrap();
    assert_eq!(info.id, x);
    assert_eq!(info.title, "Terminal");
    assert_eq!(info.app_name, "term-app");
    assert!(info.workspace.is_none());
    assert!(list_windows(&m).is_empty());
}

#[test]
fn restore_unknown_is_not_found() {
    let mut m = WindowManager::new();
    match restore_from_tray(&mut m, "nope") {
        Err(AppError::NotFound(id)) => assert_eq!(id, "nope"),
        _ => panic!("expected NotFound"),
    }
}

#[test]
fn preview_of_window() {
    let mut m = WindowManager::new();
    let x = minimize_to_tray(&mut m, "T".to_string(), "a".to_string());
    assert_eq!(get_window_preview(&m, &x).unwrap(), None);
    m.update_window(&x, |mut w| {
        w.preview_data = Some(vec![9, 8]);
        w
    });
    assert_eq!(get_window_preview(&m, &x).unwrap(), Some(vec![9, 8]));
    match get_window_preview(&m, "missing") {
        Err(AppError::NotFound(id)) => assert_eq!(id, "missing"),
        _ => panic!("expected NotFound"),
    }
}

#[test]
fn error_messages() {
    assert_eq!(AppError::NotFound("x".to_string()).message(), "Not found: x");
    assert_eq!(AppError::Database("down".to_string()).message(), "Database error: down");
    assert_eq!(AppError::Internal("?".to_string()).message(), "Internal error: ?");
}

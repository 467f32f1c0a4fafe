use clipflow::history::{
    check_save_path, configured_save_path, default_settings, insert_missed, resync_candidate,
    stored_or_default, DeletedSignatures, HistoryItem,
};
use clipflow::queue::PasteQueue;

#[test]
fn rows_without_category_are_text() {
    let item = HistoryItem::from_row(3, "c".to_string(), "2024".to_string(), None);
    assert_eq!((item.id, item.content.as_str(), item.category.as_str()), (3, "c", "text"));
    let item = HistoryItem::from_row(4, "c".to_string(), "2024".to_string(), Some("code".to_string()));
    assert_eq!(item.category, "code");
}

#[test]
fn deleted_content_is_not_resynced_until_cleared() {
    let mut deleted = DeletedSignatures::new();
    let item = resync_candidate(&deleted, Some("function f()".to_string())).unwrap();
    assert_eq!((item.content.as_str(), item.category.as_str()), ("function f()", "code"));
    deleted.note_deleted("function f()");
    deleted.note_deleted("function f()");
    assert!(deleted.contains_signature(&"function f()".to_string()));
    assert!(resync_candidate(&deleted, Some("function f()".to_string())).is_none());
    assert!(resync_candidate(&deleted, Some("other".to_string())).is_some());
    deleted.clear();
    assert!(resync_candidate(&deleted, Some("function f()".to_string())).is_some());
}

#[test]
fn long_deleted_content_is_matched_by_signature() {
    let mut deleted = DeletedSignatures::new();
    let long = "a".repeat(120);
    deleted.note_deleted(&long);
    let similar = format!("{}{}", "a".repeat(100), "different tail");
    assert!(resync_candidate(&deleted, Some(similar)).is_none());
}

#[test]
fn empty_or_missing_clipboard_is_not_resynced() {
    let deleted = DeletedSignatures::new();
    assert!(resync_candidate(&deleted, Some(String::new())).is_none());
    assert!(resync_candidate(&deleted, None).is_none());
}

#[test]
fn missed_content_inserted_only_when_known_absent() {
    assert!(insert_missed(Some(false)));
    assert!(!insert_missed(Some(true)));
    assert!(!insert_missed(None));
}

#[test]
fn default_settings_list() {
    let d = default_settings();
    let expected = [
        ("history_limit", "200"),
        ("server_port", "19527"),
        ("privacy_mode", "false"),
        ("shortcut", "Alt+V"),
        ("theme", "system"),
        ("disable_search", "false"),
        ("file_save_path", ""),
        ("follow_mouse", "false"),
    ];
    assert_eq!(d.len(), expected.len());
    for (got, (k, v)) in d.iter().zip(expected.iter()) {
        assert_eq!((got.0.as_str(), got.1.as_str()), (*k, *v));
    }
}

#[test]
fn save_folder_choice() {
    assert_eq!(stored_or_default(Some("/data".to_string()), "/dl".to_string()), "/data");
    assert_eq!(stored_or_default(Some(String::new()), "/dl".to_string()), "/dl");
    assert_eq!(stored_or_default(None, "/dl".to_string()), "/dl");
    assert_eq!(configured_save_path("/mem".to_string(), Some("/db".to_string()), "/dl".to_string()), "/mem");
    assert_eq!(configured_save_path(String::new(), Some("/db".to_string()), "/dl".to_string()), "/db");
    assert_eq!(configured_save_path(String::new(), Some(String::new()), "/dl".to_string()), "/dl");
}

#[test]
fn blank_save_path_refused() {
    assert_eq!(check_save_path("  "), Err("路径为空".to_string()));
    assert_eq!(check_save_path(""), Err("路径为空".to_string()));
    assert_eq!(check_save_path("/tmp/x"), Ok(()));
}

#[test]
fn queue_pastes_in_order() {
    let mut q = PasteQueue::new();
    assert_eq!(q.take_next(), None);
    q.set(vec![5, 3, 9]);
    assert_eq!(q.take_next(), Some(5));
    assert_eq!(q.take_next(), Some(3));
    q.set(vec![1]);
    assert_eq!(q.take_next(), Some(1));
    assert_eq!(q.take_next(), None);
}
